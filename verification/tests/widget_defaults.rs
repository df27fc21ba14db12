use snow_ui::widgets;
use snow_ui::Appearance;
use snow_ui::Board;
use snow_ui::BodyType;
use snow_ui::Button;
use snow_ui::Element;
use snow_ui::Form;
use snow_ui::Girl;
use snow_ui::HAlign;
use snow_ui::HairColor;
use snow_ui::IntoObject;
use snow_ui::MessageContext;
use snow_ui::Object;
use snow_ui::SkinColor;
use snow_ui::Switch;
use snow_ui::Text;
use snow_ui::TextInput;
use snow_ui::VAlign;
use snow_ui::World;
use snow_ui::VIEWPORT_HEIGHT;
use snow_ui::VIEWPORT_WIDTH;

#[test]
fn board_default_spans_viewport_centered() {
    let b = Board::default();
    assert_eq!(b.width, VIEWPORT_WIDTH);
    assert_eq!(b.height, VIEWPORT_HEIGHT);
    assert_eq!(b.h_align, HAlign::Center);
    assert_eq!(b.v_align, VAlign::Middle);
    assert!(b.children.is_empty());
}

#[test]
fn world_default_root_is_a_default_board() {
    let w = World::default();
    match w.root {
        Object::Board(b) => {
            assert!(b.children.is_empty());
            assert_eq!(b.h_align, HAlign::Center);
        }
        _ => panic!("the default root is a board"),
    }
}

#[test]
fn textinput_default_is_an_unlimited_text_field() {
    let t = TextInput::default();
    assert_eq!(t.label, "");
    assert_eq!(t.name, "");
    assert_eq!(t.input_type, "text");
    assert_eq!(t.max_len, 0);
}

#[test]
fn form_default_has_blank_buttons_and_no_children() {
    let f = Form::default();
    assert_eq!(f.submit_button.text, "");
    assert_eq!(f.reset_button.text, "");
    assert!(f.children.is_empty());
}

#[test]
fn leaf_elements_finalize_into_element_nodes() {
    match Button::default().into_object() {
        Object::Element(Element::Button(b)) => assert_eq!(b.text, ""),
        _ => panic!("a button finalizes into a button element node"),
    }
    match (Text { text: String::from("hi") }).into_object() {
        Object::Element(Element::Text(t)) => assert_eq!(t.text, "hi"),
        _ => panic!("a text leaf finalizes into a text element node"),
    }
    match Switch::default().into_object() {
        Object::Element(Element::Switch(s)) => assert!(s.children.is_empty()),
        _ => panic!("a switch finalizes into a switch element node"),
    }
}

#[test]
fn switch_switch_to_changes_active_index() {
    let mut s = Switch {
        children: vec![
            Object::from(Text { text: String::from("a") }),
            Object::from(Text { text: String::from("b") }),
        ],
        active: 0,
    };
    assert_eq!(s.active_index(), 0);
    s.switch_to(1);
    assert_eq!(s.active_index(), 1);
    s.switch_to(999); // out-of-range -> clamp
    assert_eq!(s.active_index(), 1);
}

#[test]
fn from_conversions_wrap_the_matching_variant() {
    let e = Element::from(Button::default());
    assert!(matches!(e, Element::Button(_)));

    let o = Object::from(Element::from(Text { text: String::from("x") }));
    match o {
        Object::Element(Element::Text(t)) => assert_eq!(t.text, "x"),
        _ => panic!("a text element wraps into an element node"),
    }

    let o2 = Object::from(Girl::default());
    assert!(matches!(o2, Object::Girl(_)));
    let o3 = Object::from(Board::default());
    assert!(matches!(o3, Object::Board(_)));
}

#[test]
fn girl_default_appearance() {
    let g = Girl::default();
    assert_eq!(g.hair_color, HairColor::Brown);
    assert_eq!(g.skin_color, SkinColor::Light);
    assert_eq!(g.body_type, BodyType::Average);
    assert_eq!(g.appearance, Appearance::Cute);
    assert!(g.every_morning.is_empty());
}

#[test]
fn default_helper_builds_defaults() {
    let n: u32 = widgets::default();
    assert_eq!(n, 0);
    let b: Button = widgets::default();
    assert_eq!(b.text, "");
    let _ctx = MessageContext::default();
}
