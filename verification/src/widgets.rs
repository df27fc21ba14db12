//! The declarative widget tree: containers, leaf elements, and the
//! conversions that finalize an element into a tree node.
//!
//! These types are plain data. The one piece of behaviour they carry is
//! `IntoObject`, the finalization step that wraps an element value into a
//! node of the object tree.

use vstd::prelude::*;

use crate::girl::Girl;

verus! {

/// A length expressed in viewport units.
#[derive(Clone, Copy, Debug, PartialEq, Eq, Structural)]
pub enum Size {
    ViewportWidth,
    ViewportHeight,
}

/// The full width of the viewport.
pub const VIEWPORT_WIDTH: Size = Size::ViewportWidth;

/// The full height of the viewport.
pub const VIEWPORT_HEIGHT: Size = Size::ViewportHeight;

/// Horizontal alignment of a container's children.
#[derive(Clone, Copy, Debug, PartialEq, Eq, Structural)]
pub enum HAlign {
    Left,
    Center,
    Right,
}

/// Vertical alignment of a container's children.
#[derive(Clone, Copy, Debug, PartialEq, Eq, Structural)]
pub enum VAlign {
    Top,
    Middle,
    Bottom,
}

/// A static text leaf.
#[derive(Debug, Clone)]
pub struct Text {
    pub text: String,
}

impl Default for Text {
    fn default() -> (t: Text)
        ensures
            t.text@.len() == 0,
    {
        proof {
            reveal_strlit("");
        }
        Text { text: String::from_str("") }
    }
}

/// A clock leaf rendering the current time with a format string.
#[derive(Debug, Clone)]
pub struct TextClock {
    pub format: String,
}

impl Default for TextClock {
    fn default() -> (t: TextClock)
        ensures
            t.format@.len() == 0,
    {
        proof {
            reveal_strlit("");
        }
        TextClock { format: String::from_str("") }
    }
}

/// A clickable button leaf.
#[derive(Debug, Clone)]
pub struct Button {
    pub text: String,
}

impl Default for Button {
    fn default() -> (b: Button)
        ensures
            b.text@.len() == 0,
    {
        proof {
            reveal_strlit("");
        }
        Button { text: String::from_str("") }
    }
}

/// A text input field.
#[derive(Debug, Clone)]
pub struct TextInput {
    /// Optional label text shown next to the input field.
    pub label: String,
    pub name: String,
    /// The kind of input accepted, as in a markup form.
    pub input_type: String,
    /// Optional maximum length for input. `0` means no limit.
    pub max_len: u32,
}

impl Default for TextInput {
    fn default() -> (t: TextInput)
        ensures
            t.label@.len() == 0,
            t.name@.len() == 0,
            t.input_type@ == "text"@,
            t.max_len == 0,
    {
        proof {
            reveal_strlit("");
        }
        TextInput {
            label: String::from_str(""),
            name: String::from_str(""),
            input_type: String::from_str("text"),
            max_len: 0,
        }
    }
}

/// A container that shows exactly one of its children at a time.
#[derive(Debug)]
pub struct Switch {
    pub children: Vec<Object>,
    /// The index of the child currently shown.
    pub active: usize,
}

impl Default for Switch {
    fn default() -> (s: Switch)
        ensures
            s.children@.len() == 0,
            s.active == 0,
    {
        Switch { children: Vec::new(), active: 0 }
    }
}

impl Switch {
    /// The index of the child currently shown.
    pub fn active_index(&self) -> (i: usize)
        ensures
            i == self.active,
    {
        self.active
    }

    /// Show the child at `index`. An out-of-range index is clamped: it
    /// selects the last child, and on an empty switch nothing changes.
    pub fn switch_to(&mut self, index: usize)
        ensures
            final(self).children@ == old(self).children@,
            final(self).active == if index < old(self).children@.len() {
                index as int
            } else if old(self).children@.len() == 0 {
                old(self).active as int
            } else {
                old(self).children@.len() - 1
            },
    {
        let n = self.children.len();
        if index < n {
            self.active = index;
        } else if n > 0 {
            self.active = n - 1;
        }
    }
}

/// A form grouping input fields with submit and reset controls.
#[derive(Debug)]
pub struct Form {
    pub submit_button: Button,
    pub reset_button: Button,
    pub children: Vec<Object>,
}

impl Default for Form {
    fn default() -> (f: Form)
        ensures
            f.submit_button.text@.len() == 0,
            f.reset_button.text@.len() == 0,
            f.children@.len() == 0,
    {
        Form {
            submit_button: Button::default(),
            reset_button: Button::default(),
            children: Vec::new(),
        }
    }
}

/// An inline leaf element of the tree.
#[derive(Debug)]
pub enum Element {
    Text(Text),
    TextClock(TextClock),
    Button(Button),
    Form(Form),
    TextInput(TextInput),
    Switch(Switch),
}

/// A free-form card container.
#[derive(Debug)]
pub struct Card {
    pub children: Vec<Object>,
}

impl Default for Card {
    fn default() -> (c: Card)
        ensures
            c.children@.len() == 0,
    {
        Card { children: Vec::new() }
    }
}

/// A horizontal row container.
#[derive(Debug)]
pub struct Row {
    pub children: Vec<Object>,
}

impl Default for Row {
    fn default() -> (r: Row)
        ensures
            r.children@.len() == 0,
    {
        Row { children: Vec::new() }
    }
}

/// The root container spanning the viewport.
#[derive(Debug)]
pub struct Board {
    pub width: Size,
    pub height: Size,
    pub h_align: HAlign,
    pub v_align: VAlign,
    pub children: Vec<Object>,
}

impl Default for Board {
    fn default() -> (b: Board)
        ensures
            b.width == VIEWPORT_WIDTH,
            b.height == VIEWPORT_HEIGHT,
            b.h_align == HAlign::Center,
            b.v_align == VAlign::Middle,
            b.children@.len() == 0,
    {
        Board {
            width: VIEWPORT_WIDTH,
            height: VIEWPORT_HEIGHT,
            h_align: HAlign::Center,
            v_align: VAlign::Middle,
            children: Vec::new(),
        }
    }
}

/// One node of the object tree.
#[derive(Debug)]
pub enum Object {
    Board(Board),
    Girl(Girl),
    Card(Card),
    Row(Row),
    Element(Element),
}

/// The whole scene handed to the embedder for display.
#[derive(Debug)]
pub struct World {
    pub root: Object,
}

impl Default for World {
    fn default() -> (w: World)
        ensures
            w.root matches Object::Board(b) && b.width == VIEWPORT_WIDTH && b.height
                == VIEWPORT_HEIGHT && b.h_align == HAlign::Center && b.v_align == VAlign::Middle
                && b.children@.len() == 0,
    {
        World { root: Object::Board(Board::default()) }
    }
}

/// Finalization of a declarative element into a tree node.
pub trait IntoObject: Sized {
    /// The node this element finalizes into.
    spec fn object_spec(self) -> Object;

    /// Consume the element and produce its tree node.
    fn into_object(self) -> (r: Object)
        ensures
            r == self.object_spec(),
    ;
}

impl IntoObject for Button {
    open spec fn object_spec(self) -> Object {
        Object::Element(Element::Button(self))
    }

    fn into_object(self) -> (r: Object) {
        Object::Element(Element::Button(self))
    }
}

impl IntoObject for TextInput {
    open spec fn object_spec(self) -> Object {
        Object::Element(Element::TextInput(self))
    }

    fn into_object(self) -> (r: Object) {
        Object::Element(Element::TextInput(self))
    }
}

impl IntoObject for Switch {
    open spec fn object_spec(self) -> Object {
        Object::Element(Element::Switch(self))
    }

    fn into_object(self) -> (r: Object) {
        Object::Element(Element::Switch(self))
    }
}

impl IntoObject for Form {
    open spec fn object_spec(self) -> Object {
        Object::Element(Element::Form(self))
    }

    fn into_object(self) -> (r: Object) {
        Object::Element(Element::Form(self))
    }
}

impl IntoObject for Text {
    open spec fn object_spec(self) -> Object {
        Object::Element(Element::Text(self))
    }

    fn into_object(self) -> (r: Object) {
        Object::Element(Element::Text(self))
    }
}

impl IntoObject for TextClock {
    open spec fn object_spec(self) -> Object {
        Object::Element(Element::TextClock(self))
    }

    fn into_object(self) -> (r: Object) {
        Object::Element(Element::TextClock(self))
    }
}

impl From<Text> for Element {
    fn from(t: Text) -> (r: Element) {
        Element::Text(t)
    }
}

impl vstd::std_specs::convert::FromSpecImpl<Text> for Element {
    open spec fn obeys_from_spec() -> bool {
        true
    }

    open spec fn from_spec(t: Text) -> Element {
        Element::Text(t)
    }
}

impl From<TextClock> for Element {
    fn from(t: TextClock) -> (r: Element) {
        Element::TextClock(t)
    }
}

impl vstd::std_specs::convert::FromSpecImpl<TextClock> for Element {
    open spec fn obeys_from_spec() -> bool {
        true
    }

    open spec fn from_spec(t: TextClock) -> Element {
        Element::TextClock(t)
    }
}

impl From<Button> for Element {
    fn from(b: Button) -> (r: Element) {
        Element::Button(b)
    }
}

impl vstd::std_specs::convert::FromSpecImpl<Button> for Element {
    open spec fn obeys_from_spec() -> bool {
        true
    }

    open spec fn from_spec(b: Button) -> Element {
        Element::Button(b)
    }
}

impl From<TextInput> for Element {
    fn from(t: TextInput) -> (r: Element) {
        Element::TextInput(t)
    }
}

impl vstd::std_specs::convert::FromSpecImpl<TextInput> for Element {
    open spec fn obeys_from_spec() -> bool {
        true
    }

    open spec fn from_spec(t: TextInput) -> Element {
        Element::TextInput(t)
    }
}

impl From<Switch> for Element {
    fn from(s: Switch) -> (r: Element) {
        Element::Switch(s)
    }
}

impl vstd::std_specs::convert::FromSpecImpl<Switch> for Element {
    open spec fn obeys_from_spec() -> bool {
        true
    }

    open spec fn from_spec(s: Switch) -> Element {
        Element::Switch(s)
    }
}

impl From<Form> for Element {
    fn from(f: Form) -> (r: Element) {
        Element::Form(f)
    }
}

impl vstd::std_specs::convert::FromSpecImpl<Form> for Element {
    open spec fn obeys_from_spec() -> bool {
        true
    }

    open spec fn from_spec(f: Form) -> Element {
        Element::Form(f)
    }
}

impl From<Board> for Object {
    fn from(b: Board) -> (r: Object) {
        Object::Board(b)
    }
}

impl vstd::std_specs::convert::FromSpecImpl<Board> for Object {
    open spec fn obeys_from_spec() -> bool {
        true
    }

    open spec fn from_spec(b: Board) -> Object {
        Object::Board(b)
    }
}

impl From<Girl> for Object {
    fn from(g: Girl) -> (r: Object) {
        Object::Girl(g)
    }
}

impl vstd::std_specs::convert::FromSpecImpl<Girl> for Object {
    open spec fn obeys_from_spec() -> bool {
        true
    }

    open spec fn from_spec(g: Girl) -> Object {
        Object::Girl(g)
    }
}

impl From<Card> for Object {
    fn from(c: Card) -> (r: Object) {
        Object::Card(c)
    }
}

impl vstd::std_specs::convert::FromSpecImpl<Card> for Object {
    open spec fn obeys_from_spec() -> bool {
        true
    }

    open spec fn from_spec(c: Card) -> Object {
        Object::Card(c)
    }
}

impl From<Row> for Object {
    fn from(row: Row) -> (r: Object) {
        Object::Row(row)
    }
}

impl vstd::std_specs::convert::FromSpecImpl<Row> for Object {
    open spec fn obeys_from_spec() -> bool {
        true
    }

    open spec fn from_spec(row: Row) -> Object {
        Object::Row(row)
    }
}

impl From<Element> for Object {
    fn from(e: Element) -> (r: Object) {
        Object::Element(e)
    }
}

impl vstd::std_specs::convert::FromSpecImpl<Element> for Object {
    open spec fn obeys_from_spec() -> bool {
        true
    }

    open spec fn from_spec(e: Element) -> Object {
        Object::Element(e)
    }
}

impl From<Text> for Object {
    fn from(t: Text) -> (r: Object) {
        Object::Element(Element::Text(t))
    }
}

impl vstd::std_specs::convert::FromSpecImpl<Text> for Object {
    open spec fn obeys_from_spec() -> bool {
        true
    }

    open spec fn from_spec(t: Text) -> Object {
        Object::Element(Element::Text(t))
    }
}

impl From<TextClock> for Object {
    fn from(t: TextClock) -> (r: Object) {
        Object::Element(Element::TextClock(t))
    }
}

impl vstd::std_specs::convert::FromSpecImpl<TextClock> for Object {
    open spec fn obeys_from_spec() -> bool {
        true
    }

    open spec fn from_spec(t: TextClock) -> Object {
        Object::Element(Element::TextClock(t))
    }
}

/// Context passed to widgets that update over time. Time is carried as
/// milliseconds since the UI started, so widget logic stays plain data.
#[derive(Debug, Clone, Copy, PartialEq, Eq, Structural)]
pub struct UpdateContext {
    pub time: u64,
}

/// A widget that updates over time.
pub trait InnerMovement {
    /// Advance the widget to the moment described by `ctx`.
    fn update(&mut self, ctx: &mut UpdateContext);
}

/// A widget that does periodic work. One call performs one tick, run to
/// completion; the embedder owns the loop and its timing.
pub trait InnerTicker {
    /// Perform one tick of periodic work.
    fn ticker(&mut self);
}

/// A widget that handles clicks. One call handles one click, run to
/// completion.
pub trait ClickHandler {
    /// React to one click.
    fn on_click(&mut self);
}

/// A widget that wires itself to the bus when brought up: `register` is
/// called once with `&mut self` before messages flow.
pub trait MessageReceiver {
    /// Install this widget's subscriptions and background interests.
    fn register(&mut self);
}

/// Helper so user code can write `..default()` when filling a widget struct:
/// it returns exactly what `T::default()` returns.
pub fn default<T: Default>() -> (r: T)
    ensures
        call_ensures(T::default, (), r),
{
    T::default()
}

} // verus!
