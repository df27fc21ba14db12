use snow_ui::finalize_instance;
use snow_ui::girl::GIRL_TYPE_ID;
use snow_ui::girl::PREPARE_BREAKFAST_TAG;
use snow_ui::girl::SAY_HI_TAG;
use snow_ui::has_registered_handlers;
use snow_ui::register_handlers_for_instance;
use snow_ui::EventBus;
use snow_ui::Finalized;
use snow_ui::Girl;
use snow_ui::GirlActions;
use snow_ui::HandlerRegistry;
use snow_ui::HandlerRegistryEntry;

const OTHER_TYPE_ID: u64 = 99;

fn girl_registry() -> HandlerRegistry {
    let mut reg = HandlerRegistry::new();
    assert!(reg.add(HandlerRegistryEntry {
        element_type_id: GIRL_TYPE_ID,
        message_tag: SAY_HI_TAG,
    }));
    assert!(reg.add(HandlerRegistryEntry {
        element_type_id: GIRL_TYPE_ID,
        message_tag: PREPARE_BREAKFAST_TAG,
    }));
    reg
}

#[test]
fn has_handlers_iff_a_descriptor_matches() {
    let reg = HandlerRegistry::new();
    assert!(!has_registered_handlers(&reg, GIRL_TYPE_ID));

    let reg = girl_registry();
    // true with zero live instances: the registry knows types, not instances
    assert!(has_registered_handlers(&reg, GIRL_TYPE_ID));
    assert!(!has_registered_handlers(&reg, OTHER_TYPE_ID));
}

#[test]
fn adding_a_duplicate_pair_is_refused() {
    let mut reg = girl_registry();
    assert_eq!(reg.len(), 2);
    let repeat = reg.add(HandlerRegistryEntry {
        element_type_id: GIRL_TYPE_ID,
        message_tag: SAY_HI_TAG,
    });
    assert!(!repeat);
    assert_eq!(reg.len(), 2);
}

#[test]
fn finalizing_without_handlers_consumes_by_value() {
    let reg = HandlerRegistry::new();
    let mut bus: EventBus<Girl> = EventBus::new();
    let girl = Girl::default();

    match finalize_instance(&reg, &mut bus, GIRL_TYPE_ID, girl) {
        Finalized::Plain(g) => {
            assert!(g.every_morning.is_empty());
        }
        Finalized::Shared(_) => panic!("no descriptor matches, so no sharing"),
    }
    // no shared storage was allocated and nothing was installed
    assert_eq!(bus.instance_count(), 0);
    assert_eq!(bus.handler_count(), 0);
}

#[test]
fn finalizing_with_handlers_promotes_and_installs_each_kind_once() {
    let reg = girl_registry();
    let mut bus: EventBus<Girl> = EventBus::new();

    let id = match finalize_instance(&reg, &mut bus, GIRL_TYPE_ID, Girl::default()) {
        Finalized::Shared(id) => id,
        Finalized::Plain(_) => panic!("descriptors match, so the element is shared"),
    };
    assert_eq!(id, 0);
    assert_eq!(bus.instance_count(), 1);
    // one handler per matching message kind, no duplicates
    assert_eq!(bus.handler_count(), 2);

    bus.send(&GirlActions::SayHi);
    bus.send(&GirlActions::PrepareBreakfast);
    assert_eq!(
        bus.instance_at(id).state.every_morning,
        vec![GirlActions::SayHi, GirlActions::PrepareBreakfast]
    );
}

#[test]
fn descriptors_for_other_types_are_silent_noops() {
    let mut reg = girl_registry();
    assert!(reg.add(HandlerRegistryEntry {
        element_type_id: OTHER_TYPE_ID,
        message_tag: SAY_HI_TAG,
    }));
    let mut bus: EventBus<Girl> = EventBus::new();
    let id = bus.share_instance(GIRL_TYPE_ID, Girl::default());

    register_handlers_for_instance(&reg, &mut bus, id);

    // only the two descriptors for the girl's own type installed anything
    assert_eq!(bus.handler_count(), 2);
}

#[test]
fn tree_snapshot_is_not_retroactively_updated() {
    let reg = girl_registry();
    let mut bus: EventBus<Girl> = EventBus::new();

    let girl = Girl::default();
    // the value snapshot a tree node would store at finalization time
    let snapshot = girl.clone();
    let id = match finalize_instance(&reg, &mut bus, GIRL_TYPE_ID, girl) {
        Finalized::Shared(id) => id,
        Finalized::Plain(_) => panic!("descriptors match"),
    };

    bus.send(&GirlActions::SayHi);

    // handler-driven mutation reaches the live shared instance only; the
    // already-taken snapshot stays as it was
    assert_eq!(bus.instance_at(id).state.every_morning, vec![GirlActions::SayHi]);
    assert!(snapshot.every_morning.is_empty());
}

#[test]
fn two_instances_of_one_type_each_get_one_invocation_in_install_order() {
    let reg = girl_registry();
    let mut bus: EventBus<Girl> = EventBus::new();

    let first = match finalize_instance(&reg, &mut bus, GIRL_TYPE_ID, Girl::default()) {
        Finalized::Shared(id) => id,
        Finalized::Plain(_) => panic!("descriptors match"),
    };
    let second = match finalize_instance(&reg, &mut bus, GIRL_TYPE_ID, Girl::default()) {
        Finalized::Shared(id) => id,
        Finalized::Plain(_) => panic!("descriptors match"),
    };
    assert_ne!(first, second);

    bus.send(&GirlActions::SayHi);

    assert_eq!(bus.instance_at(first).state.every_morning, vec![GirlActions::SayHi]);
    assert_eq!(bus.instance_at(second).state.every_morning, vec![GirlActions::SayHi]);
    assert_eq!(bus.log_len(), 2);
    assert_eq!(bus.log_at(0).instance, first);
    assert_eq!(bus.log_at(1).instance, second);
}
