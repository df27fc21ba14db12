use snow_ui::event_bus;
use snow_ui::girl::GIRL_TYPE_ID;
use snow_ui::girl::PREPARE_BREAKFAST_TAG;
use snow_ui::girl::SAY_HI_TAG;
use snow_ui::EventBus;
use snow_ui::Girl;
use snow_ui::GirlActions;
use snow_ui::Message;
use snow_ui::RecvPoll;

fn fresh_girl() -> Girl {
    Girl::default()
}

#[test]
fn send_invokes_each_handler_exactly_once_in_order() {
    let mut bus: EventBus<Girl> = EventBus::new();
    let a = bus.share_instance(GIRL_TYPE_ID, fresh_girl());
    let b = bus.share_instance(GIRL_TYPE_ID, fresh_girl());
    bus.register_handler(SAY_HI_TAG, a);
    bus.register_handler(SAY_HI_TAG, b);

    bus.send(&GirlActions::SayHi);

    // each handler ran exactly once, in registration order
    assert_eq!(bus.log_len(), 2);
    let r0 = bus.log_at(0);
    let r1 = bus.log_at(1);
    assert_eq!(r0.slot, 0);
    assert_eq!(r0.instance, a);
    assert_eq!(r1.slot, 1);
    assert_eq!(r1.instance, b);
    assert_eq!(bus.instance_at(a).state.every_morning, vec![GirlActions::SayHi]);
    assert_eq!(bus.instance_at(b).state.every_morning, vec![GirlActions::SayHi]);
}

#[test]
fn double_registration_causes_two_invocations_per_send() {
    let mut bus: EventBus<Girl> = EventBus::new();
    let id = bus.share_instance(GIRL_TYPE_ID, fresh_girl());
    bus.register_handler(SAY_HI_TAG, id);
    bus.register_handler(SAY_HI_TAG, id);

    bus.send(&GirlActions::SayHi);
    assert_eq!(bus.log_len(), 2);
    assert_eq!(
        bus.instance_at(id).state.every_morning,
        vec![GirlActions::SayHi, GirlActions::SayHi]
    );

    bus.send(&GirlActions::SayHi);
    assert_eq!(bus.log_len(), 4);
    assert_eq!(bus.instance_at(id).state.every_morning.len(), 4);
}

#[test]
fn first_handler_completes_before_second_begins() {
    let mut bus: EventBus<Girl> = EventBus::new();
    let id = bus.share_instance(GIRL_TYPE_ID, fresh_girl());
    bus.register_handler(SAY_HI_TAG, id);
    bus.register_handler(SAY_HI_TAG, id);

    bus.send(&GirlActions::SayHi);

    // both invocations are complete when send returns, and the log shows
    // the first registration's invocation strictly before the second's
    assert_eq!(bus.log_len(), 2);
    assert!(bus.log_at(0).slot < bus.log_at(1).slot);
    assert_eq!(bus.instance_at(id).state.every_morning.len(), 2);
}

#[test]
fn send_skips_handlers_of_other_tags() {
    let mut bus: EventBus<Girl> = EventBus::new();
    let id = bus.share_instance(GIRL_TYPE_ID, fresh_girl());
    bus.register_handler(SAY_HI_TAG, id);

    bus.send(&GirlActions::PrepareBreakfast);

    assert_eq!(bus.log_len(), 0);
    assert!(bus.instance_at(id).state.every_morning.is_empty());
}

#[test]
fn message_tags_are_stable_per_kind() {
    assert_eq!(GirlActions::SayHi.tag(), SAY_HI_TAG);
    assert_eq!(GirlActions::PrepareBreakfast.tag(), PREPARE_BREAKFAST_TAG);
}

#[test]
fn subscriber_receives_one_signal_per_send() {
    let mut bus: EventBus<Girl> = EventBus::new();
    let mut rx = bus.subscribe(SAY_HI_TAG);
    assert_eq!(rx.recv(), RecvPoll::Pending);

    bus.send(&GirlActions::SayHi);
    assert_eq!(rx.recv(), RecvPoll::Signal);
    assert_eq!(rx.recv(), RecvPoll::Pending);

    // a send of another kind queues nothing for this subscription
    bus.send(&GirlActions::PrepareBreakfast);
    assert_eq!(rx.recv(), RecvPoll::Pending);
}

#[test]
fn recv_reports_closed_after_producers_drop() {
    let mut bus: EventBus<Girl> = EventBus::new();
    let mut rx = bus.subscribe(SAY_HI_TAG);
    bus.send(&GirlActions::SayHi);
    drop(bus);
    // the queued signal is still delivered, then the closed indicator comes
    // instead of blocking forever
    assert_eq!(rx.recv(), RecvPoll::Signal);
    assert_eq!(rx.recv(), RecvPoll::Closed);
}

#[test]
fn handle_delegates_to_the_borrowed_bus() {
    let handle = event_bus();
    let mut bus: EventBus<Girl> = EventBus::new();
    assert!(bus.is_wf());
    let id = bus.share_instance(GIRL_TYPE_ID, fresh_girl());
    handle.register_handler(&mut bus, SAY_HI_TAG, id);
    assert!(bus.is_wf());
    let mut rx = handle.subscribe(&mut bus, SAY_HI_TAG);
    handle.send(&mut bus, &GirlActions::SayHi);
    assert_eq!(rx.recv(), RecvPoll::Signal);
    assert_eq!(bus.instance_at(id).state.every_morning, vec![GirlActions::SayHi]);
}
