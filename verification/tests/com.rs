use sbz_switch::com::event::{Polled, Subscription};
use sbz_switch::com::{ComScope, Guid, ReferenceCount};
use sbz_switch::ctsndcr::{recognized, EventInfo, UNRECOGNIZED_COUNT};
use sbz_switch::hresult::{Win32Error, E_ABORT, E_FAIL, E_NOINTERFACE, S_OK};
use sbz_switch::soundcore::event::event_channel;

const DISPATCH: usize = 0x1000;

fn iid_unknown() -> Guid {
    Guid { data1: 0, data2: 0, data3: 0, data4: [0xc0, 0, 0, 0, 0, 0, 0, 0x46] }
}

fn iid_callback() -> Guid {
    Guid {
        data1: 0xb353_c442,
        data2: 0xc49d,
        data3: 0x4532,
        data4: [0x9e, 0x3a, 0x1b, 0x20, 0xa1, 0x82, 0xfd, 0x00],
    }
}

fn event(code: u32) -> EventInfo {
    EventInfo { event: code, data_or_feature_id: 10, param_id: 20 }
}

#[test]
fn a_scope_opens_on_success_only() {
    assert!(ComScope::new(0).is_ok());
    // initializing an initialized apartment answers 1
    assert!(ComScope::new(1).is_ok());
    assert_eq!(ComScope::new(E_FAIL).unwrap_err(), Win32Error { code: E_FAIL });
    assert!(ComScope::begin(0).is_ok());
    assert_eq!(ComScope::begin(-3).unwrap_err(), Win32Error { code: -3 });
}

#[test]
fn clones_and_releases_move_the_count_by_their_difference() {
    // true is a clone, false a release
    let ops = [true, true, false, true, false, false, true, true, false];
    let mut references = ReferenceCount::new();
    let mut clones = 0i64;
    let mut releases = 0i64;
    for clone in ops {
        if clone {
            clones += 1;
            assert_eq!(references.add_ref() as i64, 1 + clones - releases);
        } else {
            releases += 1;
            assert_eq!(references.release() as i64, 1 + clones - releases);
        }
        assert!(!references.is_finalized());
    }
    assert_eq!(references.get() as i64, 1 + clones - releases);
}

#[test]
fn the_object_is_finalized_when_the_count_reaches_zero() {
    let mut references = ReferenceCount::new();
    assert_eq!(references.get(), 1);
    assert_eq!(references.add_ref(), 2);
    assert_eq!(references.release(), 1);
    assert!(!references.is_finalized());
    assert_eq!(references.release(), 0);
    assert!(references.is_finalized());
}

#[test]
fn add_ref_then_release_returns_the_count() {
    let (mut callback, _receiver) = event_channel(DISPATCH);
    assert_eq!(callback.references(), 1);
    assert_eq!(callback.add_ref(DISPATCH), 2);
    assert_eq!(callback.release(DISPATCH), 1);
    assert_eq!(callback.references(), 1);
    assert!(!callback.is_finalized());
}

#[test]
fn release_to_zero_drops_the_sender_once() {
    let (mut callback, receiver) = event_channel(DISPATCH);
    let mut subscription: Subscription<EventInfo> = Subscription::new(receiver, 0).unwrap();
    assert_eq!(callback.add_ref(DISPATCH), 2);
    assert_eq!(callback.release(DISPATCH), 1);
    // the sender is still there: the channel is open and empty
    assert!(matches!(subscription.poll(), Polled::Pending));
    assert_eq!(callback.release(DISPATCH), 0);
    assert!(callback.is_finalized());
    // the sender is gone: the channel has ended
    assert!(matches!(subscription.poll(), Polled::Finished));
    // nothing can be delivered through a finalized object
    assert_eq!(callback.event_callback(DISPATCH, event(2)), E_ABORT);
}

#[test]
fn an_unrecognized_pointer_changes_nothing_and_gets_1() {
    let (mut callback, _receiver) = event_channel(DISPATCH);
    assert_eq!(callback.add_ref(DISPATCH), 2);
    assert_eq!(callback.add_ref(DISPATCH + 8), 1);
    assert_eq!(callback.references(), 2);
    assert_eq!(callback.release(0), 1);
    assert_eq!(callback.references(), 2);
    assert_eq!(callback.event_callback(0, event(2)), E_ABORT);
}

#[test]
fn the_identity_query_grants_the_two_interfaces() {
    let (mut callback, _receiver) = event_channel(DISPATCH);
    assert_eq!(callback.query_interface(&iid_unknown()), S_OK);
    assert_eq!(callback.references(), 2);
    assert_eq!(callback.query_interface(&iid_callback()), S_OK);
    assert_eq!(callback.references(), 3);
}

#[test]
fn the_identity_query_refuses_other_interfaces() {
    let (mut callback, _receiver) = event_channel(DISPATCH);
    let mut other = iid_callback();
    other.data4[7] = 1;
    assert_eq!(callback.query_interface(&other), E_NOINTERFACE);
    let mut other = iid_unknown();
    other.data1 = 1;
    assert_eq!(callback.query_interface(&other), E_NOINTERFACE);
    assert_eq!(callback.references(), 1);
}

#[test]
fn events_arrive_in_the_order_of_their_delivery() {
    let (callback, receiver) = event_channel(DISPATCH);
    let mut subscription = Subscription::new(receiver, 0).unwrap();
    assert!(matches!(subscription.poll(), Polled::Pending));
    assert_eq!(callback.event_callback(DISPATCH, event(1)), S_OK);
    assert_eq!(callback.event_callback(DISPATCH, event(2)), S_OK);
    assert_eq!(callback.event_callback(DISPATCH, event(3)), S_OK);
    for code in 1..=3 {
        match subscription.poll() {
            Polled::Ready(got) => assert_eq!(got, event(code)),
            other => panic!("expected an event, got {:?}", other),
        }
    }
    assert!(matches!(subscription.poll(), Polled::Pending));
}

#[test]
fn delivery_is_aborted_once_the_receiver_is_gone() {
    let (callback, receiver) = event_channel(DISPATCH);
    drop(receiver);
    assert_eq!(callback.event_callback(DISPATCH, event(2)), E_ABORT);
}

#[test]
fn guids_compare_field_by_field() {
    assert!(iid_unknown().same(&iid_unknown()));
    assert!(!iid_unknown().same(&iid_callback()));
    let mut other = iid_callback();
    other.data3 += 1;
    assert!(!iid_callback().same(&other));
    let mut other = iid_callback();
    other.data2 += 1;
    assert!(!iid_callback().same(&other));
    let mut other = iid_callback();
    other.data4[0] = 0;
    assert!(!iid_callback().same(&other));
}

#[test]
fn guids_are_written_in_braces_and_upper_case() {
    assert_eq!(iid_callback().to_text(), "{B353C442-C49D-4532-9E3A-1B20A182FD00}");
    assert_eq!(iid_unknown().to_text(), "{00000000-0000-0000-C000-000000000046}");
}

#[test]
fn a_sound_core_makes_the_channel_for_its_events() {
    let clsid = iid_unknown();
    let core = sbz_switch::soundcore::SoundCore::for_device(&clsid, "device").unwrap();
    let (callback, receiver) = core.events(DISPATCH);
    assert_eq!(callback.references(), 1);
    let mut subscription = Subscription::new(receiver, 0).unwrap();
    assert_eq!(callback.event_callback(DISPATCH, event(4)), S_OK);
    assert!(matches!(subscription.poll(), Polled::Ready(got) if got == event(4)));
}

#[test]
fn recognition_compares_dispatch_entries() {
    assert!(recognized(DISPATCH, DISPATCH));
    assert!(!recognized(DISPATCH, DISPATCH + 1));
    assert_eq!(UNRECOGNIZED_COUNT, 1);
}
