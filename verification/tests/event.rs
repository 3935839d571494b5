use std::cell::Cell;

use sbz_switch::com::event::{
    deliver, status_of_delivery, ComEventIterator, Fuse, Polled, Step, Subscription,
};
use sbz_switch::ctsndcr::{EventInfo, FeatureInfo, Param, ParamInfo, ParamValue};
use sbz_switch::hresult::{Win32Error, E_ABORT, E_FAIL, S_OK};
use sbz_switch::media::event::{on_notify, volume_channel, VolumeEvents, VolumeNotification};
use sbz_switch::com::Guid;
use sbz_switch::soundcore::event::{event_channel, Query, Classification};
use sbz_switch::soundcore::{SoundCoreEvent, SoundCoreEvents, SoundCoreParamValue};
use sbz_switch::{after_sound_core, after_volume, SoundCoreOrVolumeEvent};

fn field<const N: usize>(text: &str) -> [u8; N] {
    let mut bytes = [0u8; N];
    bytes[..text.len()].copy_from_slice(text.as_bytes());
    bytes
}

fn feature_info() -> FeatureInfo {
    FeatureInfo { feature_id: 10, description: field("Surround"), version: field("3.1") }
}

fn param_info() -> ParamInfo {
    ParamInfo {
        param: Param { param: 20, feature: 10, context: 0 },
        param_type: 1,
        data_size: 0,
        min_value: ParamValue { kind: 1, value: 0 },
        max_value: ParamValue { kind: 1, value: 1 },
        step_size: ParamValue { kind: 9, value: 0 },
        default_value: ParamValue { kind: 1, value: 0 },
        param_attributes: 0,
        description: field("Enabled"),
    }
}

// One call for the next item, over a source that answers by the script.
// Returns the item and the number of cooperative waits.
fn next_item(script: Vec<Polled<u32>>) -> (Option<u32>, usize) {
    let mut adapter = ComEventIterator::new();
    let waits = Cell::new(0usize);
    for polled in script {
        match adapter.next(polled) {
            Step::Yield(item) => return (Some(item), waits.get()),
            Step::End => return (None, waits.get()),
            Step::Wait => waits.set(waits.get() + 1),
        }
    }
    panic!("the script ended before the call returned");
}

#[test]
fn pending_then_item_returns_the_item_after_one_wait() {
    let (item, waits) = next_item(vec![Polled::Pending, Polled::Ready(7), Polled::Ready(8)]);
    assert_eq!(item, Some(7));
    assert_eq!(waits, 1);
}

#[test]
fn an_item_that_is_there_is_returned_without_a_wait() {
    let (item, waits) = next_item(vec![Polled::Ready(7), Polled::Pending]);
    assert_eq!(item, Some(7));
    assert_eq!(waits, 0);
}

#[test]
fn every_pending_poll_costs_one_wait() {
    let (item, waits) = next_item(vec![
        Polled::Pending,
        Polled::Pending,
        Polled::Pending,
        Polled::Ready(1),
    ]);
    assert_eq!(item, Some(1));
    assert_eq!(waits, 3);
}

#[test]
fn the_end_of_the_source_ends_the_sequence() {
    let (item, waits) = next_item(vec![Polled::Pending, Polled::Finished]);
    assert_eq!(item, None);
    assert_eq!(waits, 1);
}

#[test]
fn a_failed_registration_leaves_no_subscription() {
    let (_callback, receiver) = event_channel(1);
    match SoundCoreEvents::new(receiver, E_FAIL) {
        Ok(_) => panic!("a subscription was made"),
        Err(error) => assert_eq!(error, Win32Error { code: E_FAIL }),
    }
}

#[test]
fn disposing_unregisters_exactly_once_after_no_deliveries() {
    let (_callback, receiver) = event_channel(1);
    let mut events = SoundCoreEvents::new(receiver, 0).unwrap();
    assert!(events.is_registered());
    assert!(events.dispose());
    assert!(!events.is_registered());
    assert!(!events.dispose());
    assert!(!events.dispose());
}

#[test]
fn disposing_unregisters_exactly_once_after_many_deliveries() {
    let (callback, receiver) = event_channel(1);
    let mut events = SoundCoreEvents::new(receiver, 0).unwrap();
    for i in 0..10 {
        let info = EventInfo { event: i, data_or_feature_id: 0, param_id: 0 };
        assert_eq!(callback.event_callback(1, info), S_OK);
    }
    for _ in 0..4 {
        assert!(matches!(events.poll(), Polled::Ready(_)));
    }
    let mut unregistered = 0;
    for _ in 0..3 {
        if events.dispose() {
            unregistered += 1;
        }
    }
    assert_eq!(unregistered, 1);
}

#[test]
fn what_the_channel_holds_at_disposal_is_discarded() {
    let (callback, receiver) = event_channel(1);
    let mut events = SoundCoreEvents::new(receiver, 0).unwrap();
    let info = EventInfo { event: 1, data_or_feature_id: 0, param_id: 0 };
    assert_eq!(callback.event_callback(1, info), S_OK);
    assert!(events.dispose());
    assert!(matches!(events.poll(), Polled::Finished));
    assert!(matches!(events.poll(), Polled::Finished));
}

#[test]
fn delivery_status_is_ok_or_aborted() {
    assert_eq!(status_of_delivery(true), S_OK);
    assert_eq!(status_of_delivery(false), E_ABORT);
}

#[test]
fn other_events_are_handed_on_as_they_came() {
    for code in [0u32, 1, 3, 0xff] {
        let info = EventInfo { event: code, data_or_feature_id: 5, param_id: 6 };
        let classification = Classification::begin(info);
        assert_eq!(classification.query(), None);
        match classification.finish() {
            Some(Ok(SoundCoreEvent::Unknown(got))) => assert_eq!(got, info),
            other => panic!("unexpected {:?}", other),
        }
    }
}

#[test]
fn a_changed_parameter_is_described_again() {
    let info = EventInfo { event: 2, data_or_feature_id: 10, param_id: 20 };
    let classification = Classification::begin(info);
    assert_eq!(classification.query(), Some(Query::FeatureInfo { context: 0, feature: 10 }));
    let classification = classification.feature_info(0, &feature_info());
    assert_eq!(
        classification.query(),
        Some(Query::ParamInfo(Param { param: 20, feature: 10, context: 0 }))
    );
    let classification = classification.param_info(0, &param_info());
    assert_eq!(classification.query(), None);
    match classification.finish() {
        Some(Ok(SoundCoreEvent::ParamChange { feature, parameter })) => {
            assert_eq!(feature.id, 10);
            assert_eq!(feature.context, 0);
            assert_eq!(feature.description, "Surround");
            assert_eq!(feature.version, "3.1");
            assert_eq!(parameter.id, 20);
            assert_eq!(parameter.feature_id, 10);
            assert_eq!(parameter.feature_description, "Surround");
            assert_eq!(parameter.description, "Enabled");
            assert_eq!(parameter.max_value, SoundCoreParamValue::Bool(true));
            assert_eq!(parameter.step_size, SoundCoreParamValue::Absent);
        }
        other => panic!("unexpected {:?}", other),
    }
}

#[test]
fn a_failed_feature_query_is_the_error_of_the_item() {
    let info = EventInfo { event: 2, data_or_feature_id: 10, param_id: 20 };
    let classification = Classification::begin(info).feature_info(E_FAIL, &feature_info());
    assert_eq!(classification.query(), None);
    match classification.finish() {
        Some(Err(error)) => assert_eq!(error, Win32Error { code: E_FAIL }),
        other => panic!("unexpected {:?}", other),
    }
}

#[test]
fn a_failed_parameter_query_is_the_error_of_the_item() {
    let info = EventInfo { event: 2, data_or_feature_id: 10, param_id: 20 };
    let classification =
        Classification::begin(info).feature_info(0, &feature_info()).param_info(-9, &param_info());
    match classification.finish() {
        Some(Err(error)) => assert_eq!(error, Win32Error { code: -9 }),
        other => panic!("unexpected {:?}", other),
    }
}

#[test]
fn an_unfinished_classification_has_no_event() {
    let info = EventInfo { event: 2, data_or_feature_id: 10, param_id: 20 };
    assert!(Classification::begin(info).finish().is_none());
    assert!(Classification::begin(info).feature_info(0, &feature_info()).finish().is_none());
}

#[test]
fn answers_that_were_not_asked_for_change_nothing() {
    let info = EventInfo { event: 2, data_or_feature_id: 10, param_id: 20 };
    let classification = Classification::begin(info).param_info(0, &param_info());
    assert_eq!(classification.query(), Some(Query::FeatureInfo { context: 0, feature: 10 }));
    let done =
        Classification::begin(EventInfo { event: 1, ..info }).feature_info(E_FAIL, &feature_info());
    assert!(matches!(done.finish(), Some(Ok(SoundCoreEvent::Unknown(_)))));
}

#[test]
fn a_failure_of_one_item_does_not_end_the_sequence() {
    let (callback, receiver) = event_channel(1);
    let mut events = SoundCoreEvents::new(receiver, 0).unwrap();
    let changed = EventInfo { event: 2, data_or_feature_id: 10, param_id: 20 };
    assert_eq!(callback.event_callback(1, changed), S_OK);
    assert_eq!(callback.event_callback(1, changed), S_OK);
    let first = match events.poll() {
        Polled::Ready(info) => Classification::begin(info).feature_info(E_FAIL, &feature_info()),
        other => panic!("unexpected {:?}", other),
    };
    assert!(matches!(first.finish(), Some(Err(_))));
    assert!(events.is_registered());
    assert!(matches!(events.poll(), Polled::Ready(_)));
}

fn notification() -> VolumeNotification {
    VolumeNotification {
        event_context: Guid { data1: 1, data2: 2, data3: 3, data4: [4; 8] },
        is_muted: true,
        volume: 0.25f32.to_bits(),
    }
}

#[test]
fn volume_notifications_travel_through_their_channel() {
    let (sender, receiver) = volume_channel();
    let mut events = VolumeEvents::new(receiver, 0).unwrap();
    let sent = notification();
    assert_eq!(on_notify(&sender, sent.event_context, sent.is_muted, sent.volume), S_OK);
    match events.poll() {
        Polled::Ready(got) => {
            assert!(got.event_context.same(&sent.event_context));
            assert!(got.is_muted);
            assert_eq!(f32::from_bits(got.volume), 0.25);
        }
        other => panic!("unexpected {:?}", other),
    }
    drop(events);
    assert_eq!(on_notify(&sender, sent.event_context, false, 0), E_ABORT);
}

#[test]
fn deliver_reports_whether_the_channel_took_the_item() {
    let (sender, receiver) = volume_channel();
    assert_eq!(deliver(&sender, notification()), S_OK);
    drop(receiver);
    assert_eq!(deliver(&sender, notification()), E_ABORT);
}

#[test]
fn a_subscription_ends_when_every_sender_is_gone() {
    let (sender, receiver) = volume_channel();
    let mut events: Subscription<VolumeNotification> = Subscription::new(receiver, 0).unwrap();
    assert_eq!(deliver(&sender, notification()), S_OK);
    drop(sender);
    assert!(matches!(events.poll(), Polled::Ready(_)));
    assert!(matches!(events.poll(), Polled::Finished));
}

#[test]
fn sound_core_events_come_first_in_the_merged_sequence() {
    let info = EventInfo { event: 9, data_or_feature_id: 0, param_id: 0 };
    match after_sound_core(Polled::Ready(Ok(SoundCoreEvent::Unknown(info)))) {
        Some(Ok(SoundCoreOrVolumeEvent::SoundCore(SoundCoreEvent::Unknown(got)))) => {
            assert_eq!(got, info)
        }
        other => panic!("unexpected {:?}", other),
    }
    match after_sound_core(Polled::Ready(Err(Win32Error { code: -2 }))) {
        Some(Err(error)) => assert_eq!(error.code, -2),
        other => panic!("unexpected {:?}", other),
    }
    assert!(after_sound_core(Polled::Pending).is_none());
    assert!(after_sound_core(Polled::Finished).is_none());
}

#[test]
fn volume_notifications_fill_in_and_the_merged_sequence_never_ends() {
    match after_volume(Polled::Ready(notification())) {
        Polled::Ready(Ok(SoundCoreOrVolumeEvent::Volume(got))) => assert!(got.is_muted),
        other => panic!("unexpected {:?}", other),
    }
    assert!(matches!(after_volume(Polled::Pending), Polled::Pending));
    assert!(matches!(after_volume(Polled::Finished), Polled::Pending));
}

#[test]
fn a_fuse_blows_when_the_source_has_finished() {
    let mut fuse = Fuse::new();
    assert!(!fuse.is_ended());
    fuse.record(&Polled::Ready(1u8));
    fuse.record(&Polled::<u8>::Pending);
    assert!(!fuse.is_ended());
    fuse.record(&Polled::<u8>::Finished);
    assert!(fuse.is_ended());
    fuse.record(&Polled::Ready(2u8));
    assert!(fuse.is_ended());
}

#[test]
fn a_subscription_remembers_the_end_of_its_channel() {
    let (sender, receiver) = volume_channel();
    let mut events: Subscription<VolumeNotification> = Subscription::new(receiver, 0).unwrap();
    assert!(!events.is_ended());
    assert!(matches!(events.poll(), Polled::Pending));
    assert!(!events.is_ended());
    assert_eq!(deliver(&sender, notification()), S_OK);
    assert!(matches!(events.poll(), Polled::Ready(_)));
    assert!(!events.is_ended());
    drop(sender);
    assert!(matches!(events.poll(), Polled::Finished));
    assert!(events.is_ended());
    assert!(matches!(events.poll(), Polled::Finished));
    assert!(events.is_ended());
    // the end of the notifications is not the end of the registration
    assert!(events.is_registered());
    assert!(events.dispose());
    assert!(events.is_ended());
}

#[test]
fn a_disposed_subscription_has_ended_at_its_next_poll() {
    let (sender, receiver) = volume_channel();
    let mut events: Subscription<VolumeNotification> = Subscription::new(receiver, 0).unwrap();
    assert_eq!(deliver(&sender, notification()), S_OK);
    assert!(events.dispose());
    assert!(!events.is_ended());
    assert!(matches!(events.poll(), Polled::Finished));
    assert!(events.is_ended());
}
