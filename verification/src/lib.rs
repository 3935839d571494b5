//! Verified protocol core for controlling Creative Sound Blaster devices.
//!
//! The sound driver is reached through reference-counted binary objects whose
//! methods answer with numeric status codes. This crate holds the decisions
//! that surround those calls: how status codes are read, how typed parameter
//! values travel on the wire, how the enumeration cursors advance, how a
//! callback object counts its references and how pushed notifications become
//! a pulled sequence of events. The calls themselves are made by the program
//! that links this library; every function here works on plain values and
//! carries a contract that Verus proves.

pub mod com;
pub mod configuration;
pub mod convert;
pub mod ctsndcr;
pub mod hresult;
pub mod lazy;
pub mod media;
pub mod soundcore;
pub mod text;

pub use crate::configuration::{dump, Configuration, EndpointConfiguration};

use vstd::prelude::*;

use crate::com::event::Polled;
use crate::hresult::Win32Error;
use crate::media::event::VolumeNotification;
use crate::media::{required_value_of, Endpoint, GetPropertyError, PropertyStore};
use crate::soundcore::event::SoundCoreEvent;

verus! {

/// Describes a device that may be configurable.
#[derive(Clone, Debug)]
pub struct DeviceInfo {
    /// Represents the device to Windows.
    pub id: String,
    /// Describes the hardware that connects the device to the computer.
    pub interface: String,
    /// Describes the audio device.
    pub description: String,
}

/// A device description as a mathematical value.
pub struct DeviceInfoView {
    pub id: Seq<char>,
    pub interface: Seq<char>,
    pub description: Seq<char>,
}

impl View for DeviceInfo {
    type V = DeviceInfoView;

    open spec fn view(&self) -> DeviceInfoView {
        DeviceInfoView {
            id: self.id@,
            interface: self.interface@,
            description: self.description@,
        }
    }
}

/// The description of one endpoint, or the first failure met on the way:
/// the identifier is read first, then the name of the interface, then the
/// description.
pub open spec fn device_of(endpoint: Endpoint) -> Result<DeviceInfoView, GetPropertyError> {
    match endpoint.id {
        Err(error) => Err(GetPropertyError::Win32(error)),
        Ok(id) => match required_value_of(
            endpoint.properties,
            |store: PropertyStore| store.interface_name,
        ) {
            Err(error) => Err(error),
            Ok(interface) => match required_value_of(
                endpoint.properties,
                |store: PropertyStore| store.device_description,
            ) {
                Err(error) => Err(error),
                Ok(description) => Ok(DeviceInfoView { id: id@, interface, description }),
            },
        },
    }
}

/// The descriptions of the endpoints, in order, or the failure of the
/// first endpoint that cannot be described.
pub open spec fn devices_of(endpoints: Seq<Endpoint>) -> Result<
    Seq<DeviceInfoView>,
    GetPropertyError,
>
    decreases endpoints.len(),
{
    if endpoints.len() == 0 {
        Ok(Seq::empty())
    } else {
        match devices_of(endpoints.drop_last()) {
            Err(error) => Err(error),
            Ok(devices) => match device_of(endpoints.last()) {
                Err(error) => Err(error),
                Ok(device) => Ok(devices.push(device)),
            },
        }
    }
}

/// The mathematical values of a list of device descriptions.
pub open spec fn device_views(devices: Seq<DeviceInfo>) -> Seq<DeviceInfoView> {
    Seq::new(devices.len(), |i: int| devices[i]@)
}

/// Produces a list of devices currently available, from the endpoints that
/// the operating system enumerated.
///
/// This may include devices that are not configurable.
pub fn list_devices(endpoints: &Vec<Endpoint>) -> (devices: Result<
    Vec<DeviceInfo>,
    GetPropertyError,
>)
    ensures
        match devices_of(endpoints@) {
            Ok(views) => devices matches Ok(list) && device_views(list@) == views,
            Err(error) => devices matches Err(e) && e == error,
        },
{
    let mut result: Vec<DeviceInfo> = Vec::new();
    let mut i: usize = 0;
    assert(device_views(result@) =~= Seq::<DeviceInfoView>::empty());
    assert(endpoints@.take(0).len() == 0);
    while i < endpoints.len()
        invariant
            i <= endpoints@.len(),
            devices_of(endpoints@.take(i as int)) == Ok::<Seq<DeviceInfoView>, GetPropertyError>(
                device_views(result@),
            ),
        decreases endpoints@.len() - i,
    {
        let endpoint = &endpoints[i];
        proof {
            assert(endpoints@.take(i + 1).drop_last() =~= endpoints@.take(i as int));
            assert(endpoints@.take(i + 1).last() == endpoints@[i as int]);
            lemma_first_failure_stays(endpoints@, i + 1);
        }
        let id = match endpoint.id() {
            Ok(id) => id,
            Err(error) => {
                return Err(GetPropertyError::Win32(error));
            },
        };
        let interface = match endpoint.interface() {
            Ok(interface) => interface,
            Err(error) => {
                return Err(error);
            },
        };
        let description = match endpoint.description() {
            Ok(description) => description,
            Err(error) => {
                return Err(error);
            },
        };
        let ghost before = device_views(result@);
        result.push(DeviceInfo { id, interface, description });
        i += 1;
        assert(device_views(result@) =~= before.push(result@.last()@));
    }
    assert(endpoints@.take(i as int) =~= endpoints@);
    Ok(result)
}

/// A failure among the first endpoints is the failure of the whole list.
pub proof fn lemma_first_failure_stays(endpoints: Seq<Endpoint>, n: int)
    requires
        0 <= n <= endpoints.len(),
    ensures
        devices_of(endpoints.take(n)) is Err ==> devices_of(endpoints) == devices_of(
            endpoints.take(n),
        ),
    decreases endpoints.len() - n,
{
    if n < endpoints.len() {
        assert(endpoints.take(n + 1).drop_last() =~= endpoints.take(n));
        lemma_first_failure_stays(endpoints, n + 1);
    } else {
        assert(endpoints.take(n) =~= endpoints);
    }
}

/// Either a SoundCoreEvent or a VolumeNotification.
#[derive(Debug)]
pub enum SoundCoreOrVolumeEvent {
    /// A SoundCoreEvent.
    SoundCore(SoundCoreEvent),
    /// A VolumeNotification.
    Volume(VolumeNotification),
}

/// What a poll of the events of the sound card means for the merged
/// sequence of its events and the volume notifications of its endpoint:
/// an item that is there is the next item of the merged sequence, an event
/// as an event and an error as an error. Anything else leaves the turn to
/// the volume notifications.
pub fn after_sound_core(polled: Polled<Result<SoundCoreEvent, Win32Error>>) -> (next: Option<
    Result<SoundCoreOrVolumeEvent, Win32Error>,
>)
    ensures
        next == match polled {
            Polled::Ready(Ok(event)) => Some(
                Ok::<SoundCoreOrVolumeEvent, Win32Error>(SoundCoreOrVolumeEvent::SoundCore(event)),
            ),
            Polled::Ready(Err(error)) => Some(Err::<SoundCoreOrVolumeEvent, Win32Error>(error)),
            _ => None,
        },
{
    match polled {
        Polled::Ready(Ok(event)) => Some(Ok(SoundCoreOrVolumeEvent::SoundCore(event))),
        Polled::Ready(Err(error)) => Some(Err(error)),
        _ => None,
    }
}

/// What a poll of the volume notifications means for the merged sequence,
/// when the events of the sound card had nothing: a notification that is
/// there is the next item, and anything else leaves the merged sequence
/// pending. The merged sequence does not end.
pub fn after_volume(polled: Polled<VolumeNotification>) -> (next: Polled<
    Result<SoundCoreOrVolumeEvent, Win32Error>,
>)
    ensures
        next == match polled {
            Polled::Ready(notification) => Polled::Ready(
                Ok::<SoundCoreOrVolumeEvent, Win32Error>(
                    SoundCoreOrVolumeEvent::Volume(notification),
                ),
            ),
            _ => Polled::<Result<SoundCoreOrVolumeEvent, Win32Error>>::Pending,
        },
{
    match polled {
        Polled::Ready(notification) => Polled::Ready(
            Ok(SoundCoreOrVolumeEvent::Volume(notification)),
        ),
        _ => Polled::Pending,
    }
}

} // verus!
