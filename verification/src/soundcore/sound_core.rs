//! Reaching the driver object of a device.

use futures::channel::mpsc::UnboundedReceiver;
use vstd::prelude::*;

use super::cursor::Cursor;
use super::event::event_channel;
use super::feature_iterator::SoundCoreFeatureIterator;
use crate::com::Guid;
use crate::ctsndcr::{Callback, EventInfo, HardwareInfo};
use crate::text::{encode_utf16, utf16_of};

verus! {

/// Provides control of Creative SoundBlaster features.
///
/// This holds what it takes to reach the driver object of one device: the
/// class to create the object from, and the record that binds the object
/// to the device.
#[derive(Debug)]
pub struct SoundCore {
    clsid: Guid,
    hardware: HardwareInfo,
}

impl SoundCore {
    /// The class of the driver object.
    pub closed spec fn clsid(&self) -> Guid {
        self.clsid
    }

    /// The record that binds the driver object to the device.
    pub closed spec fn hardware(&self) -> HardwareInfo {
        self.hardware
    }

    /// Prepares the driver object of a device.
    ///
    /// `clsid` is the class of the SoundCore implementation to use, and
    /// `device_id` is the Windows device ID. A device ID of more than 260
    /// UTF-16 units cannot be bound.
    pub fn for_device(clsid: &Guid, device_id: &str) -> (core: Option<SoundCore>)
        ensures
            utf16_of(device_id@).len() <= 260 ==> (core matches Some(c) && c.clsid() == *clsid
                && c.hardware().info_type == 0 && c.hardware().info@ == HardwareInfo::path_of(
                utf16_of(device_id@),
            )),
            utf16_of(device_id@).len() > 260 ==> core is None,
    {
        let units = encode_utf16(device_id);
        if units.len() <= 260 {
            Some(SoundCore { clsid: *clsid, hardware: HardwareInfo::for_device(units.as_slice()) })
        } else {
            None
        }
    }

    /// Reads the class to create the driver object from.
    pub fn class(&self) -> (clsid: &Guid)
        ensures
            *clsid == self.clsid(),
    {
        &self.clsid
    }

    /// Reads the record to bind the driver object with.
    pub fn bind_hardware(&self) -> (info: &HardwareInfo)
        ensures
            *info == self.hardware(),
    {
        &self.hardware
    }

    /// Returns a cursor over the features exposed by a device, before its
    /// first probe.
    pub fn features(&self, context: u32) -> (cursor: SoundCoreFeatureIterator)
        ensures
            cursor.context() == context,
            cursor.cursor() == Cursor::start(),
    {
        SoundCoreFeatureIterator::new(context)
    }

    /// Makes the channel for the events of the device: the callback object
    /// to register with the notification source of the driver object, made
    /// with the given dispatch entry, and the receiving half from which
    /// the subscription is made once the callback is registered.
    pub fn events(&self, dispatch: usize) -> (halves: (Callback, UnboundedReceiver<EventInfo>))
        ensures
            halves.0.wf(),
            halves.0.count() == 1,
            halves.0.dispatch() == dispatch,
    {
        event_channel(dispatch)
    }
}

} // verus!
