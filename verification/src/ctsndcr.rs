//! The records that travel between a caller and the sound driver.
//!
//! Each record here holds, as plain values, what the driver's methods take
//! and give. Text fields are fixed-size byte arrays that end at the first
//! zero byte, or at the end of the field when no byte is zero.

use futures::channel::mpsc::UnboundedSender;
use vstd::prelude::*;

use crate::com::event::deliver;
use crate::com::{count_after, finalizes, Guid, HandleOp, ReferenceCount};
use crate::hresult::{E_ABORT, E_NOINTERFACE, S_OK};
use crate::text::{field_has_text, has_text};

verus! {

/// The number of UTF-16 units in the device path of a [`HardwareInfo`].
pub const HARDWARE_PATH_UNITS: usize = 260;

/// The mask that asks a notification source for every class of event.
pub const EVENT_MASK_ALL: u32 = 0xff;

/// The event code of a changed parameter.
pub const EVENT_PARAMETER_CHANGED: u32 = 2;

/// References a parameter of a feature of a device.
#[derive(Clone, Copy, Debug, PartialEq, Eq, Structural)]
pub struct Param {
    pub param: u32,
    pub feature: u32,
    pub context: u32,
}

/// Represents a value of a parameter: a kind and 32 bits read by that kind.
#[derive(Clone, Copy, Debug, PartialEq, Eq, Structural)]
pub struct ParamValue {
    pub kind: u32,
    pub value: u32,
}

/// References a hardware device.
#[derive(Clone, Copy, Debug)]
pub struct HardwareInfo {
    pub info_type: u32,
    pub info: [u16; 260],
}

/// Describes a context the device may operate in.
#[derive(Clone, Copy, Debug)]
pub struct ContextInfo {
    pub context_id: u32,
    pub description: [u8; 32],
}

/// Describes a feature exposed by a device.
#[derive(Clone, Copy, Debug)]
pub struct FeatureInfo {
    pub feature_id: u32,
    pub description: [u8; 32],
    pub version: [u8; 16],
}

/// Describes a parameter of a feature exposed by a device.
#[derive(Clone, Copy, Debug)]
pub struct ParamInfo {
    pub param: Param,
    pub param_type: u32,
    pub data_size: u32,
    pub min_value: ParamValue,
    pub max_value: ParamValue,
    pub step_size: ParamValue,
    pub default_value: ParamValue,
    pub param_attributes: u32,
    pub description: [u8; 32],
}

/// Describes an event that has occurred.
#[derive(Clone, Copy, Debug, PartialEq, Eq, Structural)]
pub struct EventInfo {
    pub event: u32,
    pub data_or_feature_id: u32,
    pub param_id: u32,
}

impl FeatureInfo {
    /// Whether the description and the version can both be read as text.
    pub open spec fn readable(&self) -> bool {
        has_text(self.description@) && has_text(self.version@)
    }

    /// Tests whether the description and the version can both be read as
    /// text.
    pub fn is_readable(&self) -> (readable: bool)
        ensures
            readable == self.readable(),
    {
        field_has_text(self.description.as_slice()) && field_has_text(self.version.as_slice())
    }
}

impl ParamInfo {
    /// Whether the description can be read as text.
    pub open spec fn readable(&self) -> bool {
        has_text(self.description@)
    }

    /// Tests whether the description can be read as text.
    pub fn is_readable(&self) -> (readable: bool)
        ensures
            readable == self.readable(),
    {
        field_has_text(self.description.as_slice())
    }
}

impl HardwareInfo {
    /// The device path that a record made from `units` holds: the units in
    /// order, then zeros up to the end of the field.
    pub open spec fn path_of(units: Seq<u16>) -> Seq<u16> {
        Seq::new(260, |i: int| if i < units.len() { units[i] } else { 0u16 })
    }

    /// Builds the record that binds a driver object to the device whose
    /// identifier, in UTF-16, is `units`.
    ///
    /// The field has room for 260 units; a longer identifier has no record.
    pub fn for_device(units: &[u16]) -> (info: HardwareInfo)
        requires
            units@.len() <= 260,
        ensures
            info.info_type == 0,
            info.info@ == Self::path_of(units@),
    {
        let mut buffer: [u16; 260] = [0u16; 260];
        let mut i: usize = 0;
        while i < units.len()
            invariant
                i <= units@.len() <= 260,
                forall|j: int| 0 <= j < i ==> buffer@[j] == units@[j],
                forall|j: int| i <= j < 260 ==> buffer@[j] == 0u16,
            decreases units@.len() - i,
        {
            buffer[i] = units[i];
            i += 1;
        }
        assert(buffer@ =~= Self::path_of(units@));
        HardwareInfo { info_type: 0, info: buffer }
    }
}

/// The identity of the interface that every binary object offers.
pub open spec fn iid_unknown() -> Guid {
    Guid {
        data1: 0x0000_0000,
        data2: 0x0000,
        data3: 0x0000,
        data4: [0xc0u8, 0x00u8, 0x00u8, 0x00u8, 0x00u8, 0x00u8, 0x00u8, 0x46u8],
    }
}

/// The identity of the interface through which the driver notifies.
pub open spec fn iid_callback() -> Guid {
    Guid {
        data1: 0xb353_c442,
        data2: 0xc49d,
        data3: 0x4532,
        data4: [0x9eu8, 0x3au8, 0x1bu8, 0x20u8, 0xa1u8, 0x82u8, 0xfdu8, 0x00u8],
    }
}

/// Whether a callback object offers the interface that `iid` names.
pub open spec fn offers(iid: Guid) -> bool {
    iid.equals(iid_unknown()) || iid.equals(iid_callback())
}

/// What a counting method answers to a call whose pointer it does not
/// recognize: a harmless count.
pub const UNRECOGNIZED_COUNT: u32 = 1;

/// Tests whether a call came with a pointer to a callback object of this
/// implementation: whether the dispatch entry found behind the pointer is
/// the expected one. Nothing else behind the pointer may be read before
/// this is known.
pub fn recognized(found: usize, expected: usize) -> (recognized: bool)
    ensures
        recognized == (found == expected),
{
    found == expected
}

/// The object that the driver calls to notify of events.
///
/// It is a binary object in its own right: it answers the identity query,
/// counts its references and finalizes itself when the last is released,
/// which drops the channel's sending half. Its one method of its own puts
/// the event into the channel and does nothing else.
///
/// Calls arrive with nothing but a pointer. The object therefore records
/// the dispatch entry it was made with, and a call that shows another entry
/// is taken to have come with a pointer to something else: it changes
/// nothing. The test tells the objects of this implementation from garbage,
/// not one of them from another.
pub struct Callback {
    dispatch: usize,
    references: ReferenceCount,
    sender: Option<UnboundedSender<EventInfo>>,
}

impl Callback {
    /// The dispatch entry that the object was made with.
    pub closed spec fn dispatch(&self) -> usize {
        self.dispatch
    }

    /// The number of references held to the object.
    pub closed spec fn count(&self) -> nat {
        self.references.count()
    }

    /// Whether the object still holds the channel's sending half.
    pub closed spec fn holds_sender(&self) -> bool {
        self.sender is Some
    }

    /// The object holds its sender exactly as long as a reference is held
    /// to it.
    pub open spec fn wf(&self) -> bool {
        self.holds_sender() <==> self.count() > 0
    }

    /// Wraps the sending half of a channel. The one reference to the new
    /// object is its creator's.
    pub fn new(sender: UnboundedSender<EventInfo>, dispatch: usize) -> (callback: Callback)
        ensures
            callback.wf(),
            callback.count() == 1,
            callback.dispatch() == dispatch,
    {
        Callback { dispatch, references: ReferenceCount::new(), sender: Some(sender) }
    }

    /// Reads the number of references held to the object.
    pub fn references(&self) -> (count: u32)
        ensures
            count == self.count(),
    {
        self.references.get()
    }

    /// Whether the last reference has been released, and the sender with it.
    pub fn is_finalized(&self) -> (finalized: bool)
        ensures
            finalized == (self.count() == 0),
    {
        self.references.is_finalized()
    }

    /// The identity query. For the interface of every object and for the
    /// notification interface it counts a reference and succeeds, and the
    /// caller is given the object's own pointer; for any other it answers
    /// that there is no such interface, and the caller is given null.
    pub fn query_interface(&mut self, iid: &Guid) -> (status: i32)
        requires
            old(self).wf(),
            0 < old(self).count() < u32::MAX,
        ensures
            final(self).wf(),
            final(self).dispatch() == old(self).dispatch(),
            offers(*iid) ==> status == S_OK && final(self).count() == old(self).count() + 1,
            !offers(*iid) ==> status == E_NOINTERFACE && final(self).count() == old(self).count(),
    {
        let unknown = Guid {
            data1: 0x0000_0000,
            data2: 0x0000,
            data3: 0x0000,
            data4: [0xc0u8, 0x00u8, 0x00u8, 0x00u8, 0x00u8, 0x00u8, 0x00u8, 0x46u8],
        };
        let callback = Guid {
            data1: 0xb353_c442,
            data2: 0xc49d,
            data3: 0x4532,
            data4: [0x9eu8, 0x3au8, 0x1bu8, 0x20u8, 0xa1u8, 0x82u8, 0xfdu8, 0x00u8],
        };
        if iid.same(&unknown) || iid.same(&callback) {
            self.references.add_ref();
            S_OK
        } else {
            E_NOINTERFACE
        }
    }

    /// Counts one more reference and returns the new count. A call that
    /// shows another dispatch entry than the object's changes nothing and
    /// returns 1.
    pub fn add_ref(&mut self, dispatch: usize) -> (count: u32)
        requires
            old(self).wf(),
            dispatch == old(self).dispatch() ==> 0 < old(self).count() < u32::MAX,
        ensures
            final(self).wf(),
            final(self).dispatch() == old(self).dispatch(),
            dispatch == old(self).dispatch() ==> final(self).count() == count_after(
                old(self).count(),
                HandleOp::Clone,
            ) && count == final(self).count(),
            dispatch != old(self).dispatch() ==> final(self).count() == old(self).count() && count
                == 1,
    {
        if !recognized(dispatch, self.dispatch) {
            return UNRECOGNIZED_COUNT;
        }
        self.references.add_ref()
    }

    /// Counts one reference less and returns the new count. At zero the
    /// object finalizes itself: it drops its sender, once and for all. A
    /// call that shows another dispatch entry than the object's changes
    /// nothing and returns 1.
    pub fn release(&mut self, dispatch: usize) -> (count: u32)
        requires
            old(self).wf(),
            dispatch == old(self).dispatch() ==> old(self).count() > 0,
        ensures
            final(self).wf(),
            final(self).dispatch() == old(self).dispatch(),
            dispatch == old(self).dispatch() ==> final(self).count() == count_after(
                old(self).count(),
                HandleOp::Release,
            ) && count == final(self).count() && !final(self).holds_sender() == finalizes(
                old(self).count(),
                HandleOp::Release,
            ),
            dispatch != old(self).dispatch() ==> final(self).count() == old(self).count()
                && final(self).holds_sender() == old(self).holds_sender() && count == 1,
    {
        if !recognized(dispatch, self.dispatch) {
            return UNRECOGNIZED_COUNT;
        }
        let count = self.references.release();
        if count == 0 {
            self.sender = None;
        }
        count
    }

    /// The notification method: puts the event into the channel and
    /// answers with success if the channel took it and as aborted if not. Whether the channel takes the
    /// event is for its receiver to decide; an object that has dropped its
    /// sender, and a call that shows another dispatch entry than the
    /// object's, deliver nothing and answer as aborted.
    pub fn event_callback(&self, dispatch: usize, event_info: EventInfo) -> (status: i32)
        ensures
            status == S_OK || status == E_ABORT,
            (dispatch != self.dispatch() || !self.holds_sender()) ==> status == E_ABORT,
    {
        if !recognized(dispatch, self.dispatch) {
            return E_ABORT;
        }
        match &self.sender {
            Some(sender) => deliver(sender, event_info),
            None => E_ABORT,
        }
    }
}

} // verus!
