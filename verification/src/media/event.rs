//! Volume notifications of an endpoint.

use futures::channel::mpsc::{UnboundedReceiver, UnboundedSender};
use vstd::prelude::*;

use crate::com::event::{deliver, Subscription};
use crate::com::Guid;
use crate::hresult::{E_ABORT, S_OK};

verus! {

/// Describes a volume change event.
#[derive(Clone, Copy, Debug)]
pub struct VolumeNotification {
    /// The ID that was provided when changing the volume.
    pub event_context: Guid,
    /// Is the endpoint now muted?
    pub is_muted: bool,
    /// The new volume level of the endpoint, held as its IEEE-754 single
    /// precision bits.
    pub volume: u32,
}

/// The bridge between the volume control of an endpoint and the reader of
/// its notifications.
pub type VolumeEvents = Subscription<VolumeNotification>;

/// Makes the channel for the volume notifications of one registration.
pub fn volume_channel() -> (halves: (
    UnboundedSender<VolumeNotification>,
    UnboundedReceiver<VolumeNotification>,
)) {
    futures::channel::mpsc::unbounded::<VolumeNotification>()
}

/// The notification method of the volume callback: puts what the volume
/// control reported into the channel and answers with success if the
/// channel took it and as aborted if not. Whether the channel takes it is
/// for its receiver to decide.
pub fn on_notify(
    sender: &UnboundedSender<VolumeNotification>,
    event_context: Guid,
    is_muted: bool,
    volume: u32,
) -> (status: i32)
    ensures
        status == S_OK || status == E_ABORT,
{
    deliver(sender, VolumeNotification { event_context, is_muted, volume })
}

} // verus!
