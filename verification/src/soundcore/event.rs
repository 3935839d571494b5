//! Events of a device: from pushed notifications to a pulled sequence.
//!
//! The driver pushes notifications into a callback object from threads of
//! its own. The callback object puts them into a channel; the bridge reads
//! the channel on the thread that owns the apartment and classifies each
//! notification into an event, asking the driver again where the
//! notification holds identifiers only.

use futures::channel::mpsc::UnboundedReceiver;
use vstd::prelude::*;

use super::feature::{feature_of, SoundCoreFeature, SoundCoreFeatureView};
use super::parameter::{parameter_of, SoundCoreParameter, SoundCoreParameterView};
use crate::com::event::Subscription;
use crate::ctsndcr::{Callback, EventInfo, FeatureInfo, Param, ParamInfo, EVENT_PARAMETER_CHANGED};
use crate::hresult::Win32Error;
use crate::text::text_of;

verus! {

/// Describes an event produced through the SoundCore API.
#[derive(Debug)]
pub enum SoundCoreEvent {
    /// An event of a kind that this library does not describe further.
    ///
    /// The notification is included as it came.
    Unknown(EventInfo),
    /// A parameter value has changed
    ParamChange {
        /// The feature that changed
        feature: SoundCoreFeature,
        /// The parameter that changed
        parameter: SoundCoreParameter,
    },
}

/// An event as a mathematical value.
pub enum SoundCoreEventView {
    Unknown(EventInfo),
    ParamChange { feature: SoundCoreFeatureView, parameter: SoundCoreParameterView },
}

impl View for SoundCoreEvent {
    type V = SoundCoreEventView;

    open spec fn view(&self) -> SoundCoreEventView {
        match self {
            SoundCoreEvent::Unknown(info) => SoundCoreEventView::Unknown(*info),
            SoundCoreEvent::ParamChange { feature, parameter } => SoundCoreEventView::ParamChange {
                feature: feature@,
                parameter: parameter@,
            },
        }
    }
}

/// A question that the classification of a notification puts to the driver.
#[derive(Clone, Copy, Debug, PartialEq, Eq, Structural)]
pub enum Query {
    /// Describe this feature of this context.
    FeatureInfo { context: u32, feature: u32 },
    /// Describe this parameter.
    ParamInfo(Param),
}

/// The classification of one notification into an event, as far as it has
/// come.
#[derive(Debug)]
pub enum Classification {
    /// The classification is complete.
    Done(Result<SoundCoreEvent, Win32Error>),
    /// The driver is to describe the feature that the notification names.
    AwaitingFeature { event: EventInfo },
    /// The driver is to describe the parameter that the notification names.
    AwaitingParameter { event: EventInfo, feature: SoundCoreFeature },
}

/// A classification as a mathematical value.
pub enum ClassificationView {
    Done(Result<SoundCoreEventView, Win32Error>),
    AwaitingFeature { event: EventInfo },
    AwaitingParameter { event: EventInfo, feature: SoundCoreFeatureView },
}

impl View for Classification {
    type V = ClassificationView;

    open spec fn view(&self) -> ClassificationView {
        match self {
            Classification::Done(Ok(event)) => ClassificationView::Done(Ok(event@)),
            Classification::Done(Err(error)) => ClassificationView::Done(Err(*error)),
            Classification::AwaitingFeature { event } => ClassificationView::AwaitingFeature {
                event: *event,
            },
            Classification::AwaitingParameter { event, feature } => ClassificationView::AwaitingParameter {
                event: *event,
                feature: feature@,
            },
        }
    }
}

/// The parameter that a notification of a change names: in context 0, of
/// the feature and with the identifier that the notification carries.
pub open spec fn changed_parameter(event: EventInfo) -> Param {
    Param { param: event.param_id, feature: event.data_or_feature_id, context: 0 }
}

/// Where the classification of a notification starts. Only the notification
/// of a changed parameter needs the driver; any other is an event as it
/// stands.
pub open spec fn begun(event: EventInfo) -> ClassificationView {
    if event.event == EVENT_PARAMETER_CHANGED {
        ClassificationView::AwaitingFeature { event }
    } else {
        ClassificationView::Done(Ok(SoundCoreEventView::Unknown(event)))
    }
}

/// The question that a classification has for the driver, if any.
pub open spec fn question(classification: ClassificationView) -> Option<Query> {
    match classification {
        ClassificationView::Done(_) => None,
        ClassificationView::AwaitingFeature { event } => Some(
            Query::FeatureInfo { context: 0, feature: event.data_or_feature_id },
        ),
        ClassificationView::AwaitingParameter { event, .. } => Some(
            Query::ParamInfo(changed_parameter(event)),
        ),
    }
}

/// The classification after the driver has described the feature, or failed
/// to. A classification that did not ask for a feature stays as it is.
pub open spec fn after_feature_info(
    classification: ClassificationView,
    status: i32,
    info: FeatureInfo,
) -> ClassificationView {
    match classification {
        ClassificationView::AwaitingFeature { event } => {
            if status < 0 {
                ClassificationView::Done(Err(Win32Error { code: status }))
            } else {
                ClassificationView::AwaitingParameter { event, feature: feature_of(0, info) }
            }
        },
        _ => classification,
    }
}

/// The classification after the driver has described the parameter, or failed
/// to. A classification that did not ask for a parameter stays as it is.
pub open spec fn after_param_info(
    classification: ClassificationView,
    status: i32,
    info: ParamInfo,
) -> ClassificationView {
    match classification {
        ClassificationView::AwaitingParameter { event, feature } => {
            if status < 0 {
                ClassificationView::Done(Err(Win32Error { code: status }))
            } else {
                ClassificationView::Done(
                    Ok(
                        SoundCoreEventView::ParamChange {
                            feature,
                            parameter: parameter_of(feature.description, info),
                        },
                    ),
                )
            }
        },
        _ => classification,
    }
}

/// The event that a notification comes to, given what the driver answers
/// when it is asked for the feature and then for the parameter.
///
/// A notification of anything but a changed parameter is handed on as it
/// came. For a changed parameter the first failed answer is the result;
/// where both succeed the event holds the feature and the parameter as
/// the driver described them.
pub open spec fn classified(
    event: EventInfo,
    feature_status: i32,
    feature_info: FeatureInfo,
    param_status: i32,
    param_info: ParamInfo,
) -> Result<SoundCoreEventView, Win32Error> {
    if event.event != EVENT_PARAMETER_CHANGED {
        Ok(SoundCoreEventView::Unknown(event))
    } else if feature_status < 0 {
        Err(Win32Error { code: feature_status })
    } else if param_status < 0 {
        Err(Win32Error { code: param_status })
    } else {
        Ok(
            SoundCoreEventView::ParamChange {
                feature: feature_of(0, feature_info),
                parameter: parameter_of(text_of(feature_info.description@), param_info),
            },
        )
    }
}

/// A classification that is given the driver's answers in turn ends with the
/// event that [`classified`] describes, and asks the driver for the
/// parameter only after the feature was described.
pub proof fn lemma_classification_result(
    event: EventInfo,
    feature_status: i32,
    feature_info: FeatureInfo,
    param_status: i32,
    param_info: ParamInfo,
)
    ensures
        after_param_info(
            after_feature_info(begun(event), feature_status, feature_info),
            param_status,
            param_info,
        ) == ClassificationView::Done(
            classified(event, feature_status, feature_info, param_status, param_info),
        ),
        question(begun(event)) is Some <==> event.event == EVENT_PARAMETER_CHANGED,
        question(after_feature_info(begun(event), feature_status, feature_info)) is Some <==> (
        event.event == EVENT_PARAMETER_CHANGED && feature_status >= 0),
{
}

impl Classification {
    /// Starts the classification of a notification.
    pub fn begin(event: EventInfo) -> (classification: Classification)
        ensures
            classification@ == begun(event),
    {
        match event.event {
            2 => Classification::AwaitingFeature { event },
            _ => Classification::Done(Ok(SoundCoreEvent::Unknown(event))),
        }
    }

    /// The question to put to the driver next, or `None` when the
    /// classification is complete.
    pub fn query(&self) -> (query: Option<Query>)
        ensures
            query == question(self@),
    {
        match self {
            Classification::Done(_) => None,
            Classification::AwaitingFeature { event } => Some(
                Query::FeatureInfo { context: 0, feature: event.data_or_feature_id },
            ),
            Classification::AwaitingParameter { event, .. } => Some(
                Query::ParamInfo(
                    Param { param: event.param_id, feature: event.data_or_feature_id, context: 0 },
                ),
            ),
        }
    }

    /// Takes the driver's description of the feature: the status of the
    /// call and the record it wrote. A record that is used must be
    /// readable.
    pub fn feature_info(self, status: i32, info: &FeatureInfo) -> (classification: Classification)
        requires
            self is AwaitingFeature && status >= 0 ==> info.readable(),
        ensures
            classification@ == after_feature_info(self@, status, *info),
    {
        match self {
            Classification::AwaitingFeature { event } => {
                if status < 0 {
                    Classification::Done(Err(Win32Error::new(status)))
                } else {
                    Classification::AwaitingParameter { event, feature: SoundCoreFeature::new(0, info) }
                }
            },
            other => other,
        }
    }

    /// Takes the driver's description of the parameter: the status of the
    /// call and the record it wrote. A record that is used must be
    /// readable.
    pub fn param_info(self, status: i32, info: &ParamInfo) -> (classification: Classification)
        requires
            self is AwaitingParameter && status >= 0 ==> info.readable(),
        ensures
            classification@ == after_param_info(self@, status, *info),
    {
        match self {
            Classification::AwaitingParameter { event, feature } => {
                if status < 0 {
                    Classification::Done(Err(Win32Error::new(status)))
                } else {
                    let parameter = SoundCoreParameter::new(feature.description.clone(), info);
                    Classification::Done(Ok(SoundCoreEvent::ParamChange { feature, parameter }))
                }
            },
            other => other,
        }
    }

    /// The event, or the error, once the classification is complete.
    pub fn finish(self) -> (event: Option<Result<SoundCoreEvent, Win32Error>>)
        ensures
            match self@ {
                ClassificationView::Done(Ok(view)) => event matches Some(Ok(e)) && e@ == view,
                ClassificationView::Done(Err(error)) => event matches Some(Err(e)) && e == error,
                _ => event is None,
            },
    {
        match self {
            Classification::Done(result) => Some(result),
            _ => None,
        }
    }
}

/// The bridge between the notification source of a device and the reader
/// of its events.
pub type SoundCoreEvents = Subscription<EventInfo>;

/// Makes the channel for the notifications of one registration: the
/// callback object that holds its sending half, made with the given
/// dispatch entry and owned by the caller, and the receiving half, from
/// which the subscription is made once the callback is registered.
pub fn event_channel(dispatch: usize) -> (halves: (Callback, UnboundedReceiver<EventInfo>))
    ensures
        halves.0.wf(),
        halves.0.count() == 1,
        halves.0.dispatch() == dispatch,
{
    let (sender, receiver) = futures::channel::mpsc::unbounded::<EventInfo>();
    (Callback::new(sender, dispatch), receiver)
}

} // verus!
