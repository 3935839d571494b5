//! Features of a device.

use vstd::prelude::*;

use super::parameter_iterator::SoundCoreParameterIterator;
use crate::ctsndcr::FeatureInfo;
use crate::soundcore::cursor::Cursor;
use crate::text::{field_text, text_of};

verus! {

/// Represents a feature of a device.
#[derive(Debug)]
pub struct SoundCoreFeature {
    /// The context in which the feature was enumerated
    pub context: u32,
    /// A numeric ID of the feature
    pub id: u32,
    /// A description of the feature
    pub description: String,
    /// A version number of the feature implementation
    pub version: String,
}

/// A feature as a mathematical value.
pub struct SoundCoreFeatureView {
    pub context: u32,
    pub id: u32,
    pub description: Seq<char>,
    pub version: Seq<char>,
}

impl View for SoundCoreFeature {
    type V = SoundCoreFeatureView;

    open spec fn view(&self) -> SoundCoreFeatureView {
        SoundCoreFeatureView {
            context: self.context,
            id: self.id,
            description: self.description@,
            version: self.version@,
        }
    }
}

/// The feature that a driver record describes, enumerated in `context`.
pub open spec fn feature_of(context: u32, info: FeatureInfo) -> SoundCoreFeatureView {
    SoundCoreFeatureView {
        context,
        id: info.feature_id,
        description: text_of(info.description@),
        version: text_of(info.version@),
    }
}

impl SoundCoreFeature {
    /// Reads a feature out of a driver record.
    ///
    /// The description and the version of the record must be readable text,
    /// which [`FeatureInfo::is_readable`] tests.
    pub fn new(context: u32, info: &FeatureInfo) -> (feature: SoundCoreFeature)
        requires
            info.readable(),
        ensures
            feature@ == feature_of(context, *info),
    {
        SoundCoreFeature {
            context,
            id: info.feature_id,
            description: field_text(info.description.as_slice()).unwrap(),
            version: field_text(info.version.as_slice()).unwrap(),
        }
    }

    /// Gets a cursor over the parameters of this feature, before its first
    /// probe.
    pub fn parameters(&self) -> (cursor: SoundCoreParameterIterator)
        ensures
            cursor.context() == self.context,
            cursor.feature_id() == self.id,
            cursor.feature_description() == self.description@,
            cursor.cursor() == Cursor::start(),
    {
        SoundCoreParameterIterator::new(self.context, self.id, self.description.clone())
    }
}

} // verus!
