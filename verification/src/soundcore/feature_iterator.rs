//! The cursor over the features of a device.

use vstd::prelude::*;

use super::cursor::{answer_of, Answer, Cursor};
use super::feature::{feature_of, SoundCoreFeature};
use crate::ctsndcr::FeatureInfo;
use crate::hresult::{Win32Error, E_FAIL};

verus! {

/// Iterates over features of a device.
///
/// The cursor does not call the driver. [`probe`](Self::probe) says what to
/// ask it, and [`next`](Self::next) takes what it answered.
#[derive(Debug)]
pub struct SoundCoreFeatureIterator {
    context: u32,
    index: u32,
    finished: bool,
}

/// The driver's answer to a probe for a feature.
pub open spec fn feature_answer(status: i32, info: FeatureInfo) -> Answer<FeatureInfo> {
    answer_of(status, info.feature_id, info)
}

impl SoundCoreFeatureIterator {
    /// The context whose features are enumerated.
    pub closed spec fn context(&self) -> u32 {
        self.context
    }

    /// Where the enumeration stands.
    pub closed spec fn cursor(&self) -> Cursor {
        Cursor { index: self.index as nat, finished: self.finished }
    }

    /// A cursor over the features of `context`, before its first probe.
    pub fn new(context: u32) -> (cursor: SoundCoreFeatureIterator)
        ensures
            cursor.context() == context,
            cursor.cursor() == Cursor::start(),
    {
        SoundCoreFeatureIterator { context, index: 0, finished: false }
    }

    /// Whether the enumeration is over.
    pub fn is_finished(&self) -> (finished: bool)
        ensures
            finished == self.cursor().finished,
    {
        self.finished
    }

    /// The next question for the driver, as context and index, or `None`
    /// once the enumeration is over: the driver is then not asked again.
    pub fn probe(&self) -> (question: Option<(u32, u32)>)
        ensures
            self.cursor().finished ==> question is None,
            !self.cursor().finished ==> question == Some(
                (self.context(), self.cursor().index as u32),
            ),
    {
        if self.finished {
            None
        } else {
            Some((self.context, self.index))
        }
    }

    /// Tests whether the driver's answer to the last
    /// [`probe`](Self::probe) yields a feature: whether [`next`](Self::next)
    /// reads the record.
    pub fn yields(&self, status: i32, info: &FeatureInfo) -> (yields: bool)
        ensures
            yields == (self.cursor().output(feature_answer(status, *info)) matches Some(Ok(_))),
    {
        !self.finished && status >= 0 && info.feature_id != 0
    }

    /// Takes the driver's answer to the last [`probe`](Self::probe): the
    /// status of the call and the record it wrote.
    ///
    /// Returns the feature, the error, or `None` at the end of the
    /// enumeration and ever after. A record that yields a feature must be
    /// readable, and the index must have room to move past it.
    pub fn next(&mut self, status: i32, info: &FeatureInfo) -> (item: Option<
        Result<SoundCoreFeature, Win32Error>,
    >)
        requires
            old(self).cursor().output(feature_answer(status, *info)) matches Some(Ok(_))
                ==> info.readable() && old(self).cursor().index < u32::MAX,
        ensures
            final(self).context() == old(self).context(),
            final(self).cursor() == old(self).cursor().step(feature_answer(status, *info)),
            match old(self).cursor().output(feature_answer(status, *info)) {
                Some(Ok(record)) => item matches Some(Ok(feature)) && feature@ == feature_of(
                    old(self).context(),
                    record,
                ),
                Some(Err(error)) => item == Some(
                    Err::<SoundCoreFeature, Win32Error>(error),
                ),
                None => item is None,
            },
    {
        if self.finished {
            return None;
        }
        // FAIL used to mark end of collection
        if status == E_FAIL {
            self.finished = true;
            return None;
        }
        if status < 0 {
            self.finished = true;
            return Some(Err(Win32Error::new(status)));
        }
        match info.feature_id {
            0 => {
                self.finished = true;
                None
            },
            _ => {
                self.index += 1;
                Some(Ok(SoundCoreFeature::new(self.context, info)))
            },
        }
    }
}

} // verus!
