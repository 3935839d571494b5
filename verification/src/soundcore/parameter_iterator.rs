//! The cursor over the parameters of a feature.

use vstd::prelude::*;

use super::cursor::{answer_of, Answer, Cursor};
use super::parameter::{parameter_of, SoundCoreParameter};
use crate::ctsndcr::ParamInfo;
use crate::hresult::{Win32Error, E_FAIL};

verus! {

/// Iterates over the parameters of a feature.
///
/// The cursor does not call the driver. [`probe`](Self::probe) says what to
/// ask it, and [`next`](Self::next) takes what it answered.
#[derive(Debug)]
pub struct SoundCoreParameterIterator {
    context: u32,
    feature_id: u32,
    feature_description: String,
    index: u32,
    finished: bool,
}

/// The driver's answer to a probe for a parameter. The identifier that
/// tells an item from the end is that of the owning feature.
pub open spec fn parameter_answer(status: i32, info: ParamInfo) -> Answer<ParamInfo> {
    answer_of(status, info.param.feature, info)
}

impl SoundCoreParameterIterator {
    /// The context in which the parameters are enumerated.
    pub closed spec fn context(&self) -> u32 {
        self.context
    }

    /// The feature whose parameters are enumerated.
    pub closed spec fn feature_id(&self) -> u32 {
        self.feature_id
    }

    /// The description of that feature.
    pub closed spec fn feature_description(&self) -> Seq<char> {
        self.feature_description@
    }

    /// Where the enumeration stands.
    pub closed spec fn cursor(&self) -> Cursor {
        Cursor { index: self.index as nat, finished: self.finished }
    }

    /// A cursor over the parameters of a feature, before its first probe.
    pub fn new(context: u32, feature_id: u32, feature_description: String) -> (cursor:
        SoundCoreParameterIterator)
        ensures
            cursor.context() == context,
            cursor.feature_id() == feature_id,
            cursor.feature_description() == feature_description@,
            cursor.cursor() == Cursor::start(),
    {
        SoundCoreParameterIterator {
            context,
            feature_id,
            feature_description,
            index: 0,
            finished: false,
        }
    }

    /// Whether the enumeration is over.
    pub fn is_finished(&self) -> (finished: bool)
        ensures
            finished == self.cursor().finished,
    {
        self.finished
    }

    /// The next question for the driver, as context, index and feature, or
    /// `None` once the enumeration is over: the driver is then not asked
    /// again.
    pub fn probe(&self) -> (question: Option<(u32, u32, u32)>)
        ensures
            self.cursor().finished ==> question is None,
            !self.cursor().finished ==> question == Some(
                (self.context(), self.cursor().index as u32, self.feature_id()),
            ),
    {
        if self.finished {
            None
        } else {
            Some((self.context, self.index, self.feature_id))
        }
    }

    /// Tests whether the driver's answer to the last
    /// [`probe`](Self::probe) yields a parameter: whether [`next`](Self::next)
    /// reads the record.
    pub fn yields(&self, status: i32, info: &ParamInfo) -> (yields: bool)
        ensures
            yields == (self.cursor().output(parameter_answer(status, *info)) matches Some(Ok(_))),
    {
        !self.finished && status >= 0 && info.param.feature != 0
    }

    /// Takes the driver's answer to the last [`probe`](Self::probe): the
    /// status of the call and the record it wrote.
    ///
    /// Returns the parameter, the error, or `None` at the end of the
    /// enumeration and ever after. A record that yields a parameter must be
    /// readable, and the index must have room to move past it.
    pub fn next(&mut self, status: i32, info: &ParamInfo) -> (item: Option<
        Result<SoundCoreParameter, Win32Error>,
    >)
        requires
            old(self).cursor().output(parameter_answer(status, *info)) matches Some(Ok(_))
                ==> info.readable() && old(self).cursor().index < u32::MAX,
        ensures
            final(self).context() == old(self).context(),
            final(self).feature_id() == old(self).feature_id(),
            final(self).feature_description() == old(self).feature_description(),
            final(self).cursor() == old(self).cursor().step(parameter_answer(status, *info)),
            match old(self).cursor().output(parameter_answer(status, *info)) {
                Some(Ok(record)) => item matches Some(Ok(parameter)) && parameter@
                    == parameter_of(old(self).feature_description(), record),
                Some(Err(error)) => item == Some(
                    Err::<SoundCoreParameter, Win32Error>(error),
                ),
                None => item is None,
            },
    {
        if self.finished {
            return None;
        }
        // FAIL used to mark end of collection
        if status == E_FAIL {
            self.finished = true;
            return None;
        }
        if status < 0 {
            self.finished = true;
            return Some(Err(Win32Error::new(status)));
        }
        match info.param.feature {
            0 => {
                self.finished = true;
                None
            },
            _ => {
                self.index += 1;
                Some(Ok(SoundCoreParameter::new(self.feature_description.clone(), info)))
            },
        }
    }
}

} // verus!
