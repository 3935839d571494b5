//! The single-pass cursor that underlies both enumerations.
//!
//! The driver lists its features, and the parameters of a feature, by index:
//! a caller asks for the item at 0, 1, 2, ... until the driver says that
//! there is no such item. A cursor remembers the next index to ask for and
//! whether the enumeration is over. It never goes back.

use vstd::prelude::*;

use crate::hresult::{Win32Error, E_FAIL};

verus! {

/// What the driver answered to one probe.
pub enum Answer<T> {
    /// The item at the index that was asked for.
    Item(T),
    /// There is no item at that index: the enumeration is over.
    End,
    /// The probe failed.
    Failure(Win32Error),
}

/// Reads the answer to a probe: `status` is the status of the call, `id` the
/// identifier in the record that the driver wrote, `record` that record.
///
/// The driver ends an enumeration with the unspecified failure, or with a
/// record whose identifier is zero. Any other failure is an error.
pub open spec fn answer_of<T>(status: i32, id: u32, record: T) -> Answer<T> {
    if status == E_FAIL {
        Answer::End
    } else if status < 0 {
        Answer::Failure(Win32Error { code: status })
    } else if id == 0 {
        Answer::End
    } else {
        Answer::Item(record)
    }
}

/// The state of an enumeration.
pub struct Cursor {
    /// The index of the next probe, which is the number of items produced.
    pub index: nat,
    /// Whether the enumeration is over.
    pub finished: bool,
}

impl Cursor {
    /// A cursor before its first probe.
    pub open spec fn start() -> Cursor {
        Cursor { index: 0, finished: false }
    }

    /// The cursor after an answer. Once over, an enumeration stays over and
    /// the index moves only past an item.
    pub open spec fn step<T>(self, answer: Answer<T>) -> Cursor {
        if self.finished {
            self
        } else {
            match answer {
                Answer::Item(_) => Cursor { index: self.index + 1, finished: false },
                _ => Cursor { index: self.index, finished: true },
            }
        }
    }

    /// What the cursor hands to its reader for an answer: the item, the
    /// error, or nothing at the end and ever after.
    pub open spec fn output<T>(self, answer: Answer<T>) -> Option<Result<T, Win32Error>> {
        if self.finished {
            None
        } else {
            match answer {
                Answer::Item(record) => Some(Ok(record)),
                Answer::End => None,
                Answer::Failure(error) => Some(Err(error)),
            }
        }
    }

    /// The cursor after a script of answers, of which it takes only those
    /// that come before the enumeration is over.
    pub open spec fn run<T>(self, answers: Seq<Answer<T>>) -> Cursor
        decreases answers.len(),
    {
        if answers.len() == 0 {
            self
        } else {
            self.step(answers[0]).run(answers.drop_first())
        }
    }

    /// Everything the cursor hands to its reader over a script of answers.
    pub open spec fn outputs<T>(self, answers: Seq<Answer<T>>) -> Seq<Result<T, Win32Error>>
        decreases answers.len(),
    {
        if answers.len() == 0 {
            seq![]
        } else {
            let rest = self.step(answers[0]).outputs(answers.drop_first());
            match self.output(answers[0]) {
                Some(output) => seq![output] + rest,
                None => rest,
            }
        }
    }

    /// The number of probes that the cursor makes when the driver answers
    /// by the script: a cursor that is over makes none.
    pub open spec fn probes<T>(self, answers: Seq<Answer<T>>) -> nat
        decreases answers.len(),
    {
        if answers.len() == 0 || self.finished {
            0
        } else {
            1 + self.step(answers[0]).probes(answers.drop_first())
        }
    }
}

/// The answers that carry the given items, in order.
pub open spec fn items<T>(records: Seq<T>) -> Seq<Answer<T>> {
    Seq::new(records.len(), |i: int| Answer::Item(records[i]))
}

/// The given items as successful outputs, in order.
pub open spec fn successes<T>(records: Seq<T>) -> Seq<Result<T, Win32Error>> {
    Seq::new(records.len(), |i: int| Ok::<T, Win32Error>(records[i]))
}

/// A cursor that is over takes nothing from the driver and hands out
/// nothing, whatever the script.
pub proof fn lemma_finished_is_silent<T>(cursor: Cursor, answers: Seq<Answer<T>>)
    requires
        cursor.finished,
    ensures
        cursor.run(answers) == cursor,
        cursor.outputs(answers) == Seq::<Result<T, Win32Error>>::empty(),
        cursor.probes(answers) == 0,
    decreases answers.len(),
{
    if answers.len() != 0 {
        lemma_finished_is_silent(cursor, answers.drop_first());
    }
}

/// A cursor never goes back: over any script its index only grows, by one
/// for each item that it hands out, and once it is over it stays over.
pub proof fn lemma_never_goes_back<T>(cursor: Cursor, answers: Seq<Answer<T>>)
    ensures
        cursor.run(answers).index >= cursor.index,
        cursor.run(answers).index - cursor.index <= cursor.outputs(answers).len(),
        cursor.outputs(answers).len() <= cursor.run(answers).index - cursor.index + 1,
        cursor.finished ==> cursor.run(answers).finished,
    decreases answers.len(),
{
    if answers.len() != 0 {
        let next = cursor.step(answers[0]);
        lemma_never_goes_back(next, answers.drop_first());
        if next.finished {
            lemma_finished_is_silent(next, answers.drop_first());
        }
    }
}

/// Over items alone a cursor hands out each of them, in order, probes once
/// for each and moves its index past them.
pub proof fn lemma_items_are_produced<T>(cursor: Cursor, records: Seq<T>)
    requires
        !cursor.finished,
    ensures
        cursor.run(items(records)) == (Cursor {
            index: cursor.index + records.len(),
            finished: false,
        }),
        cursor.outputs(items(records)) == successes(records),
        cursor.probes(items(records)) == records.len(),
    decreases records.len(),
{
    if records.len() != 0 {
        let next = cursor.step(items(records)[0]);
        assert(items(records).drop_first() =~= items(records.drop_first()));
        lemma_items_are_produced(next, records.drop_first());
        assert(seq![Ok::<T, Win32Error>(records[0])] + successes(records.drop_first())
            =~= successes(records));
    } else {
        assert(cursor.outputs(items(records)) =~= successes(records));
    }
}

/// Running a script in two parts is running the whole.
pub proof fn lemma_run_in_parts<T>(cursor: Cursor, first: Seq<Answer<T>>, second: Seq<Answer<T>>)
    ensures
        cursor.run(first + second) == cursor.run(first).run(second),
        cursor.outputs(first + second) == cursor.outputs(first) + cursor.run(first).outputs(
            second,
        ),
        !cursor.run(first).finished ==> cursor.probes(first + second) == cursor.probes(first)
            + cursor.run(first).probes(second),
        cursor.run(first).finished ==> cursor.probes(first + second) == cursor.probes(first),
    decreases first.len(),
{
    if first.len() == 0 {
        assert(first + second =~= second);
        assert(cursor.outputs(first) + cursor.run(first).outputs(second) =~= cursor.outputs(
            second,
        ));
        if cursor.finished {
            lemma_finished_is_silent(cursor, second);
        }
    } else {
        let whole = first + second;
        assert(whole[0] == first[0]);
        assert(whole.drop_first() =~= first.drop_first() + second);
        let next = cursor.step(first[0]);
        lemma_run_in_parts(next, first.drop_first(), second);
        let rest = next.outputs(first.drop_first());
        let tail = cursor.run(first).outputs(second);
        match cursor.output(first[0]) {
            Some(output) => {
                assert(seq![output] + (rest + tail) =~= (seq![output] + rest) + tail);
            },
            None => {},
        }
        if cursor.finished {
            lemma_finished_is_silent(cursor, first);
            lemma_finished_is_silent(cursor, first.drop_first());
            lemma_finished_is_silent(cursor, second);
            lemma_finished_is_silent(cursor, whole.drop_first());
        } else if next.finished {
            lemma_finished_is_silent(next, first.drop_first());
            lemma_finished_is_silent(next, whole.drop_first());
        }
    }
}

/// Over a script of one answer a cursor takes one step.
proof fn lemma_single_answer<T>(cursor: Cursor, answer: Answer<T>)
    ensures
        cursor.run(seq![answer]) == cursor.step(answer),
        cursor.outputs(seq![answer]) == match cursor.output(answer) {
            Some(output) => seq![output],
            None => Seq::<Result<T, Win32Error>>::empty(),
        },
        cursor.probes(seq![answer]) == if cursor.finished {
            0nat
        } else {
            1nat
        },
{
    let script = seq![answer];
    let next = cursor.step(answer);
    assert(script[0] == answer);
    assert(script.drop_first() =~= Seq::<Answer<T>>::empty());
    assert(next.run(script.drop_first()) == next);
    assert(next.outputs(script.drop_first()) =~= Seq::<Result<T, Win32Error>>::empty());
    assert(next.probes(script.drop_first()) == 0);
    match cursor.output(answer) {
        Some(output) => {
            assert(seq![output] + Seq::<Result<T, Win32Error>>::empty() =~= seq![output]);
        },
        None => {},
    }
}

/// A cursor over a driver that gives N items and then the end hands out
/// exactly those N items, in order, makes N + 1 probes and is then over:
/// it makes no further probe, whatever the driver would answer.
pub proof fn lemma_items_then_end<T>(records: Seq<T>, rest: Seq<Answer<T>>)
    ensures
        ({
            let script = items(records) + seq![Answer::<T>::End] + rest;
            &&& Cursor::start().outputs(script) == successes(records)
            &&& Cursor::start().probes(script) == records.len() + 1
            &&& Cursor::start().run(script).finished
            &&& Cursor::start().run(script).index == records.len()
        }),
{
    let start = Cursor::start();
    let end = seq![Answer::<T>::End];
    let reached = Cursor { index: records.len(), finished: false };
    let over = Cursor { index: records.len(), finished: true };
    lemma_items_are_produced(start, records);
    lemma_single_answer(reached, Answer::<T>::End);
    lemma_run_in_parts(start, items(records), end);
    lemma_run_in_parts(start, items(records) + end, rest);
    lemma_finished_is_silent(over, rest);
    assert(successes(records) + Seq::<Result<T, Win32Error>>::empty() + Seq::<
        Result<T, Win32Error>,
    >::empty() =~= successes(records));
}

/// A cursor over a driver that gives K - 1 items and then fails hands out
/// those K - 1 items, in order, then the one error, makes K probes and is
/// then over.
pub proof fn lemma_items_then_failure<T>(records: Seq<T>, error: Win32Error, rest: Seq<Answer<T>>)
    ensures
        ({
            let script = items(records) + seq![Answer::<T>::Failure(error)] + rest;
            &&& Cursor::start().outputs(script) == successes(records).push(Err(error))
            &&& Cursor::start().probes(script) == records.len() + 1
            &&& Cursor::start().run(script).finished
            &&& Cursor::start().run(script).index == records.len()
        }),
{
    let start = Cursor::start();
    let failure = seq![Answer::<T>::Failure(error)];
    let reached = Cursor { index: records.len(), finished: false };
    let over = Cursor { index: records.len(), finished: true };
    lemma_items_are_produced(start, records);
    lemma_single_answer(reached, Answer::<T>::Failure(error));
    lemma_run_in_parts(start, items(records), failure);
    lemma_run_in_parts(start, items(records) + failure, rest);
    lemma_finished_is_silent(over, rest);
    assert(successes(records) + seq![Err::<T, Win32Error>(error)] + Seq::<
        Result<T, Win32Error>,
    >::empty() =~= successes(records).push(Err(error)));
}

} // verus!
