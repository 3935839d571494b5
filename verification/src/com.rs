//! Lifetime of binary objects: apartment scopes and reference counts.
//!
//! A binary object lives as long as someone holds a reference to it. Each
//! holder announces itself with "add reference" and takes leave with
//! "release"; the object counts, and finalizes itself when the count comes
//! back to zero. Calls into such objects are bound to an apartment, which a
//! thread enters by initializing it and leaves by uninitializing it, once
//! for every successful initialization.

pub mod event;

use vstd::prelude::*;

use vstd::string::StringExecFns;

use crate::hresult::Win32Error;
use crate::text::{hex_fixed, push_hex_fixed};

verus! {

/// The right to use the apartment of the current thread.
///
/// A scope exists only where the initialization of the apartment succeeded;
/// whoever holds it owes the apartment one uninitialization.
#[derive(Debug)]
pub struct ComScope {}

impl ComScope {
    /// Opens a scope from the status that the initialization of the
    /// apartment returned.
    ///
    /// Initializing an apartment that is already initialized succeeds too,
    /// with a status of its own, and opens a further scope.
    pub fn new(status: i32) -> (scope: Result<ComScope, Win32Error>)
        ensures
            status >= 0 ==> scope is Ok,
            status < 0 ==> scope == Err::<ComScope, Win32Error>(Win32Error { code: status }),
    {
        if status >= 0 {
            Ok(ComScope {  })
        } else {
            Err(Win32Error::new(status))
        }
    }

    /// Opens a scope; the same as [`new`](Self::new).
    pub fn begin(status: i32) -> (scope: Result<ComScope, Win32Error>)
        ensures
            status >= 0 ==> scope is Ok,
            status < 0 ==> scope == Err::<ComScope, Win32Error>(Win32Error { code: status }),
    {
        ComScope::new(status)
    }
}

/// The identity of an interface or of a class of binary objects.
#[derive(Clone, Copy, Debug)]
pub struct Guid {
    pub data1: u32,
    pub data2: u16,
    pub data3: u16,
    pub data4: [u8; 8],
}

impl Guid {
    /// Whether two identities are the same, field by field.
    pub open spec fn equals(&self, other: Guid) -> bool {
        &&& self.data1 == other.data1
        &&& self.data2 == other.data2
        &&& self.data3 == other.data3
        &&& self.data4@ == other.data4@
    }

    /// The identity in its usual writing: in braces, the first three
    /// fields and the first two bytes of the last, then its other six
    /// bytes, in upper-case hexadecimal digits with hyphens between them.
    pub open spec fn text(&self) -> Seq<char> {
        "{"@ + hex_fixed(self.data1 as nat, 8) + "-"@ + hex_fixed(self.data2 as nat, 4) + "-"@
            + hex_fixed(self.data3 as nat, 4) + "-"@ + hex_fixed(self.data4@[0] as nat, 2)
            + hex_fixed(self.data4@[1] as nat, 2) + "-"@ + hex_fixed(self.data4@[2] as nat, 2)
            + hex_fixed(self.data4@[3] as nat, 2) + hex_fixed(self.data4@[4] as nat, 2)
            + hex_fixed(self.data4@[5] as nat, 2) + hex_fixed(self.data4@[6] as nat, 2)
            + hex_fixed(self.data4@[7] as nat, 2) + "}"@
    }

    /// Writes the identity out.
    pub fn to_text(&self) -> (text: String)
        ensures
            text@ == self.text(),
    {
        let mut text = String::from_str("{");
        push_hex_fixed(&mut text, self.data1, 8);
        text.append("-");
        push_hex_fixed(&mut text, self.data2 as u32, 4);
        text.append("-");
        push_hex_fixed(&mut text, self.data3 as u32, 4);
        text.append("-");
        push_hex_fixed(&mut text, self.data4[0] as u32, 2);
        push_hex_fixed(&mut text, self.data4[1] as u32, 2);
        text.append("-");
        push_hex_fixed(&mut text, self.data4[2] as u32, 2);
        push_hex_fixed(&mut text, self.data4[3] as u32, 2);
        push_hex_fixed(&mut text, self.data4[4] as u32, 2);
        push_hex_fixed(&mut text, self.data4[5] as u32, 2);
        push_hex_fixed(&mut text, self.data4[6] as u32, 2);
        push_hex_fixed(&mut text, self.data4[7] as u32, 2);
        text.append("}");
        text
    }

    /// Compares two identities.
    pub fn same(&self, other: &Guid) -> (same: bool)
        ensures
            same == self.equals(*other),
    {
        if self.data1 != other.data1 || self.data2 != other.data2 || self.data3 != other.data3 {
            return false;
        }
        let mut i: usize = 0;
        while i < 8
            invariant
                i <= 8,
                forall|j: int| 0 <= j < i ==> self.data4@[j] == other.data4@[j],
            decreases 8 - i,
        {
            if self.data4[i] != other.data4[i] {
                return false;
            }
            i += 1;
        }
        assert(self.data4@ =~= other.data4@);
        true
    }
}

/// One thing that the holder of a handle does to the object behind it.
pub enum HandleOp {
    /// The handle is duplicated: the object gains a reference.
    Clone,
    /// A handle is dropped: the object loses a reference.
    Release,
}

/// The count of an object after one operation of a handle.
///
/// A count of zero stays zero: the object is gone and so is every handle
/// through which it could be reached.
pub open spec fn count_after(count: nat, op: HandleOp) -> nat {
    if count == 0 {
        0
    } else {
        match op {
            HandleOp::Clone => count + 1,
            HandleOp::Release => (count - 1) as nat,
        }
    }
}

/// Whether an operation makes the object finalize itself: it is the release
/// of the last reference.
pub open spec fn finalizes(count: nat, op: HandleOp) -> bool {
    count == 1 && op is Release
}

/// The count of an object after a sequence of operations.
pub open spec fn count_after_all(count: nat, ops: Seq<HandleOp>) -> nat
    decreases ops.len(),
{
    if ops.len() == 0 {
        count
    } else {
        count_after_all(count_after(count, ops[0]), ops.drop_first())
    }
}

/// How often an object finalizes itself over a sequence of operations.
pub open spec fn finalizations(count: nat, ops: Seq<HandleOp>) -> nat
    decreases ops.len(),
{
    if ops.len() == 0 {
        0
    } else {
        let rest = finalizations(count_after(count, ops[0]), ops.drop_first());
        if finalizes(count, ops[0]) {
            1 + rest
        } else {
            rest
        }
    }
}

/// Whether every operation of a sequence finds the object alive, as it must
/// since each is made through a handle that holds a reference.
pub open spec fn all_on_live_object(count: nat, ops: Seq<HandleOp>) -> bool
    decreases ops.len(),
{
    ops.len() == 0 || (count > 0 && all_on_live_object(
        count_after(count, ops[0]),
        ops.drop_first(),
    ))
}

/// The number of duplications in a sequence of operations.
pub open spec fn clones(ops: Seq<HandleOp>) -> nat
    decreases ops.len(),
{
    if ops.len() == 0 {
        0
    } else if ops[0] is Clone {
        1 + clones(ops.drop_first())
    } else {
        clones(ops.drop_first())
    }
}

/// The number of releases in a sequence of operations.
pub open spec fn releases(ops: Seq<HandleOp>) -> nat
    decreases ops.len(),
{
    if ops.len() == 0 {
        0
    } else if ops[0] is Release {
        1 + releases(ops.drop_first())
    } else {
        releases(ops.drop_first())
    }
}

/// Over any sequence of duplications and releases made through live
/// handles, the count of the object changes by the number of duplications
/// less the number of releases, and the object finalizes itself exactly
/// once if the count has come to zero and not at all if it has not.
pub proof fn lemma_net_effect(count: nat, ops: Seq<HandleOp>)
    requires
        count > 0,
        all_on_live_object(count, ops),
    ensures
        count_after_all(count, ops) == count + clones(ops) - releases(ops),
        finalizations(count, ops) == if count_after_all(count, ops) == 0 {
            1nat
        } else {
            0nat
        },
    decreases ops.len(),
{
    if ops.len() != 0 {
        let next = count_after(count, ops[0]);
        let rest = ops.drop_first();
        if next > 0 {
            lemma_net_effect(next, rest);
        } else {
            assert(all_on_live_object(next, rest));
            assert(rest.len() == 0);
            assert(clones(rest) == 0 && releases(rest) == 0);
            assert(count_after_all(next, rest) == next);
            assert(finalizations(next, rest) == 0);
        }
    }
}

/// An object that is gone stays gone.
pub proof fn lemma_gone_stays_gone(ops: Seq<HandleOp>)
    ensures
        count_after_all(0, ops) == 0,
        finalizations(0, ops) == 0,
    decreases ops.len(),
{
    if ops.len() != 0 {
        lemma_gone_stays_gone(ops.drop_first());
    }
}

/// An object never finalizes itself twice, whatever is done to it.
pub proof fn lemma_finalized_at_most_once(count: nat, ops: Seq<HandleOp>)
    ensures
        finalizations(count, ops) <= 1,
        count == 0 ==> finalizations(count, ops) == 0,
        finalizations(count, ops) == 1 ==> count_after_all(count, ops) == 0,
    decreases ops.len(),
{
    if ops.len() != 0 {
        lemma_finalized_at_most_once(count_after(count, ops[0]), ops.drop_first());
        lemma_gone_stays_gone(ops.drop_first());
    }
}

/// A duplication followed by a release leaves the count of a live object
/// where it was, and finalizes nothing.
pub proof fn lemma_clone_then_release(count: nat)
    requires
        count > 0,
    ensures
        count_after(count_after(count, HandleOp::Clone), HandleOp::Release) == count,
        !finalizes(count, HandleOp::Clone),
        !finalizes(count_after(count, HandleOp::Clone), HandleOp::Release),
{
}

/// The number of apartment scopes that the handles to an object hold after
/// one operation: a duplicate opens a scope of its own, a dropped handle
/// closes its scope. Nothing is done through the handles of an object that
/// is gone.
pub open spec fn scopes_after(scopes: nat, count: nat, op: HandleOp) -> nat {
    if count == 0 {
        scopes
    } else {
        match op {
            HandleOp::Clone => scopes + 1,
            HandleOp::Release => (scopes - 1) as nat,
        }
    }
}

/// The number of apartment scopes that the handles to an object hold after
/// a sequence of operations.
pub open spec fn scopes_after_all(scopes: nat, count: nat, ops: Seq<HandleOp>) -> nat
    decreases ops.len(),
{
    if ops.len() == 0 {
        scopes
    } else {
        scopes_after_all(
            scopes_after(scopes, count, ops[0]),
            count_after(count, ops[0]),
            ops.drop_first(),
        )
    }
}

/// Where every reference to an object belongs to a handle, there are as
/// many open scopes as references, whatever the handles do: the apartment
/// stays initialized for as long as a handle lives, and the release of the
/// last handle closes the last of their scopes.
pub proof fn lemma_scopes_follow_handles(count: nat, ops: Seq<HandleOp>)
    ensures
        scopes_after_all(count, count, ops) == count_after_all(count, ops),
    decreases ops.len(),
{
    if ops.len() != 0 {
        lemma_scopes_follow_handles(count_after(count, ops[0]), ops.drop_first());
    }
}

/// The count that a binary object keeps of the references to it.
#[derive(Debug)]
pub struct ReferenceCount {
    count: u32,
}

impl ReferenceCount {
    /// The number of references held.
    pub closed spec fn count(&self) -> nat {
        self.count as nat
    }

    /// The count of a new object: its creator holds the one reference.
    pub fn new() -> (references: ReferenceCount)
        ensures
            references.count() == 1,
    {
        ReferenceCount { count: 1 }
    }

    /// Reads the count.
    pub fn get(&self) -> (count: u32)
        ensures
            count == self.count(),
    {
        self.count
    }

    /// Whether the last reference has been released.
    pub fn is_finalized(&self) -> (finalized: bool)
        ensures
            finalized == (self.count() == 0),
    {
        self.count == 0
    }

    /// Counts one more reference to a live object and returns the new count.
    pub fn add_ref(&mut self) -> (count: u32)
        requires
            0 < old(self).count() < u32::MAX,
        ensures
            final(self).count() == count_after(old(self).count(), HandleOp::Clone),
            count == final(self).count(),
    {
        self.count += 1;
        self.count
    }

    /// Counts one reference less and returns the new count. At zero the
    /// object is to finalize itself.
    pub fn release(&mut self) -> (count: u32)
        requires
            old(self).count() > 0,
        ensures
            final(self).count() == count_after(old(self).count(), HandleOp::Release),
            count == final(self).count(),
            (count == 0) == finalizes(old(self).count(), HandleOp::Release),
    {
        self.count -= 1;
        self.count
    }
}

} // verus!
