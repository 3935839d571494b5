//! A value that is made when it is first asked for.

use vstd::prelude::*;

verus! {

/// A slot that is empty until its value is first asked for, and keeps the
/// value from then on.
pub struct Lazy<T> {
    inner: Option<T>,
}

impl<T> Lazy<T> {
    /// The value that the slot holds, if it has been made.
    pub closed spec fn value(&self) -> Option<T> {
        self.inner
    }

    /// An empty slot.
    pub fn new() -> (lazy: Lazy<T>)
        ensures
            lazy.value() is None,
    {
        Lazy { inner: None }
    }

    /// Whether the value has been made.
    pub fn is_created(&self) -> (created: bool)
        ensures
            created == self.value() is Some,
    {
        self.inner.is_some()
    }

    /// Gets the value, making it with `create` if the slot is empty. A
    /// value that is there is kept and `create` is not called.
    pub fn get_or_create<C: FnOnce() -> T>(&mut self, create: C) -> (value: &T)
        requires
            old(self).value() is None ==> create.requires(()),
        ensures
            final(self).value() == Some(*value),
            old(self).value() is Some ==> final(self).value() == old(self).value(),
            old(self).value() is None ==> create.ensures((), *value),
    {
        if self.inner.is_none() {
            self.inner = Some(create());
        }
        self.inner.as_ref().unwrap()
    }
}

} // verus!
