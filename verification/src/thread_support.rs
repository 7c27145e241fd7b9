//! Small building blocks for cooperative suspension.

use vstd::prelude::*;

verus! {

/// A two-state suspension point: the first poll reports "pending", every
/// later poll reports "ready".
pub struct YieldFuture {
    been_exec: bool,
}

impl YieldFuture {
    /// Whether the suspension point has already been polled once.
    pub closed spec fn polled(&self) -> bool {
        self.been_exec
    }

    /// A fresh suspension point that has not been polled yet.
    pub fn new() -> (fut: Self)
        ensures
            !fut.polled(),
    {
        Self { been_exec: false }
    }

    /// Polls the suspension point. Returns `true` when it is ready, which is
    /// the case exactly when it had been polled before.
    pub fn poll(&mut self) -> (ready: bool)
        ensures
            ready == old(self).polled(),
            final(self).polled(),
    {
        if !self.been_exec {
            self.been_exec = true;
            false
        } else {
            true
        }
    }
}

/// An owned heap slot that may be empty.
pub struct NullableBox<T> {
    inner: Option<Box<T>>,
}

impl<T> View for NullableBox<T> {
    type V = Option<T>;

    closed spec fn view(&self) -> Option<T> {
        match self.inner {
            Some(b) => Some(*b),
            None => None,
        }
    }
}

impl<T> NullableBox<T> {
    /// A slot holding `obj`.
    pub fn new(obj: T) -> (b: NullableBox<T>)
        ensures
            b@ == Some(obj),
    {
        NullableBox { inner: Some(Box::new(obj)) }
    }

    /// The empty slot.
    pub fn null() -> (b: NullableBox<T>)
        ensures
            b@ is None,
    {
        NullableBox { inner: None }
    }

    /// Whether the slot is empty.
    pub fn is_null(&self) -> (r: bool)
        ensures
            r == (self@ is None),
    {
        self.inner.is_none()
    }

    /// Shared access to the held object.
    pub fn as_ref(&self) -> (r: &T)
        requires
            self@ is Some,
        ensures
            *r == self@->0,
    {
        match &self.inner {
            Some(b) => &**b,
            None => vstd::pervasive::unreached(),
        }
    }

    /// Exclusive access to the held object; whatever is written through the
    /// returned reference is what the slot holds afterwards.
    pub fn as_mut(&mut self) -> (r: &mut T)
        requires
            old(self)@ is Some,
        ensures
            *r == old(self)@->0,
            final(self)@ == Some(*final(r)),
    {
        match &mut self.inner {
            Some(b) => &mut **b,
            None => vstd::pervasive::unreached(),
        }
    }
}

} // verus!
