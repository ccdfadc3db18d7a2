//! A value that is set once, after its container was created.
use core::marker::PhantomData;
use vstd::prelude::*;

verus! {

/// Default access token of a [`ToInit`]: nobody outside this module can make one.
pub struct NoToken(());

/// A slot that starts empty and is filled later by [`ToInit::init`].
///
/// Reading an empty slot is a bug of the caller: the readers require the
/// slot to be filled.
pub struct ToInit<T, A = NoToken> {
    inner: Option<T>,
    _token: PhantomData<A>,
}

impl<T, A> View for ToInit<T, A> {
    type V = Option<T>;

    /// The slot's content: `None` before the first `init`.
    closed spec fn view(&self) -> Option<T> {
        self.inner
    }
}

impl<T, A> ToInit<T, A> {
    /// Whether the slot has been filled.
    pub open spec fn is_init(&self) -> bool {
        self@ is Some
    }

    /// The value in a filled slot.
    pub open spec fn value(&self) -> T
        recommends
            self.is_init(),
    {
        self@->Some_0
    }

    /// An empty slot.
    pub fn uninit() -> (r: Self)
        ensures
            r@ == None::<T>,
    {
        Self { inner: None, _token: PhantomData }
    }

    /// Whether the slot has been filled.
    pub fn is_set(&self) -> (r: bool)
        ensures
            r == self.is_init(),
    {
        self.inner.is_some()
    }

    /// Fills the slot with `val`, dropping any value it held before.
    pub fn init(&mut self, val: T)
        ensures
            final(self)@ == Some(val),
    {
        self.inner = Some(val);
    }

    /// The value, for a holder of the access token.
    pub fn access(&self, _token: &A) -> (r: &T)
        requires
            self.is_init(),
        ensures
            *r == self.value(),
    {
        self.inner.as_ref().unwrap()
    }

    /// Mutable access to the value, for a holder of the access token.
    pub fn access_mut(&mut self, _token: &A) -> (r: &mut T)
        requires
            old(self).is_init(),
        ensures
            *r == old(self).value(),
            final(self)@ == Some(*final(r)),
    {
        self.inner.as_mut().unwrap()
    }

    /// The value.
    pub fn unwrap(&self) -> (r: &T)
        requires
            self.is_init(),
        ensures
            *r == self.value(),
    {
        self.inner.as_ref().unwrap()
    }

    /// Mutable access to the value.
    pub fn unwrap_mut(&mut self) -> (r: &mut T)
        requires
            old(self).is_init(),
        ensures
            *r == old(self).value(),
            final(self)@ == Some(*final(r)),
    {
        self.inner.as_mut().unwrap()
    }

    /// The value; `message` says what went wrong if the slot were empty.
    pub fn expect(&self, message: &str) -> (r: &T)
        requires
            self.is_init(),
        ensures
            *r == self.value(),
    {
        self.inner.as_ref().expect(message)
    }

    /// Mutable access to the value; `message` says what went wrong if the
    /// slot were empty.
    pub fn expect_mut(&mut self, message: &str) -> (r: &mut T)
        requires
            old(self).is_init(),
        ensures
            *r == old(self).value(),
            final(self)@ == Some(*final(r)),
    {
        self.inner.as_mut().expect(message)
    }
}

impl<T, A> Default for ToInit<T, A> {
    /// An empty slot, as [`ToInit::uninit`].
    fn default() -> (r: Self)
        ensures
            r@ == None::<T>,
    {
        Self { inner: None, _token: PhantomData }
    }
}

/// A value written by `init` is what every later read gives back, until the
/// next `init`.
pub proof fn lemma_read_after_init<T, A>(slot: ToInit<T, A>, val: T)
    requires
        slot@ == Some(val),
    ensures
        slot.is_init(),
        slot.value() == val,
{
}

} // verus!
