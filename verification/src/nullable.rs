use vstd::prelude::*;

verus! {

/// An explicit present/absent value wrapper. It is immutable once
/// constructed: `map` on a present value produces a new present wrapper,
/// `map` on an absent one propagates absence without invoking the function.
#[derive(Clone)]
pub struct Nullable<T> {
    inner: Option<T>,
}

impl<T> View for Nullable<T> {
    type V = Option<T>;

    closed spec fn view(&self) -> Option<T> {
        self.inner
    }
}

impl<T> Nullable<T> {
    /// Construct a wrapper holding `value` (present when `value` is `Some`).
    pub fn new(value: Option<T>) -> (r: Self)
        ensures
            r@ == value,
    {
        Nullable { inner: value }
    }

    /// Construct the absent wrapper.
    pub fn null() -> (r: Self)
        ensures
            r@ is None,
    {
        Nullable { inner: None }
    }

    /// True exactly when no value is present.
    pub fn is_null(&self) -> (r: bool)
        ensures
            r <==> self@ is None,
    {
        self.inner.is_none()
    }

    /// Borrow the contained value, if one is present.
    pub fn get(&self) -> (r: Option<&T>)
        ensures
            match r {
                Some(t) => self@ == Some(*t),
                None => self@ is None,
            },
    {
        self.inner.as_ref()
    }

    /// Apply `f` to the contained value if one is present; absence
    /// propagates unchanged and `f` is never invoked.
    pub fn map<U, F: FnOnce(T) -> U>(self, f: F) -> (r: Nullable<U>)
        requires
            self@ matches Some(t) ==> call_requires(f, (t,)),
        ensures
            self@ is None ==> r@ is None,
            self@ matches Some(t) ==> r@ matches Some(u) && call_ensures(f, (t,), u),
    {
        match self.inner {
            Some(value) => Nullable { inner: Some(f(value)) },
            None => Nullable { inner: None },
        }
    }
}

impl<T: Default> Nullable<T> {
    /// The contained value, or `T`'s default when absent.
    pub fn unwrap_or_default(self) -> (r: T)
        ensures
            self@ matches Some(t) ==> r == t,
            self@ is None ==> call_ensures(T::default, (), r),
    {
        match self.inner {
            Some(value) => value,
            None => T::default(),
        }
    }
}

} // verus!
