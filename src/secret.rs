//! A wrapper that keeps personal data out of logs and comparisons.

use vstd::prelude::*;

verus! {

/// A customer's IP address, held wrapped. The type offers no `Debug` and no
/// `==`, so the value cannot be printed or compared by accident; only the
/// storage boundary calls `expose`.
#[derive(Clone)]
pub struct Secret {
    inner: String,
}

impl View for Secret {
    type V = Seq<char>;

    closed spec fn view(&self) -> Seq<char> {
        self.inner@
    }
}

impl Secret {
    /// Wraps `value`.
    pub fn new(value: String) -> (r: Secret)
        ensures
            r@ == value@,
    {
        Secret { inner: value }
    }

    /// Hands the wrapped value out, consuming the wrapper.
    pub fn expose(self) -> (r: String)
        ensures
            r@ == self@,
    {
        self.inner
    }
}

} // verus!
