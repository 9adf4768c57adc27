//! A record that holds a data tuple beside a callable over it, and one
//! operation that brings the two together.

use vstd::prelude::*;

verus! {

/// A data tuple together with a callable that, given a reference to such a
/// tuple, hands back a reference to a byte that lives as long as the tuple.
pub struct Closure<F> {
    pub data: (u8, u16),
    pub func: F,
}

impl<F> Closure<F> where F: Fn(&(u8, u16)) -> &u8 {
    /// Invokes the stored callable on the stored data and returns whatever
    /// reference the callable produces. The reference lives no longer than
    /// the record.
    ///
    /// The callable must accept the stored data; a callable without a
    /// precondition, such as [`do_it`], always does.
    pub fn call<'a>(&'a self) -> (out: &'a u8)
        requires
            call_requires(self.func, (&self.data,)),
        ensures
            call_ensures(self.func, (&self.data,), out),
    {
        (self.func)(&self.data)
    }
}

/// Selects the first element of the tuple.
pub fn do_it<'b>(data: &'b (u8, u16)) -> (out: &'b u8)
    ensures
        *out == data.0,
{
    &data.0
}

/// Stores `data` beside [`do_it`], invokes the holder once, and returns the
/// byte that comes back: the first element of `data`.
pub fn probe(data: (u8, u16)) -> (shown: u8)
    ensures
        shown == data.0,
{
    let closure = Closure { data, func: do_it };
    let a = closure.call();
    *a
}

} // verus!
