//! Handles as text.

use crate::arena::Arena;
use crate::observing::Weakn;
use crate::owning::Rcn;
use std::fmt::Debug;
use std::fmt::Display;
use vstd::prelude::*;
use vstd::string::to_string_from_display_ensures;

verus! {

/// Calls `format!` with `{:?}`, that is the `Debug` impl of `T`, on `value`.
/// The contract claims nothing of the text: what it is lies with that impl.
#[verifier::external_body]
fn debug_text<T: Debug>(value: &T) -> (text: String) {
    format!("{:?}", value)
}

/// `text` is what a call of the `Debug` impl of `T` wrote for `value`. Two
/// calls on one value need not write the same text.
pub closed spec fn debug_written<T: Debug>(value: T, text: String) -> bool {
    call_ensures(debug_text::<T>, (&value,), text)
}

impl<T: Display> Rcn<T> {
    /// The value as `Display` writes it.
    pub fn to_string(&self, arena: &Arena<T>) -> (text: String)
        requires
            arena.wf(),
            arena@.payload(self@) is Some,
        ensures
            to_string_from_display_ensures::<T>(&arena@.payload(self@)->0, text),
    {
        self.deref(arena).to_string()
    }
}

impl<T: Debug> Rcn<T> {
    /// The value as `Debug` writes it: the text is one that the `Debug` impl
    /// of `T` gave for the value that the handle holds.
    pub fn to_debug_string(&self, arena: &Arena<T>) -> (text: String)
        requires
            arena.wf(),
            arena@.payload(self@) is Some,
        ensures
            debug_written::<T>(arena@.payload(self@)->0, text),
    {
        debug_text(self.deref(arena))
    }
}

impl<T> Weakn<T> {
    /// The fixed text that stands for any observing handle.
    pub fn to_debug_string(&self) -> (text: String)
        ensures
            text@ == "(Weakn)"@,
    {
        "(Weakn)".to_owned()
    }
}

} // verus!
