//! `ToDebug`: a counterpart of `ToString` that renders a value through its
//! `Debug` impl rather than its `Display` impl.
//!
//! Every type that implements `Debug` gets `to_debug` for free, which makes the
//! whole structure of a value (private fields included) visible as text, for
//! instance in doctests:
//!
//! ```
//! use to_debug::ToDebug;
//!
//! #[derive(Debug)]
//! struct Person {
//!     name: String,
//!     age: u16,
//! }
//!
//! let p = Person { name: "Joseph".to_string(), age: 20 };
//! assert_eq!(p.to_debug(), r#"Person { name: "Joseph", age: 20 }"#);
//! ```
use vstd::prelude::*;

verus! {

/// Relies on std's `format` with the `{:?}` directive: the result is the text
/// that `v`'s `Debug` impl writes. Nothing is stated of that text, since a
/// `Debug` impl is arbitrary code of the value's type. `format` panics where
/// a `Debug` impl reports an error, which a correct impl never does when it
/// writes into a `String`.
#[verifier::external_body]
fn debug_format<T: core::fmt::Debug + ?Sized>(v: &T) -> (text: String) {
    format!("{:?}", v)
}

/// Relies on `String::shrink_to_fit`: it lowers the capacity to the length and
/// leaves the text as it was.
#[verifier::external_body]
fn release_spare_capacity(s: &mut String)
    ensures
        final(s)@ == old(s)@,
{
    s.shrink_to_fit();
}

/// Turns freshly formatted text into the finished rendering: the same
/// characters, in a string with no spare capacity.
pub fn finish_rendering(text: String) -> (rendered: String)
    ensures
        rendered@ == text@,
{
    let mut rendered = text;
    release_spare_capacity(&mut rendered);
    rendered
}

/// Converts a value to a `String` through its `Debug` impl.
///
/// Implemented for every type that implements `Debug`: implement `Debug`, not
/// this trait.
pub trait ToDebug {
    /// The text that this value's `Debug` impl writes, in a string of its own
    /// with no spare capacity.
    ///
    /// # Panics
    ///
    /// Panics when the value's `Debug` impl returns an error. Writing into a
    /// `String` cannot fail, so only a broken impl does that, and no partial
    /// text is returned.
    ///
    /// ```
    /// use to_debug::ToDebug;
    ///
    /// #[derive(Debug)]
    /// struct Years(u64);
    ///
    /// assert_eq!(Years(18).to_debug(), "Years(18)");
    /// ```
    fn to_debug(&self) -> String;
}

impl<T: core::fmt::Debug + ?Sized> ToDebug for T {
    #[inline]
    fn to_debug(&self) -> (rendered: String) {
        finish_rendering(debug_format(self))
    }
}

} // verus!
