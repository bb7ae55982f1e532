//! Small helpers shared by the rest of the library: verified string
//! comparison, unwrapping with a caller-chosen message, and a diagnostics
//! hook that stays silent.

use vstd::prelude::*;
use vstd::pervasive::unreached;
use vstd::string::StringSliceAdditionalSpecFns;

verus! {

/// Compares two string slices through their UTF-8 bytes; true exactly when
/// they hold the same characters.
pub fn str_eq(a: &str, b: &str) -> (r: bool)
    ensures
        r == (a@ == b@),
{
    proof {
        broadcast use vstd::utf8::encode_utf8_decode_utf8;

    }
    let a_bytes = a.as_bytes();
    let b_bytes = b.as_bytes();
    if a_bytes.len() != b_bytes.len() {
        return false;
    }
    let mut i: usize = 0;
    while i < a_bytes.len()
        invariant
            0 <= i <= a_bytes@.len(),
            a_bytes@.len() == b_bytes@.len(),
            a_bytes@ == a.spec_bytes(),
            b_bytes@ == b.spec_bytes(),
            forall|j: int| 0 <= j < i ==> a_bytes@[j] == b_bytes@[j],
        decreases a_bytes@.len() - i,
    {
        if a_bytes[i] != b_bytes[i] {
            return false;
        }
        i += 1;
    }
    proof {
        assert(a.spec_bytes() =~= b.spec_bytes());
        vstd::utf8::encode_utf8_decode_utf8(a@);
        vstd::utf8::encode_utf8_decode_utf8(b@);
        assert(a@ == b@);
    }
    true
}

/// Unwrapping a result with a message built only on failure; with the
/// failing inputs ruled out, the message maker is never run.
pub trait ExpectElseResult<T, E>: Sized {
    /// Whether unwrapping is allowed: the operation holds a success value.
    spec fn can_expect(&self) -> bool;

    /// The success value handed out.
    spec fn expected_value(&self) -> T;

    /// Returns the success value; the closure would make the failure message.
    fn expect_else<F: FnOnce(&E) -> String>(self, info: F) -> (r: T)
        requires
            self.can_expect(),
        ensures
            r == self.expected_value(),
    ;
}

impl<T, E> ExpectElseResult<T, E> for Result<T, E> {
    open spec fn can_expect(&self) -> bool {
        self is Ok
    }

    open spec fn expected_value(&self) -> T {
        self->Ok_0
    }

    fn expect_else<F: FnOnce(&E) -> String>(self, info: F) -> (r: T) {
        match self {
            Ok(t) => t,
            Err(_) => unreached(),
        }
    }
}

/// Unwrapping an option with a message built only on failure; with the
/// failing inputs ruled out, the message maker is never run.
pub trait ExpectElseOption<T>: Sized {
    /// Whether unwrapping is allowed: a value is present.
    spec fn can_expect(&self) -> bool;

    /// The value handed out.
    spec fn expected_value(&self) -> T;

    /// Returns the contained value; the closure would make the failure
    /// message.
    fn expect_else<F: FnOnce() -> String>(self, info: F) -> (r: T)
        requires
            self.can_expect(),
        ensures
            r == self.expected_value(),
    ;
}

impl<T> ExpectElseOption<T> for Option<T> {
    open spec fn can_expect(&self) -> bool {
        self is Some
    }

    open spec fn expected_value(&self) -> T {
        self->0
    }

    fn expect_else<F: FnOnce() -> String>(self, info: F) -> (r: T) {
        match self {
            Some(t) => t,
            None => unreached(),
        }
    }
}

/// Diagnostics hook of the generation layer; deliberately silent.
pub fn print_info<TName, TInfo>(_name: TName, _info: TInfo) {
}

} // verus!
