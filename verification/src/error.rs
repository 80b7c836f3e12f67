//! Status-code translation.
//!
//! Every native call answers with an integer status code: zero means
//! success, any non-zero value identifies a failure class understood only by
//! the engine. This layer never decodes a code further than
//! "success / failed with code c"; all fallible operations route through the
//! translation functions here so that no status is silently dropped.

use vstd::prelude::*;

verus! {

/// A failure reported by the engine, carrying the raw status code unchanged.
#[derive(Clone, Copy, Debug, PartialEq, Eq, Structural)]
pub struct SynthizerError(i32);

impl SynthizerError {
    /// The raw engine status code this failure carries.
    pub closed spec fn spec_code(&self) -> i32 {
        self.0
    }

    /// The raw engine status code this failure carries.
    pub fn code(&self) -> (c: i32)
        ensures
            c == self.spec_code(),
    {
        self.0
    }

    pub(crate) fn from_code(code: i32) -> (e: Self)
        requires
            code != 0,
        ensures
            e.spec_code() == code,
    {
        SynthizerError(code)
    }
}

/// Holds when `r` is the faithful translation of status `s` with success
/// value `val`: a zero status carries the value through unchanged, and any
/// other status becomes a failure wrapping exactly that code.
pub open spec fn translated<T>(r: Result<T, SynthizerError>, s: i32, val: T) -> bool {
    if s == 0 {
        r == Ok::<T, SynthizerError>(val)
    } else {
        r matches Err(e) && e.spec_code() == s
    }
}

/// Translates a bare status code: `Ok(())` exactly when the code is zero.
pub fn translate(s: i32) -> (r: Result<(), SynthizerError>)
    ensures
        translated(r, s, ()),
{
    if s == 0 {
        Ok(())
    } else {
        Err(SynthizerError(s))
    }
}

/// Translates a status code paired with a success value, carrying the value
/// through only on success.
pub fn translate_value<T>(s: i32, val: T) -> (r: Result<T, SynthizerError>)
    ensures
        translated(r, s, val),
{
    if s == 0 {
        Ok(val)
    } else {
        Err(SynthizerError(s))
    }
}

} // verus!
