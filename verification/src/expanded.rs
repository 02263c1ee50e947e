//! A worked example of the transform's output.
//!
//! For a function whose body holds one marker of each field shape —
//! `Structy { bars: usize = 1, chars: char = 'a' }`, `Tuply(usize = 1,
//! char = 'a')` and a unit marker carrying `#[default]` metadata — the
//! pass synthesizes the enum below and replaces each marker with the
//! matching construction expression.  The expansion is written out here so
//! the emitted shapes are exercised: the declaration fragments form a
//! well-formed enum, the construction expressions build its values, and
//! the helpers pin down the field types, order and derives.

use vstd::prelude::*;

verus! {

/// The enum the pass synthesizes for [`foo`]'s markers, with
/// `derive(Clone, Copy, Default)` passed through.
#[derive(Clone, Copy, Default, Debug)]
pub enum FooError {
    /// From the named-shape marker.
    Structy {
        /// First named field.
        bars: usize,
        /// Second named field.
        chars: char,
    },
    /// From the unnamed-shape marker.
    Tuply(usize, char),
    /// From the unit-shape marker; its metadata names it the default.
    #[default]
    Unit,
}

/// The rewritten function: each marker has become a construction
/// expression prefixed with the resolved name.  The first one returns, so
/// the call always fails with the named-shape variant.
pub fn foo() -> (r: Result<(), FooError>)
    ensures
        r matches Err(e) && e == (FooError::Structy { bars: 1, chars: 'a' }),
{
    Err(FooError::Structy { bars: 1, chars: 'a' })?;
    Err(FooError::Tuply(1, 'a'))?;
    Err(FooError::Unit)?;
    Err(FooError::Unit)?;
    Ok(())
}

/// Pins the type of the first field of the named shape.
pub fn assert_usize(u: usize) {
}

/// Pins the type of the second field of the named shape.
pub fn assert_char(c: char) {
}

/// Pins the passed-through `Default` derive.
pub fn assert_default<T: Default>(t: T) {
}

/// Pins the passed-through `Clone` derive.
pub fn assert_clone<T: Clone>(t: T) {
}

/// Pins the passed-through `Copy` derive.
pub fn assert_copy<T: Copy>(t: T) {
}

/// Consumes every variant of the synthesized enum, so a missing or
/// reshaped variant cannot go unnoticed.
pub fn assert_foo_error(e: FooError) {
    assert_copy(e);
    assert_clone(e);
    assert_default(e);
    match e {
        FooError::Structy { bars, chars } => {
            assert_usize(bars);
            assert_char(chars);
        },
        FooError::Tuply(u, c) => {
            assert_usize(u);
            assert_char(c);
        },
        FooError::Unit => {
        },
    }
}

} // verus!
