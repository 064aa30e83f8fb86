//! Symbolic key identifiers.
use vstd::prelude::*;

verus! {

/// The keysym code that names no symbol: what a translation yields for a
/// key that the keymap does not assign, or when the translation fails.
pub const NO_SYMBOL: u32 = 0;

/// A symbolic key identifier, as a keymap translation returns it.
#[derive(Clone, Copy, Debug, PartialEq, Eq, Structural, Hash)]
pub struct Keysym {
    code: u32,
}

impl View for Keysym {
    type V = u32;

    closed spec fn view(&self) -> u32 {
        self.code
    }
}

impl Keysym {
    /// The platform's code for this symbol.
    pub fn raw(&self) -> (r: u32)
        ensures
            r == self@,
    {
        self.code
    }

    /// Whether this is the sentinel that names no symbol.
    pub fn is_no_symbol(&self) -> (r: bool)
        ensures
            r == (self@ == NO_SYMBOL),
    {
        self.code == NO_SYMBOL
    }
}

impl From<u32> for Keysym {
    /// The keysym that a translation returned as `code`.
    fn from(code: u32) -> (r: Keysym)
        ensures
            r@ == code,
    {
        Keysym { code }
    }
}

impl vstd::std_specs::convert::FromSpecImpl<u32> for Keysym {
    open spec fn obeys_from_spec() -> bool {
        true
    }

    closed spec fn from_spec(code: u32) -> Keysym {
        Keysym { code }
    }
}

/// Keysyms are equal exactly when their codes are: a translation that
/// returns the same code gives the same keysym.
pub proof fn lemma_keysym_eq_is_code_eq(a: Keysym, b: Keysym)
    ensures
        (a == b) == (a@ == b@),
{
}

} // verus!
