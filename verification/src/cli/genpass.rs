use vstd::prelude::*;

verus! {

/// Options for password generation: length and the character classes to use.
#[derive(Debug, Clone, Copy)]
pub struct GenpassOpts {
    pub length: u8,
    pub uppercase: bool,
    pub lowercase: bool,
    pub number: bool,
    pub symbol: bool,
}

} // verus!
