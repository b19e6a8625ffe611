//! The text of the target assembly: numbers, labels and memory locations,
//! and the instructions that are made of them.

pub mod emit;

use crate::cgen::emit::Register;
use crate::text::{hex_digits, hex_fixed};
use vstd::prelude::*;
use vstd::string::StringExecFns;

verus! {

/// The size of a machine word in bytes.
pub const WORD_SIZE: i16 = 4;

/// The binary logarithm of the size of a machine word.
pub const LG_WORD_SIZE: i16 = 2;

/// The number of words at the start of an object that hold no attribute.
pub const DEFAULT_OBJFIELDS: i16 = 3;

/// A place in memory: a number of words from the address in a register.
#[derive(Clone, Copy, Debug)]
pub struct MemLocation {
    pub reg: Register,
    pub offset: i16,
}

/// A place in the code that a jump can name.
#[derive(Clone, Copy, Debug)]
pub struct Label(pub u32);

impl Label {
    /// The label as it is written in the assembly.
    pub open spec fn text(&self) -> Seq<char> {
        "label_"@ + hex_digits(self.0 as nat, 10)
    }

    /// The label as it is written in the assembly.
    pub fn name(&self) -> (r: String)
        ensures
            r@ == self.text(),
    {
        let mut r = String::from_str("label_");
        r.append(hex_fixed(self.0 as u64, 10).as_str());
        r
    }
}

} // verus!
