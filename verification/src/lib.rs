//! Compact 64-bit identifiers that independent generators make without
//! colliding.
//!
//! An identifier, or crystal, packs three unsigned fields into 64 bits, most
//! significant first: a 14-bit generator id, an 8-bit counter that
//! distinguishes identifiers made within one millisecond, and a 42-bit count
//! of milliseconds since an epoch that the application chooses.

use vstd::prelude::*;
use vstd::string::StringExecFns;

pub mod clock;
pub mod crystal;
pub mod generator;

use crystal::CrystalPart;

pub use crystal::Crystal;
pub use generator::Generator;

verus! {

/// What can go wrong when building or generating a crystal.
#[derive(Clone, Copy, PartialEq, Eq, Debug, Structural)]
pub enum BerylError {
    /// A field does not fit its width: one handed to the checked
    /// constructor of a crystal, or the id that a generator was asked for.
    PartOutOfBounds(crystal::CrystalPart),
    /// Every counter value of the current millisecond has been handed out.
    GeneratorExhausted,
}

impl BerylError {
    /// The text that describes the error, ending in a line break.
    pub open spec fn spec_message(self) -> Seq<char> {
        match self {
            BerylError::PartOutOfBounds(CrystalPart::GeneratorId) => {
                "Crystal part was out of bounds: GeneratorId\n"@
            },
            BerylError::PartOutOfBounds(CrystalPart::Counter) => {
                "Crystal part was out of bounds: Counter\n"@
            },
            BerylError::PartOutOfBounds(CrystalPart::Timestamp) => {
                "Crystal part was out of bounds: Timestamp\n"@
            },
            BerylError::GeneratorExhausted => {
                "Generator ran out of Crystals for this millisecond\n"@
            },
        }
    }

    /// Describes the error in words, for a person to read.
    pub fn message(&self) -> (text: String)
        ensures
            text@ == self.spec_message(),
    {
        match self {
            BerylError::PartOutOfBounds(CrystalPart::GeneratorId) => {
                String::from_str("Crystal part was out of bounds: GeneratorId\n")
            },
            BerylError::PartOutOfBounds(CrystalPart::Counter) => {
                String::from_str("Crystal part was out of bounds: Counter\n")
            },
            BerylError::PartOutOfBounds(CrystalPart::Timestamp) => {
                String::from_str("Crystal part was out of bounds: Timestamp\n")
            },
            BerylError::GeneratorExhausted => String::from_str(
                "Generator ran out of Crystals for this millisecond\n",
            ),
        }
    }
}

} // verus!
