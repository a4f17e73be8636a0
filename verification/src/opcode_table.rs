//! An opcode table: one entry for each of the 256 values of an opcode byte.

use crate::decimal::{decimal, decimal_string};
use crate::table_types::{InsnInfo, InsnModel};
use crate::unique_set::models;
use vstd::prelude::*;

verus! {

/// The number of entries of an opcode table.
pub const OPCODE_TABLE_LEN: usize = 256;

/// Why a list of entries is no opcode table: it has `len` entries instead of 256.
#[derive(Debug, Clone, Copy, PartialEq, Eq, Structural)]
pub struct TableLengthError {
    pub len: usize,
}

impl TableLengthError {
    /// The error in words.
    pub fn message(&self) -> (text: String)
        ensures
            text@ == "an opcode table has 256 entries, not "@ + decimal(self.len as nat),
    {
        let mut text = String::from_str("an opcode table has 256 entries, not ");
        text.append(decimal_string(self.len).as_str());
        text
    }
}

/// An opcode table. It holds exactly 256 entries; an opcode without an instruction has the
/// entry of an unsupported opcode.
pub struct OpcodeTable {
    entries: Vec<InsnInfo>,
}

impl View for OpcodeTable {
    type V = Seq<InsnModel>;

    closed spec fn view(&self) -> Seq<InsnModel> {
        models(self.entries@)
    }
}

impl OpcodeTable {
    #[verifier::type_invariant]
    spec fn has_all_entries(&self) -> bool {
        self.entries@.len() == OPCODE_TABLE_LEN
    }

    /// Makes a table of the entries, in the order of their opcodes. A list of another length
    /// than 256 is refused.
    pub fn new(entries: Vec<InsnInfo>) -> (result: Result<OpcodeTable, TableLengthError>)
        ensures
            match result {
                Ok(table) => entries@.len() == OPCODE_TABLE_LEN && table@ == models(entries@),
                Err(error) => entries@.len() != OPCODE_TABLE_LEN && error.len == entries@.len(),
            },
    {
        if entries.len() == OPCODE_TABLE_LEN {
            Ok(OpcodeTable { entries })
        } else {
            Err(TableLengthError { len: entries.len() })
        }
    }

    /// The entries, in the order of their opcodes.
    pub fn entries(&self) -> (entries: &[InsnInfo])
        ensures
            entries@.len() == OPCODE_TABLE_LEN,
            models(entries@) == self@,
    {
        proof {
            use_type_invariant(self);
        }
        self.entries.as_slice()
    }

    /// The entry of an opcode.
    pub fn entry(&self, opcode: u8) -> (entry: &InsnInfo)
        ensures
            self@.len() == OPCODE_TABLE_LEN,
            entry@ == self@[opcode as int],
    {
        proof {
            use_type_invariant(self);
        }
        &self.entries[opcode as usize]
    }
}

} // verus!
