//! The value types of an instruction table: operand sizes, operands and instructions.
//!
//! All of them are plain data. Two values that were built independently are the same
//! descriptor when their content is equal, which is what deduplication relies on.

use crate::unique_set::{models, Descriptor};
use vstd::prelude::*;
use vstd::utf8::{encode_utf8, encode_utf8_decode_utf8};

verus! {

/// The name of an instruction.
pub type Mnemonic = &'static str;

/// The operands of an instruction, in the order in which assembly syntax writes them.
pub type Ops = Vec<OpInfo>;

/// The mnemonic of an opcode that the table does not describe.
pub const MNEMONIC_UNSUPPORTED: Mnemonic = "unsupported";

/// The width of an operand.
#[derive(Debug, Clone, Copy, PartialEq, Eq, Hash, Structural)]
pub enum OpSize {
    S8,
    S16,
    S32,
    S64,
}

impl OpSize {
    /// The names of the variants, in the order of their declaration.
    pub open spec fn spec_variant_names() -> Seq<Seq<char>> {
        seq!["S8"@, "S16"@, "S32"@, "S64"@]
    }

    /// The name of this value's variant.
    pub open spec fn spec_variant_name(self) -> Seq<char> {
        match self {
            OpSize::S8 => "S8"@,
            OpSize::S16 => "S16"@,
            OpSize::S32 => "S32"@,
            OpSize::S64 => "S64"@,
        }
    }

    /// The position of this value's variant in the order of declaration.
    pub open spec fn ordinal(self) -> nat {
        match self {
            OpSize::S8 => 0,
            OpSize::S16 => 1,
            OpSize::S32 => 2,
            OpSize::S64 => 3,
        }
    }

    /// The names of the variants, in the order of their declaration.
    pub fn variant_names() -> (names: Vec<&'static str>)
        ensures
            models(names@) == Self::spec_variant_names(),
    {
        let names = vec!["S8", "S16", "S32", "S64"];
        assert(models(names@) =~= Self::spec_variant_names());
        names
    }

    /// The number of variants.
    pub fn variant_count() -> (count: usize)
        ensures
            count == Self::spec_variant_names().len(),
            count >= 1,
    {
        4
    }

    /// The name of this value's variant.
    pub fn variant_name(&self) -> (name: &'static str)
        ensures
            name@ == self.spec_variant_name(),
    {
        match self {
            OpSize::S8 => "S8",
            OpSize::S16 => "S16",
            OpSize::S32 => "S32",
            OpSize::S64 => "S64",
        }
    }

    /// Each variant's name stands at the variant's ordinal in the list of names.
    pub proof fn lemma_variant_name_at_ordinal(self)
        ensures
            self.ordinal() < Self::spec_variant_names().len(),
            Self::spec_variant_names()[self.ordinal() as int] == self.spec_variant_name(),
    {
    }
}

/// How an immediate that is encoded narrower than its operand is widened.
#[derive(Debug, Clone, Copy, PartialEq, Eq, Hash, Structural)]
pub enum ImmExtendKind {
    SignExtend,
    ZeroExtend,
}

impl ImmExtendKind {
    /// The names of the variants, in the order of their declaration.
    pub open spec fn spec_variant_names() -> Seq<Seq<char>> {
        seq!["SignExtend"@, "ZeroExtend"@]
    }

    /// The name of this value's variant.
    pub open spec fn spec_variant_name(self) -> Seq<char> {
        match self {
            ImmExtendKind::SignExtend => "SignExtend"@,
            ImmExtendKind::ZeroExtend => "ZeroExtend"@,
        }
    }

    /// The position of this value's variant in the order of declaration.
    pub open spec fn ordinal(self) -> nat {
        match self {
            ImmExtendKind::SignExtend => 0,
            ImmExtendKind::ZeroExtend => 1,
        }
    }

    /// The names of the variants, in the order of their declaration.
    pub fn variant_names() -> (names: Vec<&'static str>)
        ensures
            models(names@) == Self::spec_variant_names(),
    {
        let names = vec!["SignExtend", "ZeroExtend"];
        assert(models(names@) =~= Self::spec_variant_names());
        names
    }

    /// The number of variants.
    pub fn variant_count() -> (count: usize)
        ensures
            count == Self::spec_variant_names().len(),
            count >= 1,
    {
        2
    }

    /// The name of this value's variant.
    pub fn variant_name(&self) -> (name: &'static str)
        ensures
            name@ == self.spec_variant_name(),
    {
        match self {
            ImmExtendKind::SignExtend => "SignExtend",
            ImmExtendKind::ZeroExtend => "ZeroExtend",
        }
    }

    /// Each variant's name stands at the variant's ordinal in the list of names.
    pub proof fn lemma_variant_name_at_ordinal(self)
        ensures
            self.ordinal() < Self::spec_variant_names().len(),
            Self::spec_variant_names()[self.ordinal() as int] == self.spec_variant_name(),
    {
    }
}

/// An immediate value that the opcode implies.
#[derive(Debug, Clone, Copy, PartialEq, Eq, Hash, Structural)]
pub enum SpecificImm {
    Zero,
    One,
}

impl SpecificImm {
    /// The names of the variants, in the order of their declaration.
    pub open spec fn spec_variant_names() -> Seq<Seq<char>> {
        seq!["Zero"@, "One"@]
    }

    /// The name of this value's variant.
    pub open spec fn spec_variant_name(self) -> Seq<char> {
        match self {
            SpecificImm::Zero => "Zero"@,
            SpecificImm::One => "One"@,
        }
    }

    /// The position of this value's variant in the order of declaration.
    pub open spec fn ordinal(self) -> nat {
        match self {
            SpecificImm::Zero => 0,
            SpecificImm::One => 1,
        }
    }

    /// The names of the variants, in the order of their declaration.
    pub fn variant_names() -> (names: Vec<&'static str>)
        ensures
            models(names@) == Self::spec_variant_names(),
    {
        let names = vec!["Zero", "One"];
        assert(models(names@) =~= Self::spec_variant_names());
        names
    }

    /// The number of variants.
    pub fn variant_count() -> (count: usize)
        ensures
            count == Self::spec_variant_names().len(),
            count >= 1,
    {
        2
    }

    /// The name of this value's variant.
    pub fn variant_name(&self) -> (name: &'static str)
        ensures
            name@ == self.spec_variant_name(),
    {
        match self {
            SpecificImm::Zero => "Zero",
            SpecificImm::One => "One",
        }
    }

    /// Each variant's name stands at the variant's ordinal in the list of names.
    pub proof fn lemma_variant_name_at_ordinal(self)
        ensures
            self.ordinal() < Self::spec_variant_names().len(),
            Self::spec_variant_names()[self.ordinal() as int] == self.spec_variant_name(),
    {
    }
}

/// Where the number of a register operand is encoded.
#[derive(Debug, Clone, Copy, PartialEq, Eq, Hash, Structural)]
pub enum RegEncoding {
    Modrm,
    Opcode,
}

impl RegEncoding {
    /// The names of the variants, in the order of their declaration.
    pub open spec fn spec_variant_names() -> Seq<Seq<char>> {
        seq!["Modrm"@, "Opcode"@]
    }

    /// The name of this value's variant.
    pub open spec fn spec_variant_name(self) -> Seq<char> {
        match self {
            RegEncoding::Modrm => "Modrm"@,
            RegEncoding::Opcode => "Opcode"@,
        }
    }

    /// The position of this value's variant in the order of declaration.
    pub open spec fn ordinal(self) -> nat {
        match self {
            RegEncoding::Modrm => 0,
            RegEncoding::Opcode => 1,
        }
    }

    /// The names of the variants, in the order of their declaration.
    pub fn variant_names() -> (names: Vec<&'static str>)
        ensures
            models(names@) == Self::spec_variant_names(),
    {
        let names = vec!["Modrm", "Opcode"];
        assert(models(names@) =~= Self::spec_variant_names());
        names
    }

    /// The number of variants.
    pub fn variant_count() -> (count: usize)
        ensures
            count == Self::spec_variant_names().len(),
            count >= 1,
    {
        2
    }

    /// The name of this value's variant.
    pub fn variant_name(&self) -> (name: &'static str)
        ensures
            name@ == self.spec_variant_name(),
    {
        match self {
            RegEncoding::Modrm => "Modrm",
            RegEncoding::Opcode => "Opcode",
        }
    }

    /// Each variant's name stands at the variant's ordinal in the list of names.
    pub proof fn lemma_variant_name_at_ordinal(self)
        ensures
            self.ordinal() < Self::spec_variant_names().len(),
            Self::spec_variant_names()[self.ordinal() as int] == self.spec_variant_name(),
    {
    }
}

/// A register that the opcode implies.
#[derive(Debug, Clone, Copy, PartialEq, Eq, Hash, Structural)]
pub enum SpecificReg {
    Rax,
    Rdx,
    Rcx,
}

impl SpecificReg {
    /// The names of the variants, in the order of their declaration.
    pub open spec fn spec_variant_names() -> Seq<Seq<char>> {
        seq!["Rax"@, "Rdx"@, "Rcx"@]
    }

    /// The name of this value's variant.
    pub open spec fn spec_variant_name(self) -> Seq<char> {
        match self {
            SpecificReg::Rax => "Rax"@,
            SpecificReg::Rdx => "Rdx"@,
            SpecificReg::Rcx => "Rcx"@,
        }
    }

    /// The position of this value's variant in the order of declaration.
    pub open spec fn ordinal(self) -> nat {
        match self {
            SpecificReg::Rax => 0,
            SpecificReg::Rdx => 1,
            SpecificReg::Rcx => 2,
        }
    }

    /// The names of the variants, in the order of their declaration.
    pub fn variant_names() -> (names: Vec<&'static str>)
        ensures
            models(names@) == Self::spec_variant_names(),
    {
        let names = vec!["Rax", "Rdx", "Rcx"];
        assert(models(names@) =~= Self::spec_variant_names());
        names
    }

    /// The number of variants.
    pub fn variant_count() -> (count: usize)
        ensures
            count == Self::spec_variant_names().len(),
            count >= 1,
    {
        3
    }

    /// The name of this value's variant.
    pub fn variant_name(&self) -> (name: &'static str)
        ensures
            name@ == self.spec_variant_name(),
    {
        match self {
            SpecificReg::Rax => "Rax",
            SpecificReg::Rdx => "Rdx",
            SpecificReg::Rcx => "Rcx",
        }
    }

    /// Each variant's name stands at the variant's ordinal in the list of names.
    pub proof fn lemma_variant_name_at_ordinal(self)
        ensures
            self.ordinal() < Self::spec_variant_names().len(),
            Self::spec_variant_names()[self.ordinal() as int] == self.spec_variant_name(),
    {
    }
}

impl OpSize {
    /// The width in bits.
    pub open spec fn spec_bits(self) -> nat {
        match self {
            OpSize::S8 => 8,
            OpSize::S16 => 16,
            OpSize::S32 => 32,
            OpSize::S64 => 64,
        }
    }

    /// The width in bits.
    pub fn bits(&self) -> (bits: usize)
        ensures
            bits == self.spec_bits(),
    {
        match self {
            OpSize::S8 => 8,
            OpSize::S16 => 16,
            OpSize::S32 => 32,
            OpSize::S64 => 64,
        }
    }
}

/// The size of an operand in each encoding context.
#[derive(Debug, Clone, Copy, PartialEq, Eq, Hash, Structural)]
pub struct OpSizeInfo {
    pub with_operand_size_override: OpSize,
    pub mode_32: OpSize,
    pub mode_64: OpSize,
    pub mode_64_with_rex_w: OpSize,
}

impl OpSizeInfo {
    /// operand size is always 8 bits
    pub open spec fn spec_sz_always_8() -> Self {
        OpSizeInfo {
            with_operand_size_override: OpSize::S8,
            mode_32: OpSize::S8,
            mode_64: OpSize::S8,
            mode_64_with_rex_w: OpSize::S8,
        }
    }

    /// operand size is always 8 bits
    #[verifier::when_used_as_spec(spec_sz_always_8)]
    pub fn sz_always_8() -> (size: Self)
        ensures
            size == Self::spec_sz_always_8(),
    {
        OpSizeInfo {
            with_operand_size_override: OpSize::S8,
            mode_32: OpSize::S8,
            mode_64: OpSize::S8,
            mode_64_with_rex_w: OpSize::S8,
        }
    }

    /// operand size is always 16 bits
    pub open spec fn spec_sz_always_16() -> Self {
        OpSizeInfo {
            with_operand_size_override: OpSize::S16,
            mode_32: OpSize::S16,
            mode_64: OpSize::S16,
            mode_64_with_rex_w: OpSize::S16,
        }
    }

    /// operand size is always 16 bits
    #[verifier::when_used_as_spec(spec_sz_always_16)]
    pub fn sz_always_16() -> (size: Self)
        ensures
            size == Self::spec_sz_always_16(),
    {
        OpSizeInfo {
            with_operand_size_override: OpSize::S16,
            mode_32: OpSize::S16,
            mode_64: OpSize::S16,
            mode_64_with_rex_w: OpSize::S16,
        }
    }

    /// the default operand size for instructions that default to 32-bit operands.
    pub open spec fn spec_sz_16_32_64_def_32() -> Self {
        OpSizeInfo {
            with_operand_size_override: OpSize::S16,
            mode_32: OpSize::S32,
            mode_64: OpSize::S32,
            mode_64_with_rex_w: OpSize::S64,
        }
    }

    /// the default operand size for instructions that default to 32-bit operands.
    #[verifier::when_used_as_spec(spec_sz_16_32_64_def_32)]
    pub fn sz_16_32_64_def_32() -> (size: Self)
        ensures
            size == Self::spec_sz_16_32_64_def_32(),
    {
        OpSizeInfo {
            with_operand_size_override: OpSize::S16,
            mode_32: OpSize::S32,
            mode_64: OpSize::S32,
            mode_64_with_rex_w: OpSize::S64,
        }
    }

    /// the default operand size for instructions that default to 64-bit operands.
    pub open spec fn spec_sz_16_32_64_def_64() -> Self {
        OpSizeInfo {
            with_operand_size_override: OpSize::S16,
            mode_32: OpSize::S32,
            mode_64: OpSize::S64,
            mode_64_with_rex_w: OpSize::S64,
        }
    }

    /// the default operand size for instructions that default to 64-bit operands.
    #[verifier::when_used_as_spec(spec_sz_16_32_64_def_64)]
    pub fn sz_16_32_64_def_64() -> (size: Self)
        ensures
            size == Self::spec_sz_16_32_64_def_64(),
    {
        OpSizeInfo {
            with_operand_size_override: OpSize::S16,
            mode_32: OpSize::S32,
            mode_64: OpSize::S64,
            mode_64_with_rex_w: OpSize::S64,
        }
    }

    /// a common size info for immediate encodings that are either 16 or 32 bits.
    pub open spec fn spec_sz_imm_encoding_16_32() -> Self {
        OpSizeInfo {
            with_operand_size_override: OpSize::S16,
            mode_32: OpSize::S32,
            mode_64: OpSize::S32,
            mode_64_with_rex_w: OpSize::S32,
        }
    }

    /// a common size info for immediate encodings that are either 16 or 32 bits.
    #[verifier::when_used_as_spec(spec_sz_imm_encoding_16_32)]
    pub fn sz_imm_encoding_16_32() -> (size: Self)
        ensures
            size == Self::spec_sz_imm_encoding_16_32(),
    {
        OpSizeInfo {
            with_operand_size_override: OpSize::S16,
            mode_32: OpSize::S32,
            mode_64: OpSize::S32,
            mode_64_with_rex_w: OpSize::S32,
        }
    }

}

impl View for OpSizeInfo {
    type V = OpSizeInfo;

    open spec fn view(&self) -> OpSizeInfo {
        *self
    }
}

impl Descriptor for OpSizeInfo {
    fn same(&self, other: &Self) -> (r: bool) {
        *self == *other
    }
}

#[derive(Debug, Clone, Copy, PartialEq, Eq, Hash, Structural)]
pub struct ImmOpInfo {
    pub encoded_size: OpSizeInfo,
    pub extended_size: OpSizeInfo,
    pub extend_kind: ImmExtendKind,
}

#[derive(Debug, Clone, Copy, PartialEq, Eq, Hash, Structural)]
pub struct SpecificImmOpInfo {
    pub value: SpecificImm,
    pub operand_size: OpSizeInfo,
}

#[derive(Debug, Clone, Copy, PartialEq, Eq, Hash, Structural)]
pub struct MemOffsetOpInfo {
    pub mem_operand_size: OpSizeInfo,
}

#[derive(Debug, Clone, Copy, PartialEq, Eq, Hash, Structural)]
pub struct RegOpInfo {
    pub encoding: RegEncoding,
    pub size: OpSizeInfo,
}

#[derive(Debug, Clone, Copy, PartialEq, Eq, Hash, Structural)]
pub struct SpecificRegOpInfo {
    pub reg: SpecificReg,
    pub size: OpSizeInfo,
}

#[derive(Debug, Clone, Copy, PartialEq, Eq, Hash, Structural)]
pub struct ZextSpecificRegOpInfo {
    pub reg: SpecificReg,
    pub size: OpSizeInfo,
    pub extended_size: OpSizeInfo,
}

#[derive(Debug, Clone, Copy, PartialEq, Eq, Hash, Structural)]
pub struct RelOpInfo {
    pub size: OpSizeInfo,
}

/// An operand of an instruction.
#[derive(Debug, Clone, Copy, PartialEq, Eq, Hash, Structural)]
pub enum OpInfo {
    /// immediate operand
    Imm(ImmOpInfo),
    /// specific immediate which is enforced by the opcode
    SpecificImm(SpecificImmOpInfo),
    /// register operand
    Reg(RegOpInfo),
    /// rm operand
    Rm(OpSizeInfo),
    /// specific register which is enforced by the opcode
    SpecificReg(SpecificRegOpInfo),
    /// zero extended specific register which is enforced by the opcode
    ZextSpecificReg(ZextSpecificRegOpInfo),
    /// relative offset used for relative jumps
    Rel(OpSizeInfo),
    /// memory access by absolute address, for example `mov rcx, [0x1234]`
    MemOffset(MemOffsetOpInfo),
    /// an implicit operand which is not actually specified in the instruction, only its size is
    /// relevant.
    Implicit(OpSizeInfo),
    Cond,
}

impl OpInfo {
    /// The names of the variants, in the order of their declaration.
    pub open spec fn spec_variant_names() -> Seq<Seq<char>> {
        seq![
            "Imm"@,
            "SpecificImm"@,
            "Reg"@,
            "Rm"@,
            "SpecificReg"@,
            "ZextSpecificReg"@,
            "Rel"@,
            "MemOffset"@,
            "Implicit"@,
            "Cond"@,
        ]
    }

    /// The name of this value's variant.
    pub open spec fn spec_variant_name(self) -> Seq<char> {
        match self {
            OpInfo::Imm(_) => "Imm"@,
            OpInfo::SpecificImm(_) => "SpecificImm"@,
            OpInfo::Reg(_) => "Reg"@,
            OpInfo::Rm(_) => "Rm"@,
            OpInfo::SpecificReg(_) => "SpecificReg"@,
            OpInfo::ZextSpecificReg(_) => "ZextSpecificReg"@,
            OpInfo::Rel(_) => "Rel"@,
            OpInfo::MemOffset(_) => "MemOffset"@,
            OpInfo::Implicit(_) => "Implicit"@,
            OpInfo::Cond => "Cond"@,
        }
    }

    /// The position of this value's variant in the order of declaration.
    pub open spec fn ordinal(self) -> nat {
        match self {
            OpInfo::Imm(_) => 0,
            OpInfo::SpecificImm(_) => 1,
            OpInfo::Reg(_) => 2,
            OpInfo::Rm(_) => 3,
            OpInfo::SpecificReg(_) => 4,
            OpInfo::ZextSpecificReg(_) => 5,
            OpInfo::Rel(_) => 6,
            OpInfo::MemOffset(_) => 7,
            OpInfo::Implicit(_) => 8,
            OpInfo::Cond => 9,
        }
    }

    /// The names of the variants, in the order of their declaration.
    pub fn variant_names() -> (names: Vec<&'static str>)
        ensures
            models(names@) == Self::spec_variant_names(),
    {
        let names = vec!["Imm", "SpecificImm", "Reg", "Rm", "SpecificReg", "ZextSpecificReg", "Rel", "MemOffset", "Implicit", "Cond"];
        assert(models(names@) =~= Self::spec_variant_names());
        names
    }

    /// The number of variants.
    pub fn variant_count() -> (count: usize)
        ensures
            count == Self::spec_variant_names().len(),
            count >= 1,
    {
        10
    }

    /// The name of this value's variant.
    pub fn variant_name(&self) -> (name: &'static str)
        ensures
            name@ == self.spec_variant_name(),
    {
        match self {
            OpInfo::Imm(_) => "Imm",
            OpInfo::SpecificImm(_) => "SpecificImm",
            OpInfo::Reg(_) => "Reg",
            OpInfo::Rm(_) => "Rm",
            OpInfo::SpecificReg(_) => "SpecificReg",
            OpInfo::ZextSpecificReg(_) => "ZextSpecificReg",
            OpInfo::Rel(_) => "Rel",
            OpInfo::MemOffset(_) => "MemOffset",
            OpInfo::Implicit(_) => "Implicit",
            OpInfo::Cond => "Cond",
        }
    }

    /// Each variant's name stands at the variant's ordinal in the list of names.
    pub proof fn lemma_variant_name_at_ordinal(self)
        ensures
            self.ordinal() < Self::spec_variant_names().len(),
            Self::spec_variant_names()[self.ordinal() as int] == self.spec_variant_name(),
    {
    }
}

impl OpInfo {
    pub open spec fn spec_rm_8() -> Self {
        OpInfo::Rm(OpSizeInfo::sz_always_8())
    }

    #[verifier::when_used_as_spec(spec_rm_8)]
    pub fn rm_8() -> (op: Self)
        ensures
            op == Self::spec_rm_8(),
    {
        OpInfo::Rm(OpSizeInfo::sz_always_8())
    }

    pub open spec fn spec_rm_16_32_64_def_32() -> Self {
        OpInfo::Rm(OpSizeInfo::sz_16_32_64_def_32())
    }

    #[verifier::when_used_as_spec(spec_rm_16_32_64_def_32)]
    pub fn rm_16_32_64_def_32() -> (op: Self)
        ensures
            op == Self::spec_rm_16_32_64_def_32(),
    {
        OpInfo::Rm(OpSizeInfo::sz_16_32_64_def_32())
    }

    pub open spec fn spec_rm_16_32_64_def_64() -> Self {
        OpInfo::Rm(OpSizeInfo::sz_16_32_64_def_64())
    }

    #[verifier::when_used_as_spec(spec_rm_16_32_64_def_64)]
    pub fn rm_16_32_64_def_64() -> (op: Self)
        ensures
            op == Self::spec_rm_16_32_64_def_64(),
    {
        OpInfo::Rm(OpSizeInfo::sz_16_32_64_def_64())
    }

    pub open spec fn spec_r_modrm_8() -> Self {
        OpInfo::Reg(RegOpInfo { encoding: RegEncoding::Modrm, size: OpSizeInfo::sz_always_8() })
    }

    #[verifier::when_used_as_spec(spec_r_modrm_8)]
    pub fn r_modrm_8() -> (op: Self)
        ensures
            op == Self::spec_r_modrm_8(),
    {
        OpInfo::Reg(RegOpInfo { encoding: RegEncoding::Modrm, size: OpSizeInfo::sz_always_8() })
    }

    pub open spec fn spec_r_modrm_16_32_64_def_32() -> Self {
        OpInfo::Reg(
            RegOpInfo { encoding: RegEncoding::Modrm, size: OpSizeInfo::sz_16_32_64_def_32() },
        )
    }

    #[verifier::when_used_as_spec(spec_r_modrm_16_32_64_def_32)]
    pub fn r_modrm_16_32_64_def_32() -> (op: Self)
        ensures
            op == Self::spec_r_modrm_16_32_64_def_32(),
    {
        OpInfo::Reg(
            RegOpInfo { encoding: RegEncoding::Modrm, size: OpSizeInfo::sz_16_32_64_def_32() },
        )
    }

    pub open spec fn spec_r_opcode_8() -> Self {
        OpInfo::Reg(RegOpInfo { encoding: RegEncoding::Opcode, size: OpSizeInfo::sz_always_8() })
    }

    #[verifier::when_used_as_spec(spec_r_opcode_8)]
    pub fn r_opcode_8() -> (op: Self)
        ensures
            op == Self::spec_r_opcode_8(),
    {
        OpInfo::Reg(RegOpInfo { encoding: RegEncoding::Opcode, size: OpSizeInfo::sz_always_8() })
    }

    pub open spec fn spec_r_opcode_16_32_64_def_32() -> Self {
        OpInfo::Reg(
            RegOpInfo { encoding: RegEncoding::Opcode, size: OpSizeInfo::sz_16_32_64_def_32() },
        )
    }

    #[verifier::when_used_as_spec(spec_r_opcode_16_32_64_def_32)]
    pub fn r_opcode_16_32_64_def_32() -> (op: Self)
        ensures
            op == Self::spec_r_opcode_16_32_64_def_32(),
    {
        OpInfo::Reg(
            RegOpInfo { encoding: RegEncoding::Opcode, size: OpSizeInfo::sz_16_32_64_def_32() },
        )
    }

    pub open spec fn spec_r_opcode_16_32_64_def_64() -> Self {
        OpInfo::Reg(
            RegOpInfo { encoding: RegEncoding::Opcode, size: OpSizeInfo::sz_16_32_64_def_64() },
        )
    }

    #[verifier::when_used_as_spec(spec_r_opcode_16_32_64_def_64)]
    pub fn r_opcode_16_32_64_def_64() -> (op: Self)
        ensures
            op == Self::spec_r_opcode_16_32_64_def_64(),
    {
        OpInfo::Reg(
            RegOpInfo { encoding: RegEncoding::Opcode, size: OpSizeInfo::sz_16_32_64_def_64() },
        )
    }

    pub open spec fn spec_al() -> Self {
        OpInfo::SpecificReg(
            SpecificRegOpInfo { size: OpSizeInfo::sz_always_8(), reg: SpecificReg::Rax },
        )
    }

    #[verifier::when_used_as_spec(spec_al)]
    pub fn al() -> (op: Self)
        ensures
            op == Self::spec_al(),
    {
        OpInfo::SpecificReg(
            SpecificRegOpInfo { size: OpSizeInfo::sz_always_8(), reg: SpecificReg::Rax },
        )
    }

    pub open spec fn spec_ax_16_32_64_def_32() -> Self {
        OpInfo::SpecificReg(
            SpecificRegOpInfo { size: OpSizeInfo::sz_16_32_64_def_32(), reg: SpecificReg::Rax },
        )
    }

    #[verifier::when_used_as_spec(spec_ax_16_32_64_def_32)]
    pub fn ax_16_32_64_def_32() -> (op: Self)
        ensures
            op == Self::spec_ax_16_32_64_def_32(),
    {
        OpInfo::SpecificReg(
            SpecificRegOpInfo { size: OpSizeInfo::sz_16_32_64_def_32(), reg: SpecificReg::Rax },
        )
    }

    pub open spec fn spec_dx_16_32_64_def_32() -> Self {
        OpInfo::SpecificReg(
            SpecificRegOpInfo { size: OpSizeInfo::sz_16_32_64_def_32(), reg: SpecificReg::Rdx },
        )
    }

    #[verifier::when_used_as_spec(spec_dx_16_32_64_def_32)]
    pub fn dx_16_32_64_def_32() -> (op: Self)
        ensures
            op == Self::spec_dx_16_32_64_def_32(),
    {
        OpInfo::SpecificReg(
            SpecificRegOpInfo { size: OpSizeInfo::sz_16_32_64_def_32(), reg: SpecificReg::Rdx },
        )
    }

    pub open spec fn spec_cl() -> Self {
        OpInfo::SpecificReg(
            SpecificRegOpInfo { size: OpSizeInfo::sz_always_8(), reg: SpecificReg::Rcx },
        )
    }

    #[verifier::when_used_as_spec(spec_cl)]
    pub fn cl() -> (op: Self)
        ensures
            op == Self::spec_cl(),
    {
        OpInfo::SpecificReg(
            SpecificRegOpInfo { size: OpSizeInfo::sz_always_8(), reg: SpecificReg::Rcx },
        )
    }

    /// an 8-bit immediate which should not be sign/zero extended.
    pub open spec fn spec_imm_8_no_ext() -> Self {
        OpInfo::Imm(
            ImmOpInfo {
                encoded_size: OpSizeInfo::sz_always_8(),
                extended_size: OpSizeInfo::sz_always_8(),
                extend_kind: ImmExtendKind::SignExtend,
            },
        )
    }

    /// an 8-bit immediate which should not be sign/zero extended.
    #[verifier::when_used_as_spec(spec_imm_8_no_ext)]
    pub fn imm_8_no_ext() -> (op: Self)
        ensures
            op == Self::spec_imm_8_no_ext(),
    {
        OpInfo::Imm(
            ImmOpInfo {
                encoded_size: OpSizeInfo::sz_always_8(),
                extended_size: OpSizeInfo::sz_always_8(),
                extend_kind: ImmExtendKind::SignExtend,
            },
        )
    }

    /// a 32 bit relative offset
    pub open spec fn spec_rel_32() -> Self {
        OpInfo::Rel(OpSizeInfo::sz_imm_encoding_16_32())
    }

    /// a 32 bit relative offset
    #[verifier::when_used_as_spec(spec_rel_32)]
    pub fn rel_32() -> (op: Self)
        ensures
            op == Self::spec_rel_32(),
    {
        OpInfo::Rel(OpSizeInfo::sz_imm_encoding_16_32())
    }

}

impl View for OpInfo {
    type V = OpInfo;

    open spec fn view(&self) -> OpInfo {
        *self
    }
}

impl Descriptor for OpInfo {
    fn same(&self, other: &Self) -> (r: bool) {
        *self == *other
    }
}

/// Whether two texts hold the same characters.
pub fn same_text(a: &str, b: &str) -> (r: bool)
    ensures
        r == (a@ == b@),
{
    let left = a.as_bytes();
    let right = b.as_bytes();
    proof {
        encode_utf8_decode_utf8(a@);
        encode_utf8_decode_utf8(b@);
    }
    if left.len() != right.len() {
        return false;
    }
    let mut i: usize = 0;
    while i < left.len()
        invariant
            i <= left.len(),
            left@.len() == right@.len(),
            left@ == encode_utf8(a@),
            right@ == encode_utf8(b@),
            forall|k: int| 0 <= k < i ==> left@[k] == right@[k],
        decreases left.len() - i,
    {
        if left[i] != right[i] {
            return false;
        }
        i += 1;
    }
    assert(left@ =~= right@);
    true
}

impl Descriptor for &'static str {
    fn same(&self, other: &Self) -> (r: bool) {
        same_text(*self, *other)
    }
}

impl Descriptor for Vec<OpInfo> {
    fn same(&self, other: &Self) -> (r: bool) {
        if self.len() != other.len() {
            return false;
        }
        let mut i: usize = 0;
        while i < self.len()
            invariant
                i <= self.len(),
                self.len() == other.len(),
                forall|k: int| 0 <= k < i ==> self@[k] == other@[k],
            decreases self.len() - i,
        {
            if !self[i].same(&other[i]) {
                return false;
            }
            i += 1;
        }
        assert(self@ =~= other@);
        true
    }
}

/// An empty operand list.
pub fn no_ops() -> (ops: Ops)
    ensures
        ops@ == Seq::<OpInfo>::empty(),
{
    Vec::new()
}

/// A list of one operand.
pub fn one_op(first: OpInfo) -> (ops: Ops)
    ensures
        ops@ == seq![first],
{
    let ops = vec![first];
    assert(ops@ =~= seq![first]);
    ops
}

/// A list of two operands.
pub fn two_ops(first: OpInfo, second: OpInfo) -> (ops: Ops)
    ensures
        ops@ == seq![first, second],
{
    let ops = vec![first, second];
    assert(ops@ =~= seq![first, second]);
    ops
}

/// A list of three operands.
pub fn three_ops(first: OpInfo, second: OpInfo, third: OpInfo) -> (ops: Ops)
    ensures
        ops@ == seq![first, second, third],
{
    let ops = vec![first, second, third];
    assert(ops@ =~= seq![first, second, third]);
    ops
}

/// What a [`RegularInsnInfo`] holds.
pub struct RegularInsnModel {
    pub mnemonic: Seq<char>,
    pub ops: Seq<OpInfo>,
}

/// An instruction that its opcode byte selects alone.
#[derive(Debug, PartialEq, Eq, Hash)]
pub struct RegularInsnInfo {
    pub mnemonic: Mnemonic,
    pub ops: Ops,
}

impl View for RegularInsnInfo {
    type V = RegularInsnModel;

    open spec fn view(&self) -> RegularInsnModel {
        RegularInsnModel { mnemonic: self.mnemonic@, ops: self.ops@ }
    }
}

impl Clone for RegularInsnInfo {
    fn clone(&self) -> (copy: Self)
        ensures
            copy@ == self@,
    {
        RegularInsnInfo { mnemonic: self.mnemonic, ops: self.ops.clone() }
    }
}

impl Descriptor for RegularInsnInfo {
    fn same(&self, other: &Self) -> (r: bool) {
        same_text(self.mnemonic, other.mnemonic) && self.ops.same(&other.ops)
    }
}

impl RegularInsnInfo {
    /// What the entry of an opcode that the table does not describe holds.
    pub open spec fn unsupported_model() -> RegularInsnModel {
        RegularInsnModel { mnemonic: MNEMONIC_UNSUPPORTED@, ops: Seq::empty() }
    }

    /// The entry of an opcode that the table does not describe.
    pub fn unsupported() -> (info: Self)
        ensures
            info@ == Self::unsupported_model(),
    {
        RegularInsnInfo { mnemonic: MNEMONIC_UNSUPPORTED, ops: Vec::new() }
    }
}

/// The eight instructions that share one opcode byte and are told apart by the `reg` field
/// of the ModRM byte.
#[derive(Debug, PartialEq, Eq, Hash)]
pub struct ModrmRegOpcodeExtInsnInfo {
    pub by_reg_value: [RegularInsnInfo; 8],
}

impl View for ModrmRegOpcodeExtInsnInfo {
    type V = Seq<RegularInsnModel>;

    open spec fn view(&self) -> Seq<RegularInsnModel> {
        models(self.by_reg_value@)
    }
}

impl Clone for ModrmRegOpcodeExtInsnInfo {
    fn clone(&self) -> (copy: Self)
        ensures
            copy@ == self@,
    {
        let copy = ModrmRegOpcodeExtInsnInfo {
            by_reg_value: [
                self.by_reg_value[0].clone(),
                self.by_reg_value[1].clone(),
                self.by_reg_value[2].clone(),
                self.by_reg_value[3].clone(),
                self.by_reg_value[4].clone(),
                self.by_reg_value[5].clone(),
                self.by_reg_value[6].clone(),
                self.by_reg_value[7].clone(),
            ],
        };
        assert(copy@ =~= self@);
        copy
    }
}

impl Descriptor for ModrmRegOpcodeExtInsnInfo {
    fn same(&self, other: &Self) -> (r: bool) {
        let mut i: usize = 0;
        while i < 8
            invariant
                i <= 8,
                forall|k: int| 0 <= k < i ==> self.by_reg_value@[k]@ == other.by_reg_value@[k]@,
            decreases 8 - i,
        {
            if !self.by_reg_value[i].same(&other.by_reg_value[i]) {
                assert(self@[i as int] != other@[i as int]);
                return false;
            }
            i += 1;
        }
        assert(self@ =~= other@);
        true
    }
}

/// Eight instructions with the given mnemonics that all take the operands `ops`.
pub open spec fn same_operands_table(ops: Seq<OpInfo>, mnemonics: Seq<Seq<char>>) -> Seq<
    RegularInsnModel,
> {
    Seq::new(8, |i: int| RegularInsnModel { mnemonic: mnemonics[i], ops })
}

impl ModrmRegOpcodeExtInsnInfo {
    /// The eight instructions given, in the order of their numbers in the `reg` field.
    pub fn new(by_reg_value: [RegularInsnInfo; 8]) -> (info: Self)
        ensures
            info@ == seq![
                by_reg_value@[0]@,
                by_reg_value@[1]@,
                by_reg_value@[2]@,
                by_reg_value@[3]@,
                by_reg_value@[4]@,
                by_reg_value@[5]@,
                by_reg_value@[6]@,
                by_reg_value@[7]@,
            ],
    {
        let info = ModrmRegOpcodeExtInsnInfo { by_reg_value };
        assert(info@ =~= seq![
            by_reg_value@[0]@,
            by_reg_value@[1]@,
            by_reg_value@[2]@,
            by_reg_value@[3]@,
            by_reg_value@[4]@,
            by_reg_value@[5]@,
            by_reg_value@[6]@,
            by_reg_value@[7]@,
        ]);
        info
    }

    /// Eight instructions with the given mnemonics that all take the operands `ops`.
    pub fn new_with_same_operands(ops: Ops, mnemonics: [Mnemonic; 8]) -> (info: Self)
        ensures
            info@ == same_operands_table(ops@, models(mnemonics@)),
    {
        let info = ModrmRegOpcodeExtInsnInfo {
            by_reg_value: [
                RegularInsnInfo { mnemonic: mnemonics[0], ops: ops.clone() },
                RegularInsnInfo { mnemonic: mnemonics[1], ops: ops.clone() },
                RegularInsnInfo { mnemonic: mnemonics[2], ops: ops.clone() },
                RegularInsnInfo { mnemonic: mnemonics[3], ops: ops.clone() },
                RegularInsnInfo { mnemonic: mnemonics[4], ops: ops.clone() },
                RegularInsnInfo { mnemonic: mnemonics[5], ops: ops.clone() },
                RegularInsnInfo { mnemonic: mnemonics[6], ops: ops.clone() },
                RegularInsnInfo { mnemonic: mnemonics[7], ops },
            ],
        };
        assert(info@ =~= same_operands_table(ops@, models(mnemonics@)));
        info
    }
}

/// What an [`InsnInfo`] holds.
pub enum InsnModel {
    Regular(RegularInsnModel),
    ModrmRegOpcodeExt(Seq<RegularInsnModel>),
}

/// What one opcode byte selects.
#[derive(Debug)]
pub enum InsnInfo {
    Regular(RegularInsnInfo),
    ModrmRegOpcodeExt(ModrmRegOpcodeExtInsnInfo),
}

impl View for InsnInfo {
    type V = InsnModel;

    open spec fn view(&self) -> InsnModel {
        match self {
            InsnInfo::Regular(info) => InsnModel::Regular(info@),
            InsnInfo::ModrmRegOpcodeExt(info) => InsnModel::ModrmRegOpcodeExt(info@),
        }
    }
}

impl Clone for InsnInfo {
    fn clone(&self) -> (copy: Self)
        ensures
            copy@ == self@,
    {
        match self {
            InsnInfo::Regular(info) => InsnInfo::Regular(info.clone()),
            InsnInfo::ModrmRegOpcodeExt(info) => InsnInfo::ModrmRegOpcodeExt(info.clone()),
        }
    }
}

} // verus!
