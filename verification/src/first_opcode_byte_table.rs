//! The table of the one-byte opcodes.

use crate::table_compiler::{operand_lists_within, regular_insns_of};
use crate::table_gen_utils::{
    push_insn, regular_entry, repeat, simple_binary_op, simple_binary_op_entries, unsupported,
    unsupported_entry,
};
use crate::table_types::{
    no_ops, one_op, same_operands_table, three_ops, two_ops, ImmExtendKind, ImmOpInfo, InsnInfo,
    InsnModel, MemOffsetOpInfo, Mnemonic, ModrmRegOpcodeExtInsnInfo, OpInfo, OpSize, OpSizeInfo,
    RegularInsnInfo, RegularInsnModel, SpecificImm, SpecificImmOpInfo, SpecificReg,
    SpecificRegOpInfo, ZextSpecificRegOpInfo, MNEMONIC_UNSUPPORTED,
};
use crate::unique_set::models;
use vstd::prelude::*;

verus! {

/// The two-operand arithmetic instructions, in the order of their opcodes and of their
/// numbers in the `reg` field of the ModRM byte.
pub const SIMPLE_BINOP_MNEMONICS: [Mnemonic; 8] =
    ["add", "or", "adc", "sbb", "and", "sub", "xor", "cmp"];

/// The shift and rotate instructions, in the order of their numbers in the `reg` field of the
/// ModRM byte.
pub const SHIFT_BINOP_MNEMONICS: [Mnemonic; 8] = [
    "rol",
    "ror",
    "rcl",
    "rcr",
    "shl",
    "shr",
    MNEMONIC_UNSUPPORTED,
    "sar",
];

/// What the opcodes 0x00 to 0x3f select.
pub open spec fn first_opcode_byte_insn_00_3f(opcode: int) -> InsnModel {
    if opcode % 8 < 6 {
        simple_binary_op_entries(SIMPLE_BINOP_MNEMONICS@[opcode / 8]@)[opcode % 8]
    } else {
        unsupported_entry()
    }
}

/// What the opcodes 0x40 to 0x4f select.
pub open spec fn first_opcode_byte_insn_40_4f(opcode: int) -> InsnModel {
    if opcode < 0x48 {
        regular_entry("inc"@, seq![OpInfo::r_opcode_16_32_64_def_32()])
    } else {
        regular_entry("dec"@, seq![OpInfo::r_opcode_16_32_64_def_32()])
    }
}

/// What the opcodes 0x50 to 0x5f select.
pub open spec fn first_opcode_byte_insn_50_5f(opcode: int) -> InsnModel {
    if opcode < 0x58 {
        regular_entry("push"@, seq![OpInfo::r_opcode_16_32_64_def_64()])
    } else {
        regular_entry("pop"@, seq![OpInfo::r_opcode_16_32_64_def_64()])
    }
}

/// What the opcodes 0x60 to 0x6f select.
pub open spec fn first_opcode_byte_insn_60_6f(opcode: int) -> InsnModel {
    if opcode < 0x63 {
        unsupported_entry()
    } else if opcode < 0x64 {
        regular_entry(
            "movsxd"@,
            seq![
                OpInfo::rm_16_32_64_def_32(),
                OpInfo::Rm(
                    OpSizeInfo {
                        with_operand_size_override: OpSize::S16,
                        mode_32: OpSize::S32,
                        mode_64: OpSize::S32,
                        mode_64_with_rex_w: OpSize::S32,
                    },
                ),
            ],
        )
    } else if opcode < 0x68 {
        unsupported_entry()
    } else if opcode < 0x69 {
        regular_entry(
            "push"@,
            seq![
                OpInfo::Imm(
                    ImmOpInfo {
                        encoded_size: OpSizeInfo::sz_imm_encoding_16_32(),
                        extended_size: OpSizeInfo::sz_16_32_64_def_64(),
                        extend_kind: ImmExtendKind::SignExtend,
                    },
                ),
            ],
        )
    } else if opcode < 0x6a {
        regular_entry(
            "imul"@,
            seq![
                OpInfo::r_modrm_16_32_64_def_32(),
                OpInfo::rm_16_32_64_def_32(),
                OpInfo::Imm(
                    ImmOpInfo {
                        encoded_size: OpSizeInfo::sz_imm_encoding_16_32(),
                        extended_size: OpSizeInfo::sz_16_32_64_def_32(),
                        extend_kind: ImmExtendKind::SignExtend,
                    },
                ),
            ],
        )
    } else if opcode < 0x6b {
        regular_entry(
            "push"@,
            seq![
                OpInfo::Imm(
                    ImmOpInfo {
                        encoded_size: OpSizeInfo::sz_always_8(),
                        extended_size: OpSizeInfo::sz_16_32_64_def_64(),
                        extend_kind: ImmExtendKind::SignExtend,
                    },
                ),
            ],
        )
    } else if opcode < 0x6c {
        regular_entry(
            "imul"@,
            seq![
                OpInfo::r_modrm_16_32_64_def_32(),
                OpInfo::rm_16_32_64_def_32(),
                OpInfo::Imm(
                    ImmOpInfo {
                        encoded_size: OpSizeInfo::sz_always_8(),
                        extended_size: OpSizeInfo::sz_16_32_64_def_32(),
                        extend_kind: ImmExtendKind::SignExtend,
                    },
                ),
            ],
        )
    } else {
        unsupported_entry()
    }
}

/// What the opcodes 0x70 to 0x7f select.
pub open spec fn first_opcode_byte_insn_70_7f(opcode: int) -> InsnModel {
    regular_entry("jcc"@, seq![OpInfo::Cond, OpInfo::Rel(OpSizeInfo::sz_always_8())])
}

/// What the opcodes 0x80 to 0x8b select.
pub open spec fn first_opcode_byte_insn_80_8b(opcode: int) -> InsnModel {
    if opcode < 0x81 {
        InsnModel::ModrmRegOpcodeExt(
            same_operands_table(
                seq![OpInfo::rm_8(), OpInfo::imm_8_no_ext()],
                models(SIMPLE_BINOP_MNEMONICS@),
            ),
        )
    } else if opcode < 0x82 {
        InsnModel::ModrmRegOpcodeExt(
            same_operands_table(
                seq![
                    OpInfo::rm_16_32_64_def_32(),
                    OpInfo::Imm(
                        ImmOpInfo {
                            encoded_size: OpSizeInfo::sz_imm_encoding_16_32(),
                            extended_size: OpSizeInfo::sz_16_32_64_def_32(),
                            extend_kind: ImmExtendKind::SignExtend,
                        },
                    ),
                ],
                models(SIMPLE_BINOP_MNEMONICS@),
            ),
        )
    } else if opcode < 0x83 {
        unsupported_entry()
    } else if opcode < 0x84 {
        InsnModel::ModrmRegOpcodeExt(
            same_operands_table(
                seq![
                    OpInfo::rm_16_32_64_def_32(),
                    OpInfo::Imm(
                        ImmOpInfo {
                            encoded_size: OpSizeInfo::sz_always_8(),
                            extended_size: OpSizeInfo::sz_16_32_64_def_32(),
                            extend_kind: ImmExtendKind::SignExtend,
                        },
                    ),
                ],
                models(SIMPLE_BINOP_MNEMONICS@),
            ),
        )
    } else if opcode < 0x85 {
        regular_entry("test"@, seq![OpInfo::rm_8(), OpInfo::r_modrm_8()])
    } else if opcode < 0x86 {
        regular_entry(
            "test"@,
            seq![OpInfo::rm_16_32_64_def_32(), OpInfo::r_modrm_16_32_64_def_32()],
        )
    } else if opcode < 0x87 {
        regular_entry("xchg"@, seq![OpInfo::rm_8(), OpInfo::r_modrm_8()])
    } else if opcode < 0x88 {
        regular_entry(
            "xchg"@,
            seq![OpInfo::rm_16_32_64_def_32(), OpInfo::r_modrm_16_32_64_def_32()],
        )
    } else if opcode < 0x89 {
        regular_entry("mov"@, seq![OpInfo::rm_8(), OpInfo::r_modrm_8()])
    } else if opcode < 0x8a {
        regular_entry("mov"@, seq![OpInfo::rm_16_32_64_def_32(), OpInfo::r_modrm_16_32_64_def_32()])
    } else if opcode < 0x8b {
        regular_entry("mov"@, seq![OpInfo::r_modrm_8(), OpInfo::rm_8()])
    } else {
        regular_entry("mov"@, seq![OpInfo::r_modrm_16_32_64_def_32(), OpInfo::rm_16_32_64_def_32()])
    }
}

/// What the opcodes 0x8c to 0x99 select.
pub open spec fn first_opcode_byte_insn_8c_99(opcode: int) -> InsnModel {
    if opcode < 0x8d {
        unsupported_entry()
    } else if opcode < 0x8e {
        regular_entry("lea"@, seq![OpInfo::r_modrm_16_32_64_def_32(), OpInfo::rm_16_32_64_def_32()])
    } else if opcode < 0x8f {
        unsupported_entry()
    } else if opcode < 0x90 {
        InsnModel::ModrmRegOpcodeExt(
            seq![
                RegularInsnModel { mnemonic: "pop"@, ops: seq![OpInfo::rm_16_32_64_def_64()] },
                RegularInsnInfo::unsupported_model(),
                RegularInsnInfo::unsupported_model(),
                RegularInsnInfo::unsupported_model(),
                RegularInsnInfo::unsupported_model(),
                RegularInsnInfo::unsupported_model(),
                RegularInsnInfo::unsupported_model(),
                RegularInsnInfo::unsupported_model(),
            ],
        )
    } else if opcode < 0x91 {
        regular_entry("nop"@, seq![])
    } else if opcode < 0x98 {
        regular_entry(
            "xchg"@,
            seq![OpInfo::ax_16_32_64_def_32(), OpInfo::r_opcode_16_32_64_def_32()],
        )
    } else if opcode < 0x99 {
        regular_entry(
            "movsz"@,
            seq![
                OpInfo::ax_16_32_64_def_32(),
                OpInfo::SpecificReg(
                    SpecificRegOpInfo {
                        reg: SpecificReg::Rax,
                        size: OpSizeInfo {
                            with_operand_size_override: OpSize::S8,
                            mode_32: OpSize::S16,
                            mode_64: OpSize::S16,
                            mode_64_with_rex_w: OpSize::S32,
                        },
                    },
                ),
            ],
        )
    } else {
        regular_entry("cwd"@, seq![OpInfo::dx_16_32_64_def_32(), OpInfo::ax_16_32_64_def_32()])
    }
}

/// What the opcodes 0x9a to 0xa9 select.
pub open spec fn first_opcode_byte_insn_9a_a9(opcode: int) -> InsnModel {
    if opcode < 0xa0 {
        unsupported_entry()
    } else if opcode < 0xa1 {
        regular_entry(
            "mov"@,
            seq![
                OpInfo::al(),
                OpInfo::MemOffset(MemOffsetOpInfo { mem_operand_size: OpSizeInfo::sz_always_8() }),
            ],
        )
    } else if opcode < 0xa2 {
        regular_entry(
            "mov"@,
            seq![
                OpInfo::ax_16_32_64_def_32(),
                OpInfo::MemOffset(
                    MemOffsetOpInfo { mem_operand_size: OpSizeInfo::sz_16_32_64_def_32() },
                ),
            ],
        )
    } else if opcode < 0xa3 {
        regular_entry(
            "mov"@,
            seq![
                OpInfo::MemOffset(MemOffsetOpInfo { mem_operand_size: OpSizeInfo::sz_always_8() }),
                OpInfo::al(),
            ],
        )
    } else if opcode < 0xa4 {
        regular_entry(
            "mov"@,
            seq![
                OpInfo::MemOffset(
                    MemOffsetOpInfo { mem_operand_size: OpSizeInfo::sz_16_32_64_def_32() },
                ),
                OpInfo::ax_16_32_64_def_32(),
            ],
        )
    } else if opcode < 0xa5 {
        regular_entry("movs"@, seq![OpInfo::Implicit(OpSizeInfo::sz_always_8())])
    } else if opcode < 0xa6 {
        regular_entry("movs"@, seq![OpInfo::Implicit(OpSizeInfo::sz_16_32_64_def_32())])
    } else if opcode < 0xa7 {
        regular_entry("cmps"@, seq![OpInfo::Implicit(OpSizeInfo::sz_always_8())])
    } else if opcode < 0xa8 {
        regular_entry("cmps"@, seq![OpInfo::Implicit(OpSizeInfo::sz_16_32_64_def_32())])
    } else if opcode < 0xa9 {
        regular_entry("test"@, seq![OpInfo::al(), OpInfo::imm_8_no_ext()])
    } else {
        regular_entry(
            "test"@,
            seq![
                OpInfo::ax_16_32_64_def_32(),
                OpInfo::Imm(
                    ImmOpInfo {
                        encoded_size: OpSizeInfo::sz_imm_encoding_16_32(),
                        extended_size: OpSizeInfo::sz_16_32_64_def_32(),
                        extend_kind: ImmExtendKind::SignExtend,
                    },
                ),
            ],
        )
    }
}

/// What the opcodes 0xaa to 0xb7 select.
pub open spec fn first_opcode_byte_insn_aa_b7(opcode: int) -> InsnModel {
    if opcode < 0xab {
        regular_entry("stos"@, seq![OpInfo::Implicit(OpSizeInfo::sz_always_8())])
    } else if opcode < 0xac {
        regular_entry("stos"@, seq![OpInfo::Implicit(OpSizeInfo::sz_16_32_64_def_32())])
    } else if opcode < 0xad {
        regular_entry("lods"@, seq![OpInfo::Implicit(OpSizeInfo::sz_always_8())])
    } else if opcode < 0xae {
        regular_entry("lods"@, seq![OpInfo::Implicit(OpSizeInfo::sz_16_32_64_def_32())])
    } else if opcode < 0xaf {
        regular_entry("scas"@, seq![OpInfo::Implicit(OpSizeInfo::sz_always_8())])
    } else if opcode < 0xb0 {
        regular_entry("scas"@, seq![OpInfo::Implicit(OpSizeInfo::sz_16_32_64_def_32())])
    } else {
        regular_entry("mov"@, seq![OpInfo::r_opcode_8(), OpInfo::imm_8_no_ext()])
    }
}

/// What the opcodes 0xb8 to 0xc7 select.
pub open spec fn first_opcode_byte_insn_b8_c7(opcode: int) -> InsnModel {
    if opcode < 0xc0 {
        regular_entry(
            "mov"@,
            seq![
                OpInfo::r_opcode_16_32_64_def_32(),
                OpInfo::Imm(
                    ImmOpInfo {
                        encoded_size: OpSizeInfo::sz_16_32_64_def_32(),
                        extended_size: OpSizeInfo::sz_16_32_64_def_32(),
                        extend_kind: ImmExtendKind::ZeroExtend,
                    },
                ),
            ],
        )
    } else if opcode < 0xc1 {
        InsnModel::ModrmRegOpcodeExt(
            same_operands_table(
                seq![OpInfo::rm_8(), OpInfo::imm_8_no_ext()],
                models(SHIFT_BINOP_MNEMONICS@),
            ),
        )
    } else if opcode < 0xc2 {
        InsnModel::ModrmRegOpcodeExt(
            same_operands_table(
                seq![
                    OpInfo::rm_16_32_64_def_32(),
                    OpInfo::Imm(
                        ImmOpInfo {
                            encoded_size: OpSizeInfo::sz_always_8(),
                            extended_size: OpSizeInfo::sz_16_32_64_def_32(),
                            extend_kind: ImmExtendKind::ZeroExtend,
                        },
                    ),
                ],
                models(SHIFT_BINOP_MNEMONICS@),
            ),
        )
    } else if opcode < 0xc3 {
        unsupported_entry()
    } else if opcode < 0xc4 {
        regular_entry("ret"@, seq![])
    } else if opcode < 0xc6 {
        unsupported_entry()
    } else if opcode < 0xc7 {
        InsnModel::ModrmRegOpcodeExt(
            seq![
                RegularInsnModel {
                    mnemonic: "mov"@,
                    ops: seq![OpInfo::rm_8(), OpInfo::imm_8_no_ext()],
                },
                RegularInsnInfo::unsupported_model(),
                RegularInsnInfo::unsupported_model(),
                RegularInsnInfo::unsupported_model(),
                RegularInsnInfo::unsupported_model(),
                RegularInsnInfo::unsupported_model(),
                RegularInsnInfo::unsupported_model(),
                RegularInsnInfo::unsupported_model(),
            ],
        )
    } else {
        InsnModel::ModrmRegOpcodeExt(
            seq![
                RegularInsnModel {
                    mnemonic: "mov"@,
                    ops: seq![
                        OpInfo::rm_16_32_64_def_32(),
                        OpInfo::Imm(
                            ImmOpInfo {
                                encoded_size: OpSizeInfo::sz_imm_encoding_16_32(),
                                extended_size: OpSizeInfo::sz_16_32_64_def_32(),
                                extend_kind: ImmExtendKind::SignExtend,
                            },
                        ),
                    ],
                },
                RegularInsnInfo::unsupported_model(),
                RegularInsnInfo::unsupported_model(),
                RegularInsnInfo::unsupported_model(),
                RegularInsnInfo::unsupported_model(),
                RegularInsnInfo::unsupported_model(),
                RegularInsnInfo::unsupported_model(),
                RegularInsnInfo::unsupported_model(),
            ],
        )
    }
}

/// What the opcodes 0xc8 to 0xd3 select.
pub open spec fn first_opcode_byte_insn_c8_d3(opcode: int) -> InsnModel {
    if opcode < 0xd0 {
        unsupported_entry()
    } else if opcode < 0xd1 {
        InsnModel::ModrmRegOpcodeExt(
            same_operands_table(
                seq![
                    OpInfo::rm_8(),
                    OpInfo::SpecificImm(
                        SpecificImmOpInfo {
                            value: SpecificImm::One,
                            operand_size: OpSizeInfo::sz_always_8(),
                        },
                    ),
                ],
                models(SHIFT_BINOP_MNEMONICS@),
            ),
        )
    } else if opcode < 0xd2 {
        InsnModel::ModrmRegOpcodeExt(
            same_operands_table(
                seq![
                    OpInfo::rm_16_32_64_def_32(),
                    OpInfo::SpecificImm(
                        SpecificImmOpInfo {
                            value: SpecificImm::One,
                            operand_size: OpSizeInfo::sz_16_32_64_def_32(),
                        },
                    ),
                ],
                models(SHIFT_BINOP_MNEMONICS@),
            ),
        )
    } else if opcode < 0xd3 {
        InsnModel::ModrmRegOpcodeExt(
            same_operands_table(seq![OpInfo::rm_8(), OpInfo::cl()], models(SHIFT_BINOP_MNEMONICS@)),
        )
    } else {
        InsnModel::ModrmRegOpcodeExt(
            same_operands_table(
                seq![
                    OpInfo::rm_16_32_64_def_32(),
                    OpInfo::ZextSpecificReg(
                        ZextSpecificRegOpInfo {
                            reg: SpecificReg::Rcx,
                            size: OpSizeInfo::sz_always_8(),
                            extended_size: OpSizeInfo::sz_16_32_64_def_32(),
                        },
                    ),
                ],
                models(SHIFT_BINOP_MNEMONICS@),
            ),
        )
    }
}

/// What the opcodes 0xd4 to 0xe7 select.
pub open spec fn first_opcode_byte_insn_d4_e7(opcode: int) -> InsnModel {
    unsupported_entry()
}

/// What the opcodes 0xe8 to 0xf7 select.
pub open spec fn first_opcode_byte_insn_e8_f7(opcode: int) -> InsnModel {
    if opcode < 0xe9 {
        regular_entry("call"@, seq![OpInfo::rel_32()])
    } else if opcode < 0xea {
        regular_entry("jmp"@, seq![OpInfo::rel_32()])
    } else if opcode < 0xeb {
        unsupported_entry()
    } else if opcode < 0xec {
        regular_entry("jmp"@, seq![OpInfo::Rel(OpSizeInfo::sz_always_8())])
    } else if opcode < 0xf4 {
        unsupported_entry()
    } else if opcode < 0xf5 {
        regular_entry("hlt"@, seq![])
    } else if opcode < 0xf6 {
        regular_entry("cmc"@, seq![])
    } else if opcode < 0xf7 {
        InsnModel::ModrmRegOpcodeExt(
            seq![
                RegularInsnModel {
                    mnemonic: "test"@,
                    ops: seq![OpInfo::rm_8(), OpInfo::imm_8_no_ext()],
                },
                RegularInsnInfo::unsupported_model(),
                RegularInsnModel { mnemonic: "not"@, ops: seq![OpInfo::rm_8()] },
                RegularInsnModel { mnemonic: "neg"@, ops: seq![OpInfo::rm_8()] },
                RegularInsnModel { mnemonic: "mul"@, ops: seq![OpInfo::rm_8()] },
                RegularInsnModel { mnemonic: "imul"@, ops: seq![OpInfo::rm_8()] },
                RegularInsnModel { mnemonic: "div"@, ops: seq![OpInfo::rm_8()] },
                RegularInsnModel { mnemonic: "idiv"@, ops: seq![OpInfo::rm_8()] },
            ],
        )
    } else {
        InsnModel::ModrmRegOpcodeExt(
            seq![
                RegularInsnModel {
                    mnemonic: "test"@,
                    ops: seq![
                        OpInfo::rm_16_32_64_def_32(),
                        OpInfo::Imm(
                            ImmOpInfo {
                                encoded_size: OpSizeInfo::sz_imm_encoding_16_32(),
                                extended_size: OpSizeInfo::sz_16_32_64_def_32(),
                                extend_kind: ImmExtendKind::SignExtend,
                            },
                        ),
                    ],
                },
                RegularInsnInfo::unsupported_model(),
                RegularInsnModel { mnemonic: "not"@, ops: seq![OpInfo::rm_16_32_64_def_32()] },
                RegularInsnModel { mnemonic: "neg"@, ops: seq![OpInfo::rm_16_32_64_def_32()] },
                RegularInsnModel { mnemonic: "mul"@, ops: seq![OpInfo::rm_16_32_64_def_32()] },
                RegularInsnModel { mnemonic: "imul"@, ops: seq![OpInfo::rm_16_32_64_def_32()] },
                RegularInsnModel { mnemonic: "div"@, ops: seq![OpInfo::rm_16_32_64_def_32()] },
                RegularInsnModel { mnemonic: "idiv"@, ops: seq![OpInfo::rm_16_32_64_def_32()] },
            ],
        )
    }
}

/// What the opcodes 0xf8 to 0xff select.
pub open spec fn first_opcode_byte_insn_f8_ff(opcode: int) -> InsnModel {
    if opcode < 0xf9 {
        regular_entry("clc"@, seq![])
    } else if opcode < 0xfa {
        regular_entry("stc"@, seq![])
    } else if opcode < 0xfb {
        regular_entry("cli"@, seq![])
    } else if opcode < 0xfc {
        regular_entry("sti"@, seq![])
    } else if opcode < 0xfd {
        regular_entry("cld"@, seq![])
    } else if opcode < 0xfe {
        regular_entry("std"@, seq![])
    } else if opcode < 0xff {
        InsnModel::ModrmRegOpcodeExt(
            seq![
                RegularInsnModel { mnemonic: "inc"@, ops: seq![OpInfo::rm_8()] },
                RegularInsnModel { mnemonic: "dec"@, ops: seq![OpInfo::rm_8()] },
                RegularInsnInfo::unsupported_model(),
                RegularInsnInfo::unsupported_model(),
                RegularInsnInfo::unsupported_model(),
                RegularInsnInfo::unsupported_model(),
                RegularInsnInfo::unsupported_model(),
                RegularInsnInfo::unsupported_model(),
            ],
        )
    } else {
        InsnModel::ModrmRegOpcodeExt(
            seq![
                RegularInsnModel { mnemonic: "inc"@, ops: seq![OpInfo::rm_16_32_64_def_32()] },
                RegularInsnModel { mnemonic: "dec"@, ops: seq![OpInfo::rm_16_32_64_def_32()] },
                RegularInsnModel {
                    mnemonic: "call"@,
                    ops: seq![
                        OpInfo::Rm(
                            OpSizeInfo {
                                with_operand_size_override: OpSize::S16,
                                mode_32: OpSize::S32,
                                mode_64: OpSize::S64,
                                mode_64_with_rex_w: OpSize::S64,
                            },
                        ),
                    ],
                },
                RegularInsnInfo::unsupported_model(),
                RegularInsnModel {
                    mnemonic: "jmp"@,
                    ops: seq![
                        OpInfo::Rm(
                            OpSizeInfo {
                                with_operand_size_override: OpSize::S16,
                                mode_32: OpSize::S32,
                                mode_64: OpSize::S64,
                                mode_64_with_rex_w: OpSize::S64,
                            },
                        ),
                    ],
                },
                RegularInsnInfo::unsupported_model(),
                RegularInsnModel { mnemonic: "jmp"@, ops: seq![OpInfo::rm_16_32_64_def_64()] },
                RegularInsnInfo::unsupported_model(),
            ],
        )
    }
}

/// What an opcode byte selects in the one-byte opcodes.
pub open spec fn first_opcode_byte_insn(opcode: int) -> InsnModel {
    if opcode < 0x40 {
        first_opcode_byte_insn_00_3f(opcode)
    } else if opcode < 0x50 {
        first_opcode_byte_insn_40_4f(opcode)
    } else if opcode < 0x60 {
        first_opcode_byte_insn_50_5f(opcode)
    } else if opcode < 0x70 {
        first_opcode_byte_insn_60_6f(opcode)
    } else if opcode < 0x80 {
        first_opcode_byte_insn_70_7f(opcode)
    } else if opcode < 0x8c {
        first_opcode_byte_insn_80_8b(opcode)
    } else if opcode < 0x9a {
        first_opcode_byte_insn_8c_99(opcode)
    } else if opcode < 0xaa {
        first_opcode_byte_insn_9a_a9(opcode)
    } else if opcode < 0xb8 {
        first_opcode_byte_insn_aa_b7(opcode)
    } else if opcode < 0xc8 {
        first_opcode_byte_insn_b8_c7(opcode)
    } else if opcode < 0xd4 {
        first_opcode_byte_insn_c8_d3(opcode)
    } else if opcode < 0xe8 {
        first_opcode_byte_insn_d4_e7(opcode)
    } else if opcode < 0xf8 {
        first_opcode_byte_insn_e8_f7(opcode)
    } else {
        first_opcode_byte_insn_f8_ff(opcode)
    }
}

/// The one-byte opcodes: what each of the 256 opcode bytes selects.
pub open spec fn first_opcode_byte_table_model() -> Seq<InsnModel> {
    Seq::new(256, |opcode: int| first_opcode_byte_insn(opcode))
}

/// Whether `entries` are the entries of the first `count` opcodes.
pub open spec fn first_opcode_byte_table_upto(entries: Seq<InsnModel>, count: int) -> bool {
    &&& entries.len() == count
    &&& forall|opcode: int|
        0 <= opcode < count ==> #[trigger] entries[opcode] == first_opcode_byte_insn(opcode)
}

/// Appends the entries of the opcodes 0x00 to 0x3f.
fn push_first_00_3f(table: &mut Vec<InsnInfo>)
    requires
        first_opcode_byte_table_upto(models(old(table)@), 0x00),
    ensures
        first_opcode_byte_table_upto(models(final(table)@), 0x40),
{
    // 0x00 - 0x05
    simple_binary_op(table, "add");
    assert(first_opcode_byte_table_upto(models(table@), 0x06));
    // 0x06 - 0x07
    unsupported(table, 2);
    assert(first_opcode_byte_table_upto(models(table@), 0x08));
    // 0x08 - 0x0d
    simple_binary_op(table, "or");
    assert(first_opcode_byte_table_upto(models(table@), 0x0e));
    // 0x0e - 0x0f
    unsupported(table, 2);
    assert(first_opcode_byte_table_upto(models(table@), 0x10));
    // 0x10 - 0x15
    simple_binary_op(table, "adc");
    assert(first_opcode_byte_table_upto(models(table@), 0x16));
    // 0x16 - 0x17
    unsupported(table, 2);
    assert(first_opcode_byte_table_upto(models(table@), 0x18));
    // 0x18 - 0x1d
    simple_binary_op(table, "sbb");
    assert(first_opcode_byte_table_upto(models(table@), 0x1e));
    // 0x1e - 0x1f
    unsupported(table, 2);
    assert(first_opcode_byte_table_upto(models(table@), 0x20));
    // 0x20 - 0x25
    simple_binary_op(table, "and");
    assert(first_opcode_byte_table_upto(models(table@), 0x26));
    // 0x26 - 0x27
    unsupported(table, 2);
    assert(first_opcode_byte_table_upto(models(table@), 0x28));
    // 0x28 - 0x2d
    simple_binary_op(table, "sub");
    assert(first_opcode_byte_table_upto(models(table@), 0x2e));
    // 0x2e - 0x2f
    unsupported(table, 2);
    assert(first_opcode_byte_table_upto(models(table@), 0x30));
    // 0x30 - 0x35
    simple_binary_op(table, "xor");
    assert(first_opcode_byte_table_upto(models(table@), 0x36));
    // 0x36 - 0x37
    unsupported(table, 2);
    assert(first_opcode_byte_table_upto(models(table@), 0x38));
    // 0x38 - 0x3d
    simple_binary_op(table, "cmp");
    assert(first_opcode_byte_table_upto(models(table@), 0x3e));
    // 0x3e - 0x3f
    unsupported(table, 2);
}

/// Appends the entries of the opcodes 0x40 to 0x4f.
fn push_first_40_4f(table: &mut Vec<InsnInfo>)
    requires
        first_opcode_byte_table_upto(models(old(table)@), 0x40),
    ensures
        first_opcode_byte_table_upto(models(final(table)@), 0x50),
{
    // 0x40 - 0x47
    repeat(
        table,
        8,
        InsnInfo::Regular(
            RegularInsnInfo { mnemonic: "inc", ops: one_op(OpInfo::r_opcode_16_32_64_def_32()) },
        ),
    );
    assert(first_opcode_byte_table_upto(models(table@), 0x48));
    // 0x48 - 0x4f
    repeat(
        table,
        8,
        InsnInfo::Regular(
            RegularInsnInfo { mnemonic: "dec", ops: one_op(OpInfo::r_opcode_16_32_64_def_32()) },
        ),
    );
}

/// Appends the entries of the opcodes 0x50 to 0x5f.
fn push_first_50_5f(table: &mut Vec<InsnInfo>)
    requires
        first_opcode_byte_table_upto(models(old(table)@), 0x50),
    ensures
        first_opcode_byte_table_upto(models(final(table)@), 0x60),
{
    // 0x50 - 0x57
    repeat(
        table,
        8,
        InsnInfo::Regular(
            RegularInsnInfo { mnemonic: "push", ops: one_op(OpInfo::r_opcode_16_32_64_def_64()) },
        ),
    );
    assert(first_opcode_byte_table_upto(models(table@), 0x58));
    // 0x58 - 0x5f
    repeat(
        table,
        8,
        InsnInfo::Regular(
            RegularInsnInfo { mnemonic: "pop", ops: one_op(OpInfo::r_opcode_16_32_64_def_64()) },
        ),
    );
}

/// Appends the entries of the opcodes 0x60 to 0x6f.
fn push_first_60_6f(table: &mut Vec<InsnInfo>)
    requires
        first_opcode_byte_table_upto(models(old(table)@), 0x60),
    ensures
        first_opcode_byte_table_upto(models(final(table)@), 0x70),
{
    // 0x60 - 0x62
    unsupported(table, 3);
    assert(first_opcode_byte_table_upto(models(table@), 0x63));
    // 0x63
    push_insn(
        table,
        InsnInfo::Regular(
            RegularInsnInfo {
                mnemonic: "movsxd",
                ops: two_ops(
                    OpInfo::rm_16_32_64_def_32(),
                    OpInfo::Rm(
                        OpSizeInfo {
                            with_operand_size_override: OpSize::S16,
                            mode_32: OpSize::S32,
                            mode_64: OpSize::S32,
                            mode_64_with_rex_w: OpSize::S32,
                        },
                    ),
                ),
            },
        ),
    );
    assert(first_opcode_byte_table_upto(models(table@), 0x64));
    // 0x64 - 0x67
    unsupported(table, 4);
    assert(first_opcode_byte_table_upto(models(table@), 0x68));
    // 0x68
    push_insn(
        table,
        InsnInfo::Regular(
            RegularInsnInfo {
                mnemonic: "push",
                ops: one_op(
                    OpInfo::Imm(
                        ImmOpInfo {
                            encoded_size: OpSizeInfo::sz_imm_encoding_16_32(),
                            extended_size: OpSizeInfo::sz_16_32_64_def_64(),
                            extend_kind: ImmExtendKind::SignExtend,
                        },
                    ),
                ),
            },
        ),
    );
    assert(first_opcode_byte_table_upto(models(table@), 0x69));
    // 0x69
    push_insn(
        table,
        InsnInfo::Regular(
            RegularInsnInfo {
                mnemonic: "imul",
                ops: three_ops(
                    OpInfo::r_modrm_16_32_64_def_32(),
                    OpInfo::rm_16_32_64_def_32(),
                    OpInfo::Imm(
                        ImmOpInfo {
                            encoded_size: OpSizeInfo::sz_imm_encoding_16_32(),
                            extended_size: OpSizeInfo::sz_16_32_64_def_32(),
                            extend_kind: ImmExtendKind::SignExtend,
                        },
                    ),
                ),
            },
        ),
    );
    assert(first_opcode_byte_table_upto(models(table@), 0x6a));
    // 0x6a
    push_insn(
        table,
        InsnInfo::Regular(
            RegularInsnInfo {
                mnemonic: "push",
                ops: one_op(
                    OpInfo::Imm(
                        ImmOpInfo {
                            encoded_size: OpSizeInfo::sz_always_8(),
                            extended_size: OpSizeInfo::sz_16_32_64_def_64(),
                            extend_kind: ImmExtendKind::SignExtend,
                        },
                    ),
                ),
            },
        ),
    );
    assert(first_opcode_byte_table_upto(models(table@), 0x6b));
    // 0x6b
    push_insn(
        table,
        InsnInfo::Regular(
            RegularInsnInfo {
                mnemonic: "imul",
                ops: three_ops(
                    OpInfo::r_modrm_16_32_64_def_32(),
                    OpInfo::rm_16_32_64_def_32(),
                    OpInfo::Imm(
                        ImmOpInfo {
                            encoded_size: OpSizeInfo::sz_always_8(),
                            extended_size: OpSizeInfo::sz_16_32_64_def_32(),
                            extend_kind: ImmExtendKind::SignExtend,
                        },
                    ),
                ),
            },
        ),
    );
    assert(first_opcode_byte_table_upto(models(table@), 0x6c));
    // 0x6c - 0x6f
    unsupported(table, 4);
}

/// Appends the entries of the opcodes 0x70 to 0x7f.
fn push_first_70_7f(table: &mut Vec<InsnInfo>)
    requires
        first_opcode_byte_table_upto(models(old(table)@), 0x70),
    ensures
        first_opcode_byte_table_upto(models(final(table)@), 0x80),
{
    // 0x70 - 0x7f
    repeat(
        table,
        16,
        InsnInfo::Regular(
            RegularInsnInfo {
                mnemonic: "jcc",
                ops: two_ops(OpInfo::Cond, OpInfo::Rel(OpSizeInfo::sz_always_8())),
            },
        ),
    );
}

/// Appends the entries of the opcodes 0x80 to 0x8b.
fn push_first_80_8b(table: &mut Vec<InsnInfo>)
    requires
        first_opcode_byte_table_upto(models(old(table)@), 0x80),
    ensures
        first_opcode_byte_table_upto(models(final(table)@), 0x8c),
{
    // 0x80
    push_insn(
        table,
        InsnInfo::ModrmRegOpcodeExt(
            ModrmRegOpcodeExtInsnInfo::new_with_same_operands(
                two_ops(OpInfo::rm_8(), OpInfo::imm_8_no_ext()),
                SIMPLE_BINOP_MNEMONICS,
            ),
        ),
    );
    assert(first_opcode_byte_table_upto(models(table@), 0x81));
    // 0x81
    push_insn(
        table,
        InsnInfo::ModrmRegOpcodeExt(
            ModrmRegOpcodeExtInsnInfo::new_with_same_operands(
                two_ops(
                    OpInfo::rm_16_32_64_def_32(),
                    OpInfo::Imm(
                        ImmOpInfo {
                            encoded_size: OpSizeInfo::sz_imm_encoding_16_32(),
                            extended_size: OpSizeInfo::sz_16_32_64_def_32(),
                            extend_kind: ImmExtendKind::SignExtend,
                        },
                    ),
                ),
                SIMPLE_BINOP_MNEMONICS,
            ),
        ),
    );
    assert(first_opcode_byte_table_upto(models(table@), 0x82));
    // 0x82
    unsupported(table, 1);
    assert(first_opcode_byte_table_upto(models(table@), 0x83));
    // 0x83
    push_insn(
        table,
        InsnInfo::ModrmRegOpcodeExt(
            ModrmRegOpcodeExtInsnInfo::new_with_same_operands(
                two_ops(
                    OpInfo::rm_16_32_64_def_32(),
                    OpInfo::Imm(
                        ImmOpInfo {
                            encoded_size: OpSizeInfo::sz_always_8(),
                            extended_size: OpSizeInfo::sz_16_32_64_def_32(),
                            extend_kind: ImmExtendKind::SignExtend,
                        },
                    ),
                ),
                SIMPLE_BINOP_MNEMONICS,
            ),
        ),
    );
    assert(first_opcode_byte_table_upto(models(table@), 0x84));
    // 0x84
    push_insn(
        table,
        InsnInfo::Regular(
            RegularInsnInfo { mnemonic: "test", ops: two_ops(OpInfo::rm_8(), OpInfo::r_modrm_8()) },
        ),
    );
    assert(first_opcode_byte_table_upto(models(table@), 0x85));
    // 0x85
    push_insn(
        table,
        InsnInfo::Regular(
            RegularInsnInfo {
                mnemonic: "test",
                ops: two_ops(OpInfo::rm_16_32_64_def_32(), OpInfo::r_modrm_16_32_64_def_32()),
            },
        ),
    );
    assert(first_opcode_byte_table_upto(models(table@), 0x86));
    // 0x86
    push_insn(
        table,
        InsnInfo::Regular(
            RegularInsnInfo { mnemonic: "xchg", ops: two_ops(OpInfo::rm_8(), OpInfo::r_modrm_8()) },
        ),
    );
    assert(first_opcode_byte_table_upto(models(table@), 0x87));
    // 0x87
    push_insn(
        table,
        InsnInfo::Regular(
            RegularInsnInfo {
                mnemonic: "xchg",
                ops: two_ops(OpInfo::rm_16_32_64_def_32(), OpInfo::r_modrm_16_32_64_def_32()),
            },
        ),
    );
    assert(first_opcode_byte_table_upto(models(table@), 0x88));
    // 0x88
    push_insn(
        table,
        InsnInfo::Regular(
            RegularInsnInfo { mnemonic: "mov", ops: two_ops(OpInfo::rm_8(), OpInfo::r_modrm_8()) },
        ),
    );
    assert(first_opcode_byte_table_upto(models(table@), 0x89));
    // 0x89
    push_insn(
        table,
        InsnInfo::Regular(
            RegularInsnInfo {
                mnemonic: "mov",
                ops: two_ops(OpInfo::rm_16_32_64_def_32(), OpInfo::r_modrm_16_32_64_def_32()),
            },
        ),
    );
    assert(first_opcode_byte_table_upto(models(table@), 0x8a));
    // 0x8a
    push_insn(
        table,
        InsnInfo::Regular(
            RegularInsnInfo { mnemonic: "mov", ops: two_ops(OpInfo::r_modrm_8(), OpInfo::rm_8()) },
        ),
    );
    assert(first_opcode_byte_table_upto(models(table@), 0x8b));
    // 0x8b
    push_insn(
        table,
        InsnInfo::Regular(
            RegularInsnInfo {
                mnemonic: "mov",
                ops: two_ops(OpInfo::r_modrm_16_32_64_def_32(), OpInfo::rm_16_32_64_def_32()),
            },
        ),
    );
}

/// Appends the entries of the opcodes 0x8c to 0x99.
fn push_first_8c_99(table: &mut Vec<InsnInfo>)
    requires
        first_opcode_byte_table_upto(models(old(table)@), 0x8c),
    ensures
        first_opcode_byte_table_upto(models(final(table)@), 0x9a),
{
    // 0x8c
    unsupported(table, 1);
    assert(first_opcode_byte_table_upto(models(table@), 0x8d));
    // 0x8d
    push_insn(
        table,
        InsnInfo::Regular(
            RegularInsnInfo {
                mnemonic: "lea",
                ops: two_ops(OpInfo::r_modrm_16_32_64_def_32(), OpInfo::rm_16_32_64_def_32()),
            },
        ),
    );
    assert(first_opcode_byte_table_upto(models(table@), 0x8e));
    // 0x8e
    unsupported(table, 1);
    assert(first_opcode_byte_table_upto(models(table@), 0x8f));
    // 0x8f
    push_insn(
        table,
        InsnInfo::ModrmRegOpcodeExt(
            ModrmRegOpcodeExtInsnInfo::new(
                [
                    RegularInsnInfo { mnemonic: "pop", ops: one_op(OpInfo::rm_16_32_64_def_64()) },
                    RegularInsnInfo::unsupported(),
                    RegularInsnInfo::unsupported(),
                    RegularInsnInfo::unsupported(),
                    RegularInsnInfo::unsupported(),
                    RegularInsnInfo::unsupported(),
                    RegularInsnInfo::unsupported(),
                    RegularInsnInfo::unsupported(),
                ],
            ),
        ),
    );
    assert(first_opcode_byte_table_upto(models(table@), 0x90));
    // 0x90
    push_insn(table, InsnInfo::Regular(RegularInsnInfo { mnemonic: "nop", ops: no_ops() }));
    assert(first_opcode_byte_table_upto(models(table@), 0x91));
    // 0x91 - 0x97
    repeat(
        table,
        7,
        InsnInfo::Regular(
            RegularInsnInfo {
                mnemonic: "xchg",
                ops: two_ops(OpInfo::ax_16_32_64_def_32(), OpInfo::r_opcode_16_32_64_def_32()),
            },
        ),
    );
    assert(first_opcode_byte_table_upto(models(table@), 0x98));
    // 0x98
    // this is actually cbw, but this makes life simpler when lifting it
    push_insn(
        table,
        InsnInfo::Regular(
            RegularInsnInfo {
                mnemonic: "movsz",
                ops: two_ops(
                    OpInfo::ax_16_32_64_def_32(),
                    OpInfo::SpecificReg(
                        SpecificRegOpInfo {
                            reg: SpecificReg::Rax,
                            size: OpSizeInfo {
                                with_operand_size_override: OpSize::S8,
                                mode_32: OpSize::S16,
                                mode_64: OpSize::S16,
                                mode_64_with_rex_w: OpSize::S32,
                            },
                        },
                    ),
                ),
            },
        ),
    );
    assert(first_opcode_byte_table_upto(models(table@), 0x99));
    // 0x99
    // this is cwd/cdq/cqo
    push_insn(
        table,
        InsnInfo::Regular(
            RegularInsnInfo {
                mnemonic: "cwd",
                ops: two_ops(OpInfo::dx_16_32_64_def_32(), OpInfo::ax_16_32_64_def_32()),
            },
        ),
    );
}

/// Appends the entries of the opcodes 0x9a to 0xa9.
fn push_first_9a_a9(table: &mut Vec<InsnInfo>)
    requires
        first_opcode_byte_table_upto(models(old(table)@), 0x9a),
    ensures
        first_opcode_byte_table_upto(models(final(table)@), 0xaa),
{
    // 0x9a - 0x9f
    unsupported(table, 6);
    assert(first_opcode_byte_table_upto(models(table@), 0xa0));
    // 0xa0
    push_insn(
        table,
        InsnInfo::Regular(
            RegularInsnInfo {
                mnemonic: "mov",
                ops: two_ops(
                    OpInfo::al(),
                    OpInfo::MemOffset(
                        MemOffsetOpInfo { mem_operand_size: OpSizeInfo::sz_always_8() },
                    ),
                ),
            },
        ),
    );
    assert(first_opcode_byte_table_upto(models(table@), 0xa1));
    // 0xa1
    push_insn(
        table,
        InsnInfo::Regular(
            RegularInsnInfo {
                mnemonic: "mov",
                ops: two_ops(
                    OpInfo::ax_16_32_64_def_32(),
                    OpInfo::MemOffset(
                        MemOffsetOpInfo { mem_operand_size: OpSizeInfo::sz_16_32_64_def_32() },
                    ),
                ),
            },
        ),
    );
    assert(first_opcode_byte_table_upto(models(table@), 0xa2));
    // 0xa2
    push_insn(
        table,
        InsnInfo::Regular(
            RegularInsnInfo {
                mnemonic: "mov",
                ops: two_ops(
                    OpInfo::MemOffset(
                        MemOffsetOpInfo { mem_operand_size: OpSizeInfo::sz_always_8() },
                    ),
                    OpInfo::al(),
                ),
            },
        ),
    );
    assert(first_opcode_byte_table_upto(models(table@), 0xa3));
    // 0xa3
    push_insn(
        table,
        InsnInfo::Regular(
            RegularInsnInfo {
                mnemonic: "mov",
                ops: two_ops(
                    OpInfo::MemOffset(
                        MemOffsetOpInfo { mem_operand_size: OpSizeInfo::sz_16_32_64_def_32() },
                    ),
                    OpInfo::ax_16_32_64_def_32(),
                ),
            },
        ),
    );
    assert(first_opcode_byte_table_upto(models(table@), 0xa4));
    // 0xa4
    push_insn(
        table,
        InsnInfo::Regular(
            RegularInsnInfo {
                mnemonic: "movs",
                ops: one_op(OpInfo::Implicit(OpSizeInfo::sz_always_8())),
            },
        ),
    );
    assert(first_opcode_byte_table_upto(models(table@), 0xa5));
    // 0xa5
    push_insn(
        table,
        InsnInfo::Regular(
            RegularInsnInfo {
                mnemonic: "movs",
                ops: one_op(OpInfo::Implicit(OpSizeInfo::sz_16_32_64_def_32())),
            },
        ),
    );
    assert(first_opcode_byte_table_upto(models(table@), 0xa6));
    // 0xa6
    push_insn(
        table,
        InsnInfo::Regular(
            RegularInsnInfo {
                mnemonic: "cmps",
                ops: one_op(OpInfo::Implicit(OpSizeInfo::sz_always_8())),
            },
        ),
    );
    assert(first_opcode_byte_table_upto(models(table@), 0xa7));
    // 0xa7
    push_insn(
        table,
        InsnInfo::Regular(
            RegularInsnInfo {
                mnemonic: "cmps",
                ops: one_op(OpInfo::Implicit(OpSizeInfo::sz_16_32_64_def_32())),
            },
        ),
    );
    assert(first_opcode_byte_table_upto(models(table@), 0xa8));
    // 0xa8
    push_insn(
        table,
        InsnInfo::Regular(
            RegularInsnInfo {
                mnemonic: "test",
                ops: two_ops(OpInfo::al(), OpInfo::imm_8_no_ext()),
            },
        ),
    );
    assert(first_opcode_byte_table_upto(models(table@), 0xa9));
    // 0xa9
    push_insn(
        table,
        InsnInfo::Regular(
            RegularInsnInfo {
                mnemonic: "test",
                ops: two_ops(
                    OpInfo::ax_16_32_64_def_32(),
                    OpInfo::Imm(
                        ImmOpInfo {
                            encoded_size: OpSizeInfo::sz_imm_encoding_16_32(),
                            extended_size: OpSizeInfo::sz_16_32_64_def_32(),
                            extend_kind: ImmExtendKind::SignExtend,
                        },
                    ),
                ),
            },
        ),
    );
}

/// Appends the entries of the opcodes 0xaa to 0xb7.
fn push_first_aa_b7(table: &mut Vec<InsnInfo>)
    requires
        first_opcode_byte_table_upto(models(old(table)@), 0xaa),
    ensures
        first_opcode_byte_table_upto(models(final(table)@), 0xb8),
{
    // 0xaa
    push_insn(
        table,
        InsnInfo::Regular(
            RegularInsnInfo {
                mnemonic: "stos",
                ops: one_op(OpInfo::Implicit(OpSizeInfo::sz_always_8())),
            },
        ),
    );
    assert(first_opcode_byte_table_upto(models(table@), 0xab));
    // 0xab
    push_insn(
        table,
        InsnInfo::Regular(
            RegularInsnInfo {
                mnemonic: "stos",
                ops: one_op(OpInfo::Implicit(OpSizeInfo::sz_16_32_64_def_32())),
            },
        ),
    );
    assert(first_opcode_byte_table_upto(models(table@), 0xac));
    // 0xac
    push_insn(
        table,
        InsnInfo::Regular(
            RegularInsnInfo {
                mnemonic: "lods",
                ops: one_op(OpInfo::Implicit(OpSizeInfo::sz_always_8())),
            },
        ),
    );
    assert(first_opcode_byte_table_upto(models(table@), 0xad));
    // 0xad
    push_insn(
        table,
        InsnInfo::Regular(
            RegularInsnInfo {
                mnemonic: "lods",
                ops: one_op(OpInfo::Implicit(OpSizeInfo::sz_16_32_64_def_32())),
            },
        ),
    );
    assert(first_opcode_byte_table_upto(models(table@), 0xae));
    // 0xae
    push_insn(
        table,
        InsnInfo::Regular(
            RegularInsnInfo {
                mnemonic: "scas",
                ops: one_op(OpInfo::Implicit(OpSizeInfo::sz_always_8())),
            },
        ),
    );
    assert(first_opcode_byte_table_upto(models(table@), 0xaf));
    // 0xaf
    push_insn(
        table,
        InsnInfo::Regular(
            RegularInsnInfo {
                mnemonic: "scas",
                ops: one_op(OpInfo::Implicit(OpSizeInfo::sz_16_32_64_def_32())),
            },
        ),
    );
    assert(first_opcode_byte_table_upto(models(table@), 0xb0));
    // 0xb0 - 0xb7
    repeat(
        table,
        8,
        InsnInfo::Regular(
            RegularInsnInfo {
                mnemonic: "mov",
                ops: two_ops(OpInfo::r_opcode_8(), OpInfo::imm_8_no_ext()),
            },
        ),
    );
}

/// Appends the entries of the opcodes 0xb8 to 0xc7.
fn push_first_b8_c7(table: &mut Vec<InsnInfo>)
    requires
        first_opcode_byte_table_upto(models(old(table)@), 0xb8),
    ensures
        first_opcode_byte_table_upto(models(final(table)@), 0xc8),
{
    // 0xb8 - 0xbf
    repeat(
        table,
        8,
        InsnInfo::Regular(
            RegularInsnInfo {
                mnemonic: "mov",
                ops: two_ops(
                    OpInfo::r_opcode_16_32_64_def_32(),
                    OpInfo::Imm(
                        ImmOpInfo {
                            encoded_size: OpSizeInfo::sz_16_32_64_def_32(),
                            extended_size: OpSizeInfo::sz_16_32_64_def_32(),
                            extend_kind: ImmExtendKind::ZeroExtend,
                        },
                    ),
                ),
            },
        ),
    );
    assert(first_opcode_byte_table_upto(models(table@), 0xc0));
    // 0xc0
    push_insn(
        table,
        InsnInfo::ModrmRegOpcodeExt(
            ModrmRegOpcodeExtInsnInfo::new_with_same_operands(
                two_ops(OpInfo::rm_8(), OpInfo::imm_8_no_ext()),
                SHIFT_BINOP_MNEMONICS,
            ),
        ),
    );
    assert(first_opcode_byte_table_upto(models(table@), 0xc1));
    // 0xc1
    push_insn(
        table,
        InsnInfo::ModrmRegOpcodeExt(
            ModrmRegOpcodeExtInsnInfo::new_with_same_operands(
                two_ops(
                    OpInfo::rm_16_32_64_def_32(),
                    OpInfo::Imm(
                        ImmOpInfo {
                            encoded_size: OpSizeInfo::sz_always_8(),
                            extended_size: OpSizeInfo::sz_16_32_64_def_32(),
                            extend_kind: ImmExtendKind::ZeroExtend,
                        },
                    ),
                ),
                SHIFT_BINOP_MNEMONICS,
            ),
        ),
    );
    assert(first_opcode_byte_table_upto(models(table@), 0xc2));
    // 0xc2
    unsupported(table, 1);
    assert(first_opcode_byte_table_upto(models(table@), 0xc3));
    // 0xc3
    push_insn(table, InsnInfo::Regular(RegularInsnInfo { mnemonic: "ret", ops: no_ops() }));
    assert(first_opcode_byte_table_upto(models(table@), 0xc4));
    // 0xc4 - 0xc5
    unsupported(table, 2);
    assert(first_opcode_byte_table_upto(models(table@), 0xc6));
    // 0xc6
    push_insn(
        table,
        InsnInfo::ModrmRegOpcodeExt(
            ModrmRegOpcodeExtInsnInfo::new(
                [
                    RegularInsnInfo {
                        mnemonic: "mov",
                        ops: two_ops(OpInfo::rm_8(), OpInfo::imm_8_no_ext()),
                    },
                    RegularInsnInfo::unsupported(),
                    RegularInsnInfo::unsupported(),
                    RegularInsnInfo::unsupported(),
                    RegularInsnInfo::unsupported(),
                    RegularInsnInfo::unsupported(),
                    RegularInsnInfo::unsupported(),
                    RegularInsnInfo::unsupported(),
                ],
            ),
        ),
    );
    assert(first_opcode_byte_table_upto(models(table@), 0xc7));
    // 0xc7
    push_insn(
        table,
        InsnInfo::ModrmRegOpcodeExt(
            ModrmRegOpcodeExtInsnInfo::new(
                [
                    RegularInsnInfo {
                        mnemonic: "mov",
                        ops: two_ops(
                            OpInfo::rm_16_32_64_def_32(),
                            OpInfo::Imm(
                                ImmOpInfo {
                                    encoded_size: OpSizeInfo::sz_imm_encoding_16_32(),
                                    extended_size: OpSizeInfo::sz_16_32_64_def_32(),
                                    extend_kind: ImmExtendKind::SignExtend,
                                },
                            ),
                        ),
                    },
                    RegularInsnInfo::unsupported(),
                    RegularInsnInfo::unsupported(),
                    RegularInsnInfo::unsupported(),
                    RegularInsnInfo::unsupported(),
                    RegularInsnInfo::unsupported(),
                    RegularInsnInfo::unsupported(),
                    RegularInsnInfo::unsupported(),
                ],
            ),
        ),
    );
}

/// Appends the entries of the opcodes 0xc8 to 0xd3.
fn push_first_c8_d3(table: &mut Vec<InsnInfo>)
    requires
        first_opcode_byte_table_upto(models(old(table)@), 0xc8),
    ensures
        first_opcode_byte_table_upto(models(final(table)@), 0xd4),
{
    // 0xc8 - 0xcf
    unsupported(table, 8);
    assert(first_opcode_byte_table_upto(models(table@), 0xd0));
    // 0xd0
    push_insn(
        table,
        InsnInfo::ModrmRegOpcodeExt(
            ModrmRegOpcodeExtInsnInfo::new_with_same_operands(
                two_ops(
                    OpInfo::rm_8(),
                    OpInfo::SpecificImm(
                        SpecificImmOpInfo {
                            value: SpecificImm::One,
                            operand_size: OpSizeInfo::sz_always_8(),
                        },
                    ),
                ),
                SHIFT_BINOP_MNEMONICS,
            ),
        ),
    );
    assert(first_opcode_byte_table_upto(models(table@), 0xd1));
    // 0xd1
    push_insn(
        table,
        InsnInfo::ModrmRegOpcodeExt(
            ModrmRegOpcodeExtInsnInfo::new_with_same_operands(
                two_ops(
                    OpInfo::rm_16_32_64_def_32(),
                    OpInfo::SpecificImm(
                        SpecificImmOpInfo {
                            value: SpecificImm::One,
                            operand_size: OpSizeInfo::sz_16_32_64_def_32(),
                        },
                    ),
                ),
                SHIFT_BINOP_MNEMONICS,
            ),
        ),
    );
    assert(first_opcode_byte_table_upto(models(table@), 0xd2));
    // 0xd2
    push_insn(
        table,
        InsnInfo::ModrmRegOpcodeExt(
            ModrmRegOpcodeExtInsnInfo::new_with_same_operands(
                two_ops(OpInfo::rm_8(), OpInfo::cl()),
                SHIFT_BINOP_MNEMONICS,
            ),
        ),
    );
    assert(first_opcode_byte_table_upto(models(table@), 0xd3));
    // 0xd3
    push_insn(
        table,
        InsnInfo::ModrmRegOpcodeExt(
            ModrmRegOpcodeExtInsnInfo::new_with_same_operands(
                two_ops(
                    OpInfo::rm_16_32_64_def_32(),
                    OpInfo::ZextSpecificReg(
                        ZextSpecificRegOpInfo {
                            reg: SpecificReg::Rcx,
                            size: OpSizeInfo::sz_always_8(),
                            extended_size: OpSizeInfo::sz_16_32_64_def_32(),
                        },
                    ),
                ),
                SHIFT_BINOP_MNEMONICS,
            ),
        ),
    );
}

/// Appends the entries of the opcodes 0xd4 to 0xe7.
fn push_first_d4_e7(table: &mut Vec<InsnInfo>)
    requires
        first_opcode_byte_table_upto(models(old(table)@), 0xd4),
    ensures
        first_opcode_byte_table_upto(models(final(table)@), 0xe8),
{
    // 0xd4 - 0xe7
    unsupported(table, 0x14);
}

/// Appends the entries of the opcodes 0xe8 to 0xf7.
fn push_first_e8_f7(table: &mut Vec<InsnInfo>)
    requires
        first_opcode_byte_table_upto(models(old(table)@), 0xe8),
    ensures
        first_opcode_byte_table_upto(models(final(table)@), 0xf8),
{
    // 0xe8
    push_insn(
        table,
        InsnInfo::Regular(RegularInsnInfo { mnemonic: "call", ops: one_op(OpInfo::rel_32()) }),
    );
    assert(first_opcode_byte_table_upto(models(table@), 0xe9));
    // 0xe9
    push_insn(
        table,
        InsnInfo::Regular(RegularInsnInfo { mnemonic: "jmp", ops: one_op(OpInfo::rel_32()) }),
    );
    assert(first_opcode_byte_table_upto(models(table@), 0xea));
    // 0xea
    unsupported(table, 1);
    assert(first_opcode_byte_table_upto(models(table@), 0xeb));
    // 0xeb
    push_insn(
        table,
        InsnInfo::Regular(
            RegularInsnInfo {
                mnemonic: "jmp",
                ops: one_op(OpInfo::Rel(OpSizeInfo::sz_always_8())),
            },
        ),
    );
    assert(first_opcode_byte_table_upto(models(table@), 0xec));
    // 0xec - 0xf3
    unsupported(table, 8);
    assert(first_opcode_byte_table_upto(models(table@), 0xf4));
    // 0xf4
    push_insn(table, InsnInfo::Regular(RegularInsnInfo { mnemonic: "hlt", ops: no_ops() }));
    assert(first_opcode_byte_table_upto(models(table@), 0xf5));
    // 0xf5
    push_insn(table, InsnInfo::Regular(RegularInsnInfo { mnemonic: "cmc", ops: no_ops() }));
    assert(first_opcode_byte_table_upto(models(table@), 0xf6));
    // 0xf6
    push_insn(
        table,
        InsnInfo::ModrmRegOpcodeExt(
            ModrmRegOpcodeExtInsnInfo::new(
                [
                    RegularInsnInfo {
                        mnemonic: "test",
                        ops: two_ops(OpInfo::rm_8(), OpInfo::imm_8_no_ext()),
                    },
                    RegularInsnInfo::unsupported(),
                    RegularInsnInfo { mnemonic: "not", ops: one_op(OpInfo::rm_8()) },
                    RegularInsnInfo { mnemonic: "neg", ops: one_op(OpInfo::rm_8()) },
                    RegularInsnInfo { mnemonic: "mul", ops: one_op(OpInfo::rm_8()) },
                    RegularInsnInfo { mnemonic: "imul", ops: one_op(OpInfo::rm_8()) },
                    RegularInsnInfo { mnemonic: "div", ops: one_op(OpInfo::rm_8()) },
                    RegularInsnInfo { mnemonic: "idiv", ops: one_op(OpInfo::rm_8()) },
                ],
            ),
        ),
    );
    assert(first_opcode_byte_table_upto(models(table@), 0xf7));
    // 0xf7
    push_insn(
        table,
        InsnInfo::ModrmRegOpcodeExt(
            ModrmRegOpcodeExtInsnInfo::new(
                [
                    RegularInsnInfo {
                        mnemonic: "test",
                        ops: two_ops(
                            OpInfo::rm_16_32_64_def_32(),
                            OpInfo::Imm(
                                ImmOpInfo {
                                    encoded_size: OpSizeInfo::sz_imm_encoding_16_32(),
                                    extended_size: OpSizeInfo::sz_16_32_64_def_32(),
                                    extend_kind: ImmExtendKind::SignExtend,
                                },
                            ),
                        ),
                    },
                    RegularInsnInfo::unsupported(),
                    RegularInsnInfo { mnemonic: "not", ops: one_op(OpInfo::rm_16_32_64_def_32()) },
                    RegularInsnInfo { mnemonic: "neg", ops: one_op(OpInfo::rm_16_32_64_def_32()) },
                    RegularInsnInfo { mnemonic: "mul", ops: one_op(OpInfo::rm_16_32_64_def_32()) },
                    RegularInsnInfo { mnemonic: "imul", ops: one_op(OpInfo::rm_16_32_64_def_32()) },
                    RegularInsnInfo { mnemonic: "div", ops: one_op(OpInfo::rm_16_32_64_def_32()) },
                    RegularInsnInfo { mnemonic: "idiv", ops: one_op(OpInfo::rm_16_32_64_def_32()) },
                ],
            ),
        ),
    );
}

/// Appends the entries of the opcodes 0xf8 to 0xff.
fn push_first_f8_ff(table: &mut Vec<InsnInfo>)
    requires
        first_opcode_byte_table_upto(models(old(table)@), 0xf8),
    ensures
        first_opcode_byte_table_upto(models(final(table)@), 0x100),
{
    // 0xf8
    push_insn(table, InsnInfo::Regular(RegularInsnInfo { mnemonic: "clc", ops: no_ops() }));
    assert(first_opcode_byte_table_upto(models(table@), 0xf9));
    // 0xf9
    push_insn(table, InsnInfo::Regular(RegularInsnInfo { mnemonic: "stc", ops: no_ops() }));
    assert(first_opcode_byte_table_upto(models(table@), 0xfa));
    // 0xfa
    push_insn(table, InsnInfo::Regular(RegularInsnInfo { mnemonic: "cli", ops: no_ops() }));
    assert(first_opcode_byte_table_upto(models(table@), 0xfb));
    // 0xfb
    push_insn(table, InsnInfo::Regular(RegularInsnInfo { mnemonic: "sti", ops: no_ops() }));
    assert(first_opcode_byte_table_upto(models(table@), 0xfc));
    // 0xfc
    push_insn(table, InsnInfo::Regular(RegularInsnInfo { mnemonic: "cld", ops: no_ops() }));
    assert(first_opcode_byte_table_upto(models(table@), 0xfd));
    // 0xfd
    push_insn(table, InsnInfo::Regular(RegularInsnInfo { mnemonic: "std", ops: no_ops() }));
    assert(first_opcode_byte_table_upto(models(table@), 0xfe));
    // 0xfe
    push_insn(
        table,
        InsnInfo::ModrmRegOpcodeExt(
            ModrmRegOpcodeExtInsnInfo::new(
                [
                    RegularInsnInfo { mnemonic: "inc", ops: one_op(OpInfo::rm_8()) },
                    RegularInsnInfo { mnemonic: "dec", ops: one_op(OpInfo::rm_8()) },
                    RegularInsnInfo::unsupported(),
                    RegularInsnInfo::unsupported(),
                    RegularInsnInfo::unsupported(),
                    RegularInsnInfo::unsupported(),
                    RegularInsnInfo::unsupported(),
                    RegularInsnInfo::unsupported(),
                ],
            ),
        ),
    );
    assert(first_opcode_byte_table_upto(models(table@), 0xff));
    // 0xff
    push_insn(
        table,
        InsnInfo::ModrmRegOpcodeExt(
            ModrmRegOpcodeExtInsnInfo::new(
                [
                    RegularInsnInfo { mnemonic: "inc", ops: one_op(OpInfo::rm_16_32_64_def_32()) },
                    RegularInsnInfo { mnemonic: "dec", ops: one_op(OpInfo::rm_16_32_64_def_32()) },
                    RegularInsnInfo {
                        mnemonic: "call",
                        ops: one_op(
                            OpInfo::Rm(
                                OpSizeInfo {
                                    with_operand_size_override: OpSize::S16,
                                    mode_32: OpSize::S32,
                                    mode_64: OpSize::S64,
                                    mode_64_with_rex_w: OpSize::S64,
                                },
                            ),
                        ),
                    },
                    RegularInsnInfo::unsupported(),
                    RegularInsnInfo {
                        mnemonic: "jmp",
                        ops: one_op(
                            OpInfo::Rm(
                                OpSizeInfo {
                                    with_operand_size_override: OpSize::S16,
                                    mode_32: OpSize::S32,
                                    mode_64: OpSize::S64,
                                    mode_64_with_rex_w: OpSize::S64,
                                },
                            ),
                        ),
                    },
                    RegularInsnInfo::unsupported(),
                    RegularInsnInfo { mnemonic: "jmp", ops: one_op(OpInfo::rm_16_32_64_def_64()) },
                    RegularInsnInfo::unsupported(),
                ],
            ),
        ),
    );
}

/// No instruction of the table has more than three operands.
pub proof fn lemma_first_opcode_byte_table_operands()
    ensures
        operand_lists_within(first_opcode_byte_table_model(), 3),
{
    let table = first_opcode_byte_table_model();
    assert forall|opcode: int, reg: int|
        0 <= opcode < table.len() && 0 <= reg < regular_insns_of(table[opcode]).len() implies (
    #[trigger] regular_insns_of(table[opcode])[reg]).ops.len() <= 3 by {
        if 0x00 <= opcode < 0x40 {
            assert(table[opcode] == first_opcode_byte_insn_00_3f(opcode));
        }
        if 0x40 <= opcode < 0x50 {
            assert(table[opcode] == first_opcode_byte_insn_40_4f(opcode));
        }
        if 0x50 <= opcode < 0x60 {
            assert(table[opcode] == first_opcode_byte_insn_50_5f(opcode));
        }
        if 0x60 <= opcode < 0x70 {
            assert(table[opcode] == first_opcode_byte_insn_60_6f(opcode));
        }
        if 0x70 <= opcode < 0x80 {
            assert(table[opcode] == first_opcode_byte_insn_70_7f(opcode));
        }
        if 0x80 <= opcode < 0x8c {
            assert(table[opcode] == first_opcode_byte_insn_80_8b(opcode));
        }
        if 0x8c <= opcode < 0x9a {
            assert(table[opcode] == first_opcode_byte_insn_8c_99(opcode));
        }
        if 0x9a <= opcode < 0xaa {
            assert(table[opcode] == first_opcode_byte_insn_9a_a9(opcode));
        }
        if 0xaa <= opcode < 0xb8 {
            assert(table[opcode] == first_opcode_byte_insn_aa_b7(opcode));
        }
        if 0xb8 <= opcode < 0xc8 {
            assert(table[opcode] == first_opcode_byte_insn_b8_c7(opcode));
        }
        if 0xc8 <= opcode < 0xd4 {
            assert(table[opcode] == first_opcode_byte_insn_c8_d3(opcode));
        }
        if 0xd4 <= opcode < 0xe8 {
            assert(table[opcode] == first_opcode_byte_insn_d4_e7(opcode));
        }
        if 0xe8 <= opcode < 0xf8 {
            assert(table[opcode] == first_opcode_byte_insn_e8_f7(opcode));
        }
        if 0xf8 <= opcode < 0x100 {
            assert(table[opcode] == first_opcode_byte_insn_f8_ff(opcode));
        }
    }
}

/// Builds the one-byte opcodes.
pub fn gen_first_opcode_byte_table() -> (table: Vec<InsnInfo>)
    ensures
        table@.len() == 256,
        models(table@) == first_opcode_byte_table_model(),
{
    let mut table = Vec::new();
    push_first_00_3f(&mut table);
    push_first_40_4f(&mut table);
    push_first_50_5f(&mut table);
    push_first_60_6f(&mut table);
    push_first_70_7f(&mut table);
    push_first_80_8b(&mut table);
    push_first_8c_99(&mut table);
    push_first_9a_a9(&mut table);
    push_first_aa_b7(&mut table);
    push_first_b8_c7(&mut table);
    push_first_c8_d3(&mut table);
    push_first_d4_e7(&mut table);
    push_first_e8_f7(&mut table);
    push_first_f8_ff(&mut table);
    assert(models(table@) =~= first_opcode_byte_table_model());
    table
}

} // verus!
