//! The table of the two-byte opcodes, which follow the byte 0x0f.

use crate::table_compiler::{operand_lists_within, regular_insns_of};
use crate::table_gen_utils::{push_insn, regular_entry, repeat, unsupported, unsupported_entry};
use crate::table_types::{
    no_ops, one_op, three_ops, two_ops, ImmExtendKind, ImmOpInfo, InsnInfo, InsnModel,
    ModrmRegOpcodeExtInsnInfo, OpInfo, OpSize, OpSizeInfo, RegularInsnInfo, RegularInsnModel,
    SpecificReg, ZextSpecificRegOpInfo,
};
use crate::unique_set::models;
use vstd::prelude::*;

verus! {

/// What the opcodes 0x00 to 0x1d select.
pub open spec fn second_opcode_byte_insn_00_1d(opcode: int) -> InsnModel {
    unsupported_entry()
}

/// What the opcodes 0x1e to 0x1f select.
pub open spec fn second_opcode_byte_insn_1e_1f(opcode: int) -> InsnModel {
    if opcode < 0x1f {
        InsnModel::ModrmRegOpcodeExt(
            seq![
                RegularInsnInfo::unsupported_model(),
                RegularInsnInfo::unsupported_model(),
                RegularInsnInfo::unsupported_model(),
                RegularInsnInfo::unsupported_model(),
                RegularInsnInfo::unsupported_model(),
                RegularInsnInfo::unsupported_model(),
                RegularInsnInfo::unsupported_model(),
                RegularInsnModel { mnemonic: "endbr"@, ops: seq![] },
            ],
        )
    } else {
        regular_entry(
            "nop"@,
            seq![
                OpInfo::Rm(
                    OpSizeInfo {
                        with_operand_size_override: OpSize::S16,
                        mode_32: OpSize::S32,
                        mode_64: OpSize::S32,
                        mode_64_with_rex_w: OpSize::S32,
                    },
                ),
            ],
        )
    }
}

/// What the opcodes 0x20 to 0x3f select.
pub open spec fn second_opcode_byte_insn_20_3f(opcode: int) -> InsnModel {
    unsupported_entry()
}

/// What the opcodes 0x40 to 0x4f select.
pub open spec fn second_opcode_byte_insn_40_4f(opcode: int) -> InsnModel {
    regular_entry(
        "cmovcc"@,
        seq![OpInfo::Cond, OpInfo::r_modrm_16_32_64_def_32(), OpInfo::rm_16_32_64_def_32()],
    )
}

/// What the opcodes 0x50 to 0x7f select.
pub open spec fn second_opcode_byte_insn_50_7f(opcode: int) -> InsnModel {
    unsupported_entry()
}

/// What the opcodes 0x80 to 0x8f select.
pub open spec fn second_opcode_byte_insn_80_8f(opcode: int) -> InsnModel {
    regular_entry("jcc"@, seq![OpInfo::Cond, OpInfo::rel_32()])
}

/// What the opcodes 0x90 to 0x9f select.
pub open spec fn second_opcode_byte_insn_90_9f(opcode: int) -> InsnModel {
    regular_entry("setcc"@, seq![OpInfo::Cond, OpInfo::rm_8()])
}

/// What the opcodes 0xa0 to 0xaf select.
pub open spec fn second_opcode_byte_insn_a0_af(opcode: int) -> InsnModel {
    if opcode < 0xa3 {
        unsupported_entry()
    } else if opcode < 0xa4 {
        regular_entry("bt"@, seq![OpInfo::rm_16_32_64_def_32(), OpInfo::r_modrm_16_32_64_def_32()])
    } else if opcode < 0xa5 {
        regular_entry(
            "shld"@,
            seq![
                OpInfo::rm_16_32_64_def_32(),
                OpInfo::r_modrm_16_32_64_def_32(),
                OpInfo::Imm(
                    ImmOpInfo {
                        encoded_size: OpSizeInfo::sz_always_8(),
                        extended_size: OpSizeInfo::sz_16_32_64_def_32(),
                        extend_kind: ImmExtendKind::ZeroExtend,
                    },
                ),
            ],
        )
    } else if opcode < 0xa6 {
        regular_entry(
            "shld"@,
            seq![
                OpInfo::rm_16_32_64_def_32(),
                OpInfo::r_modrm_16_32_64_def_32(),
                OpInfo::ZextSpecificReg(
                    ZextSpecificRegOpInfo {
                        reg: SpecificReg::Rcx,
                        size: OpSizeInfo::sz_always_8(),
                        extended_size: OpSizeInfo::sz_16_32_64_def_32(),
                    },
                ),
            ],
        )
    } else if opcode < 0xac {
        unsupported_entry()
    } else if opcode < 0xad {
        regular_entry(
            "shrd"@,
            seq![
                OpInfo::rm_16_32_64_def_32(),
                OpInfo::r_modrm_16_32_64_def_32(),
                OpInfo::Imm(
                    ImmOpInfo {
                        encoded_size: OpSizeInfo::sz_always_8(),
                        extended_size: OpSizeInfo::sz_16_32_64_def_32(),
                        extend_kind: ImmExtendKind::ZeroExtend,
                    },
                ),
            ],
        )
    } else if opcode < 0xae {
        regular_entry(
            "shrd"@,
            seq![
                OpInfo::rm_16_32_64_def_32(),
                OpInfo::r_modrm_16_32_64_def_32(),
                OpInfo::ZextSpecificReg(
                    ZextSpecificRegOpInfo {
                        reg: SpecificReg::Rcx,
                        size: OpSizeInfo::sz_always_8(),
                        extended_size: OpSizeInfo::sz_16_32_64_def_32(),
                    },
                ),
            ],
        )
    } else if opcode < 0xaf {
        unsupported_entry()
    } else {
        regular_entry(
            "imul"@,
            seq![OpInfo::r_modrm_16_32_64_def_32(), OpInfo::rm_16_32_64_def_32()],
        )
    }
}

/// What the opcodes 0xb0 to 0xbf select.
pub open spec fn second_opcode_byte_insn_b0_bf(opcode: int) -> InsnModel {
    if opcode < 0xb6 {
        unsupported_entry()
    } else if opcode < 0xb7 {
        regular_entry("movzx"@, seq![OpInfo::r_modrm_16_32_64_def_32(), OpInfo::rm_8()])
    } else if opcode < 0xb8 {
        regular_entry(
            "movzx"@,
            seq![OpInfo::r_modrm_16_32_64_def_32(), OpInfo::Rm(OpSizeInfo::sz_always_16())],
        )
    } else if opcode < 0xbe {
        unsupported_entry()
    } else if opcode < 0xbf {
        regular_entry("movsx"@, seq![OpInfo::r_modrm_16_32_64_def_32(), OpInfo::rm_8()])
    } else {
        regular_entry(
            "movsx"@,
            seq![OpInfo::r_modrm_16_32_64_def_32(), OpInfo::Rm(OpSizeInfo::sz_always_16())],
        )
    }
}

/// What the opcodes 0xc0 to 0xff select.
pub open spec fn second_opcode_byte_insn_c0_ff(opcode: int) -> InsnModel {
    unsupported_entry()
}

/// What an opcode byte selects in the two-byte opcodes, which follow the byte 0x0f.
pub open spec fn second_opcode_byte_insn(opcode: int) -> InsnModel {
    if opcode < 0x1e {
        second_opcode_byte_insn_00_1d(opcode)
    } else if opcode < 0x20 {
        second_opcode_byte_insn_1e_1f(opcode)
    } else if opcode < 0x40 {
        second_opcode_byte_insn_20_3f(opcode)
    } else if opcode < 0x50 {
        second_opcode_byte_insn_40_4f(opcode)
    } else if opcode < 0x80 {
        second_opcode_byte_insn_50_7f(opcode)
    } else if opcode < 0x90 {
        second_opcode_byte_insn_80_8f(opcode)
    } else if opcode < 0xa0 {
        second_opcode_byte_insn_90_9f(opcode)
    } else if opcode < 0xb0 {
        second_opcode_byte_insn_a0_af(opcode)
    } else if opcode < 0xc0 {
        second_opcode_byte_insn_b0_bf(opcode)
    } else {
        second_opcode_byte_insn_c0_ff(opcode)
    }
}

/// The two-byte opcodes, which follow the byte 0x0f: what each of the 256 opcode bytes selects.
pub open spec fn second_opcode_byte_table_model() -> Seq<InsnModel> {
    Seq::new(256, |opcode: int| second_opcode_byte_insn(opcode))
}

/// Whether `entries` are the entries of the first `count` opcodes.
pub open spec fn second_opcode_byte_table_upto(entries: Seq<InsnModel>, count: int) -> bool {
    &&& entries.len() == count
    &&& forall|opcode: int|
        0 <= opcode < count ==> #[trigger] entries[opcode] == second_opcode_byte_insn(opcode)
}

/// Appends the entries of the opcodes 0x00 to 0x1d.
fn push_second_00_1d(table: &mut Vec<InsnInfo>)
    requires
        second_opcode_byte_table_upto(models(old(table)@), 0x00),
    ensures
        second_opcode_byte_table_upto(models(final(table)@), 0x1e),
{
    // 0x00 - 0x1d
    unsupported(table, 0x1e);
}

/// Appends the entries of the opcodes 0x1e to 0x1f.
fn push_second_1e_1f(table: &mut Vec<InsnInfo>)
    requires
        second_opcode_byte_table_upto(models(old(table)@), 0x1e),
    ensures
        second_opcode_byte_table_upto(models(final(table)@), 0x20),
{
    // 0x1e
    push_insn(
        table,
        InsnInfo::ModrmRegOpcodeExt(
            ModrmRegOpcodeExtInsnInfo::new(
                [
                    RegularInsnInfo::unsupported(),
                    RegularInsnInfo::unsupported(),
                    RegularInsnInfo::unsupported(),
                    RegularInsnInfo::unsupported(),
                    RegularInsnInfo::unsupported(),
                    RegularInsnInfo::unsupported(),
                    RegularInsnInfo::unsupported(),
                    RegularInsnInfo { mnemonic: "endbr", ops: no_ops() },
                ],
            ),
        ),
    );
    assert(second_opcode_byte_table_upto(models(table@), 0x1f));
    // 0x1f
    push_insn(
        table,
        InsnInfo::Regular(
            RegularInsnInfo {
                mnemonic: "nop",
                ops: one_op(
                    OpInfo::Rm(
                        OpSizeInfo {
                            with_operand_size_override: OpSize::S16,
                            mode_32: OpSize::S32,
                            mode_64: OpSize::S32,
                            mode_64_with_rex_w: OpSize::S32,
                        },
                    ),
                ),
            },
        ),
    );
}

/// Appends the entries of the opcodes 0x20 to 0x3f.
fn push_second_20_3f(table: &mut Vec<InsnInfo>)
    requires
        second_opcode_byte_table_upto(models(old(table)@), 0x20),
    ensures
        second_opcode_byte_table_upto(models(final(table)@), 0x40),
{
    // 0x20 - 0x3f
    unsupported(table, 0x20);
}

/// Appends the entries of the opcodes 0x40 to 0x4f.
fn push_second_40_4f(table: &mut Vec<InsnInfo>)
    requires
        second_opcode_byte_table_upto(models(old(table)@), 0x40),
    ensures
        second_opcode_byte_table_upto(models(final(table)@), 0x50),
{
    // 0x40 - 0x4f
    repeat(
        table,
        16,
        InsnInfo::Regular(
            RegularInsnInfo {
                mnemonic: "cmovcc",
                ops: three_ops(
                    OpInfo::Cond,
                    OpInfo::r_modrm_16_32_64_def_32(),
                    OpInfo::rm_16_32_64_def_32(),
                ),
            },
        ),
    );
}

/// Appends the entries of the opcodes 0x50 to 0x7f.
fn push_second_50_7f(table: &mut Vec<InsnInfo>)
    requires
        second_opcode_byte_table_upto(models(old(table)@), 0x50),
    ensures
        second_opcode_byte_table_upto(models(final(table)@), 0x80),
{
    // 0x50 - 0x7f
    unsupported(table, 0x30);
}

/// Appends the entries of the opcodes 0x80 to 0x8f.
fn push_second_80_8f(table: &mut Vec<InsnInfo>)
    requires
        second_opcode_byte_table_upto(models(old(table)@), 0x80),
    ensures
        second_opcode_byte_table_upto(models(final(table)@), 0x90),
{
    // 0x80 - 0x8f
    repeat(
        table,
        16,
        InsnInfo::Regular(
            RegularInsnInfo { mnemonic: "jcc", ops: two_ops(OpInfo::Cond, OpInfo::rel_32()) },
        ),
    );
}

/// Appends the entries of the opcodes 0x90 to 0x9f.
fn push_second_90_9f(table: &mut Vec<InsnInfo>)
    requires
        second_opcode_byte_table_upto(models(old(table)@), 0x90),
    ensures
        second_opcode_byte_table_upto(models(final(table)@), 0xa0),
{
    // 0x90 - 0x9f
    repeat(
        table,
        16,
        InsnInfo::Regular(
            RegularInsnInfo { mnemonic: "setcc", ops: two_ops(OpInfo::Cond, OpInfo::rm_8()) },
        ),
    );
}

/// Appends the entries of the opcodes 0xa0 to 0xaf.
fn push_second_a0_af(table: &mut Vec<InsnInfo>)
    requires
        second_opcode_byte_table_upto(models(old(table)@), 0xa0),
    ensures
        second_opcode_byte_table_upto(models(final(table)@), 0xb0),
{
    // 0xa0 - 0xa2
    unsupported(table, 3);
    assert(second_opcode_byte_table_upto(models(table@), 0xa3));
    // 0xa3
    push_insn(
        table,
        InsnInfo::Regular(
            RegularInsnInfo {
                mnemonic: "bt",
                ops: two_ops(OpInfo::rm_16_32_64_def_32(), OpInfo::r_modrm_16_32_64_def_32()),
            },
        ),
    );
    assert(second_opcode_byte_table_upto(models(table@), 0xa4));
    // 0xa4
    push_insn(
        table,
        InsnInfo::Regular(
            RegularInsnInfo {
                mnemonic: "shld",
                ops: three_ops(
                    OpInfo::rm_16_32_64_def_32(),
                    OpInfo::r_modrm_16_32_64_def_32(),
                    OpInfo::Imm(
                        ImmOpInfo {
                            encoded_size: OpSizeInfo::sz_always_8(),
                            extended_size: OpSizeInfo::sz_16_32_64_def_32(),
                            extend_kind: ImmExtendKind::ZeroExtend,
                        },
                    ),
                ),
            },
        ),
    );
    assert(second_opcode_byte_table_upto(models(table@), 0xa5));
    // 0xa5
    push_insn(
        table,
        InsnInfo::Regular(
            RegularInsnInfo {
                mnemonic: "shld",
                ops: three_ops(
                    OpInfo::rm_16_32_64_def_32(),
                    OpInfo::r_modrm_16_32_64_def_32(),
                    OpInfo::ZextSpecificReg(
                        ZextSpecificRegOpInfo {
                            reg: SpecificReg::Rcx,
                            size: OpSizeInfo::sz_always_8(),
                            extended_size: OpSizeInfo::sz_16_32_64_def_32(),
                        },
                    ),
                ),
            },
        ),
    );
    assert(second_opcode_byte_table_upto(models(table@), 0xa6));
    // 0xa6 - 0xab
    unsupported(table, 6);
    assert(second_opcode_byte_table_upto(models(table@), 0xac));
    // 0xac
    push_insn(
        table,
        InsnInfo::Regular(
            RegularInsnInfo {
                mnemonic: "shrd",
                ops: three_ops(
                    OpInfo::rm_16_32_64_def_32(),
                    OpInfo::r_modrm_16_32_64_def_32(),
                    OpInfo::Imm(
                        ImmOpInfo {
                            encoded_size: OpSizeInfo::sz_always_8(),
                            extended_size: OpSizeInfo::sz_16_32_64_def_32(),
                            extend_kind: ImmExtendKind::ZeroExtend,
                        },
                    ),
                ),
            },
        ),
    );
    assert(second_opcode_byte_table_upto(models(table@), 0xad));
    // 0xad
    push_insn(
        table,
        InsnInfo::Regular(
            RegularInsnInfo {
                mnemonic: "shrd",
                ops: three_ops(
                    OpInfo::rm_16_32_64_def_32(),
                    OpInfo::r_modrm_16_32_64_def_32(),
                    OpInfo::ZextSpecificReg(
                        ZextSpecificRegOpInfo {
                            reg: SpecificReg::Rcx,
                            size: OpSizeInfo::sz_always_8(),
                            extended_size: OpSizeInfo::sz_16_32_64_def_32(),
                        },
                    ),
                ),
            },
        ),
    );
    assert(second_opcode_byte_table_upto(models(table@), 0xae));
    // 0xae
    unsupported(table, 1);
    assert(second_opcode_byte_table_upto(models(table@), 0xaf));
    // 0xaf
    push_insn(
        table,
        InsnInfo::Regular(
            RegularInsnInfo {
                mnemonic: "imul",
                ops: two_ops(OpInfo::r_modrm_16_32_64_def_32(), OpInfo::rm_16_32_64_def_32()),
            },
        ),
    );
}

/// Appends the entries of the opcodes 0xb0 to 0xbf.
fn push_second_b0_bf(table: &mut Vec<InsnInfo>)
    requires
        second_opcode_byte_table_upto(models(old(table)@), 0xb0),
    ensures
        second_opcode_byte_table_upto(models(final(table)@), 0xc0),
{
    // 0xb0 - 0xb5
    unsupported(table, 6);
    assert(second_opcode_byte_table_upto(models(table@), 0xb6));
    // 0xb6
    push_insn(
        table,
        InsnInfo::Regular(
            RegularInsnInfo {
                mnemonic: "movzx",
                ops: two_ops(OpInfo::r_modrm_16_32_64_def_32(), OpInfo::rm_8()),
            },
        ),
    );
    assert(second_opcode_byte_table_upto(models(table@), 0xb7));
    // 0xb7
    push_insn(
        table,
        InsnInfo::Regular(
            RegularInsnInfo {
                mnemonic: "movzx",
                ops: two_ops(
                    OpInfo::r_modrm_16_32_64_def_32(),
                    OpInfo::Rm(OpSizeInfo::sz_always_16()),
                ),
            },
        ),
    );
    assert(second_opcode_byte_table_upto(models(table@), 0xb8));
    // 0xb8 - 0xbd
    unsupported(table, 6);
    assert(second_opcode_byte_table_upto(models(table@), 0xbe));
    // 0xbe
    push_insn(
        table,
        InsnInfo::Regular(
            RegularInsnInfo {
                mnemonic: "movsx",
                ops: two_ops(OpInfo::r_modrm_16_32_64_def_32(), OpInfo::rm_8()),
            },
        ),
    );
    assert(second_opcode_byte_table_upto(models(table@), 0xbf));
    // 0xbf
    push_insn(
        table,
        InsnInfo::Regular(
            RegularInsnInfo {
                mnemonic: "movsx",
                ops: two_ops(
                    OpInfo::r_modrm_16_32_64_def_32(),
                    OpInfo::Rm(OpSizeInfo::sz_always_16()),
                ),
            },
        ),
    );
}

/// Appends the entries of the opcodes 0xc0 to 0xff.
fn push_second_c0_ff(table: &mut Vec<InsnInfo>)
    requires
        second_opcode_byte_table_upto(models(old(table)@), 0xc0),
    ensures
        second_opcode_byte_table_upto(models(final(table)@), 0x100),
{
    // 0xc0 - 0xff
    unsupported(table, 0x40);
}

/// No instruction of the table has more than three operands.
pub proof fn lemma_second_opcode_byte_table_operands()
    ensures
        operand_lists_within(second_opcode_byte_table_model(), 3),
{
    let table = second_opcode_byte_table_model();
    assert forall|opcode: int, reg: int|
        0 <= opcode < table.len() && 0 <= reg < regular_insns_of(table[opcode]).len() implies (
    #[trigger] regular_insns_of(table[opcode])[reg]).ops.len() <= 3 by {
        if 0x00 <= opcode < 0x1e {
            assert(table[opcode] == second_opcode_byte_insn_00_1d(opcode));
        }
        if 0x1e <= opcode < 0x20 {
            assert(table[opcode] == second_opcode_byte_insn_1e_1f(opcode));
        }
        if 0x20 <= opcode < 0x40 {
            assert(table[opcode] == second_opcode_byte_insn_20_3f(opcode));
        }
        if 0x40 <= opcode < 0x50 {
            assert(table[opcode] == second_opcode_byte_insn_40_4f(opcode));
        }
        if 0x50 <= opcode < 0x80 {
            assert(table[opcode] == second_opcode_byte_insn_50_7f(opcode));
        }
        if 0x80 <= opcode < 0x90 {
            assert(table[opcode] == second_opcode_byte_insn_80_8f(opcode));
        }
        if 0x90 <= opcode < 0xa0 {
            assert(table[opcode] == second_opcode_byte_insn_90_9f(opcode));
        }
        if 0xa0 <= opcode < 0xb0 {
            assert(table[opcode] == second_opcode_byte_insn_a0_af(opcode));
        }
        if 0xb0 <= opcode < 0xc0 {
            assert(table[opcode] == second_opcode_byte_insn_b0_bf(opcode));
        }
        if 0xc0 <= opcode < 0x100 {
            assert(table[opcode] == second_opcode_byte_insn_c0_ff(opcode));
        }
    }
}

/// Builds the two-byte opcodes, which follow the byte 0x0f.
pub fn gen_second_opcode_byte_table() -> (table: Vec<InsnInfo>)
    ensures
        table@.len() == 256,
        models(table@) == second_opcode_byte_table_model(),
{
    let mut table = Vec::new();
    push_second_00_1d(&mut table);
    push_second_1e_1f(&mut table);
    push_second_20_3f(&mut table);
    push_second_40_4f(&mut table);
    push_second_50_7f(&mut table);
    push_second_80_8f(&mut table);
    push_second_90_9f(&mut table);
    push_second_a0_af(&mut table);
    push_second_b0_bf(&mut table);
    push_second_c0_ff(&mut table);
    assert(models(table@) =~= second_opcode_byte_table_model());
    table
}

} // verus!
