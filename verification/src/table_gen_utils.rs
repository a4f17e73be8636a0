//! Helpers that append runs of entries to an opcode table under construction.

use crate::table_types::{
    ImmExtendKind, ImmOpInfo, InsnInfo, InsnModel, Mnemonic, OpInfo, OpSizeInfo, RegularInsnInfo,
    RegularInsnModel,
};
use crate::unique_set::models;
use vstd::prelude::*;

verus! {

/// The six entries of a two-operand arithmetic instruction, in the order of their opcodes:
/// byte-sized and full-sized, to memory or register and from it, and on the accumulator with
/// an immediate.
pub open spec fn simple_binary_op_entries(mnemonic: Seq<char>) -> Seq<InsnModel> {
    seq![
        InsnModel::Regular(
            RegularInsnModel { mnemonic, ops: seq![OpInfo::rm_8(), OpInfo::r_modrm_8()] },
        ),
        InsnModel::Regular(
            RegularInsnModel {
                mnemonic,
                ops: seq![OpInfo::rm_16_32_64_def_32(), OpInfo::r_modrm_16_32_64_def_32()],
            },
        ),
        InsnModel::Regular(
            RegularInsnModel { mnemonic, ops: seq![OpInfo::r_modrm_8(), OpInfo::rm_8()] },
        ),
        InsnModel::Regular(
            RegularInsnModel {
                mnemonic,
                ops: seq![OpInfo::r_modrm_16_32_64_def_32(), OpInfo::rm_16_32_64_def_32()],
            },
        ),
        InsnModel::Regular(
            RegularInsnModel { mnemonic, ops: seq![OpInfo::al(), OpInfo::imm_8_no_ext()] },
        ),
        InsnModel::Regular(
            RegularInsnModel {
                mnemonic,
                ops: seq![
                    OpInfo::ax_16_32_64_def_32(),
                    OpInfo::Imm(
                        ImmOpInfo {
                            encoded_size: OpSizeInfo::sz_imm_encoding_16_32(),
                            extended_size: OpSizeInfo::sz_16_32_64_def_32(),
                            extend_kind: ImmExtendKind::SignExtend,
                        },
                    ),
                ],
            },
        ),
    ]
}

/// The entry of an instruction that its opcode selects alone.
pub open spec fn regular_entry(mnemonic: Seq<char>, ops: Seq<OpInfo>) -> InsnModel {
    InsnModel::Regular(RegularInsnModel { mnemonic, ops })
}

/// The entry of an opcode that the table does not describe.
pub open spec fn unsupported_entry() -> InsnModel {
    InsnModel::Regular(RegularInsnInfo::unsupported_model())
}

/// Appends one entry.
pub fn push_insn(table: &mut Vec<InsnInfo>, insn: InsnInfo)
    ensures
        models(final(table)@) == models(old(table)@).push(insn@),
{
    table.push(insn);
    assert(models(table@) =~= models(old(table)@).push(insn@));
}

/// Appends the six entries of a two-operand arithmetic instruction.
pub fn simple_binary_op(table: &mut Vec<InsnInfo>, mnemonic: Mnemonic)
    ensures
        models(final(table)@) == models(old(table)@) + simple_binary_op_entries(mnemonic@),
{
    table.push(
        InsnInfo::Regular(
            RegularInsnInfo { mnemonic, ops: vec![OpInfo::rm_8(), OpInfo::r_modrm_8()] },
        ),
    );
    table.push(
        InsnInfo::Regular(
            RegularInsnInfo {
                mnemonic,
                ops: vec![OpInfo::rm_16_32_64_def_32(), OpInfo::r_modrm_16_32_64_def_32()],
            },
        ),
    );
    table.push(
        InsnInfo::Regular(
            RegularInsnInfo { mnemonic, ops: vec![OpInfo::r_modrm_8(), OpInfo::rm_8()] },
        ),
    );
    table.push(
        InsnInfo::Regular(
            RegularInsnInfo {
                mnemonic,
                ops: vec![OpInfo::r_modrm_16_32_64_def_32(), OpInfo::rm_16_32_64_def_32()],
            },
        ),
    );
    table.push(
        InsnInfo::Regular(
            RegularInsnInfo { mnemonic, ops: vec![OpInfo::al(), OpInfo::imm_8_no_ext()] },
        ),
    );
    table.push(
        InsnInfo::Regular(
            RegularInsnInfo {
                mnemonic,
                ops: vec![
                    OpInfo::ax_16_32_64_def_32(),
                    OpInfo::Imm(
                        ImmOpInfo {
                            encoded_size: OpSizeInfo::sz_imm_encoding_16_32(),
                            extended_size: OpSizeInfo::sz_16_32_64_def_32(),
                            extend_kind: ImmExtendKind::SignExtend,
                        },
                    ),
                ],
            },
        ),
    );
    proof {
        let added = simple_binary_op_entries(mnemonic@);
        let now = models(table@);
        let start = old(table)@.len() as int;
        assert(now.len() == start + 6);
        assert forall|i: int| start <= i < start + 6 implies now[i] == added[i - start] by {
            assert(table@[i]@ is Regular);
            assert(table@[i]@->Regular_0.ops =~= added[i - start]->Regular_0.ops);
        }
        assert(now =~= models(old(table)@) + added);
    }
}

/// Appends `amount` copies of `entry`.
pub fn repeat(table: &mut Vec<InsnInfo>, amount: usize, entry: InsnInfo)
    ensures
        models(final(table)@) == models(old(table)@) + Seq::new(amount as nat, |i: int| entry@),
{
    let mut added: usize = 0;
    while added < amount
        invariant
            added <= amount,
            models(table@) == models(old(table)@) + Seq::new(added as nat, |i: int| entry@),
        decreases amount - added,
    {
        let ghost before = models(table@);
        table.push(entry.clone());
        added += 1;
        proof {
            assert(models(table@) =~= before.push(entry@));
            assert(models(table@) =~= models(old(table)@) + Seq::new(
                added as nat,
                |i: int| entry@,
            ));
        }
    }
}

/// Appends `amount` entries for opcodes that the table does not describe.
pub fn unsupported(table: &mut Vec<InsnInfo>, amount: usize)
    ensures
        models(final(table)@) == models(old(table)@) + Seq::new(
            amount as nat,
            |i: int| InsnModel::Regular(RegularInsnInfo::unsupported_model()),
        ),
{
    repeat(table, amount, InsnInfo::Regular(RegularInsnInfo::unsupported()))
}

} // verus!
