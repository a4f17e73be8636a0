//! Writes the compiled tables as C code: the declarations of the types, and the tables.

use crate::c_emitter::{
    bit_field_min_size_line, bit_field_min_size_text, closing, enum_text, int_entry_text,
    min_int_type_required_for_field,
    nested_struct_opening, struct_field_opening, struct_opening, system_include_text,
    table_opening, union_opening, value_field_text, CEmitter, CStructEmitter, CTableEmitter,
    CTaggedUnionEmitter,
};
use crate::decimal::{decimal, decimal_string};
use crate::names::{
    imm_ext_kind_to_c_variant_name, mnemonic_c_name, mnemonic_c_names,
    mnemonic_to_c_variant_name, mnemonics_to_c_variant_names, op_kind_to_c_variant_name,
    op_size_c_name, op_size_c_names, op_size_to_c_variant_name, op_sizes_to_c_variant_names,
    reg_encoding_to_c_variant_name, specific_imm_to_c_variant_name,
    specific_reg_to_c_variant_name, variant_c_name, variant_c_names, variants_to_c_variant_names,
};
use crate::first_opcode_byte_table::{
    first_opcode_byte_table_model, gen_first_opcode_byte_table,
    lemma_first_opcode_byte_table_operands,
};
use crate::opcode_table::{OpcodeTable, OPCODE_TABLE_LEN};
use crate::table_compiler::{
    compile_table, compiled_tables_of, lemma_compiled_mnemonics_resolve,
    lemma_compiling_is_deterministic,
    lemma_insn_max_ops_within, operand_lists_within, CompiledTables, CompiledTablesModel,
    InsnRecord, OpInfoRecord,
};
use crate::table_types::{
    ImmExtendKind, InsnInfo, InsnModel, Mnemonic, OpInfo, OpSize, OpSizeInfo, RegEncoding,
    SpecificImm, SpecificReg,
};
use crate::unique_set::models;
use crate::width::{int_type_name, storage_width};
use vstd::prelude::*;

verus! {

/// The entry of a size descriptor in the table of size descriptors.
pub open spec fn op_size_info_entry_text(size: OpSizeInfo) -> Seq<char> {
    "{"@ + value_field_text(
        "with_operand_size_override"@,
        op_size_c_name(size.with_operand_size_override),
    ) + value_field_text("mode_32"@, op_size_c_name(size.mode_32)) + value_field_text(
        "mode_64"@,
        op_size_c_name(size.mode_64),
    ) + value_field_text("mode_64_with_rex_w"@, op_size_c_name(size.mode_64_with_rex_w)) + "},\n"@
}

/// The entries of the table of size descriptors.
pub open spec fn op_size_info_entries_text(sizes: Seq<OpSizeInfo>) -> Seq<char>
    decreases sizes.len(),
{
    if sizes.len() == 0 {
        Seq::empty()
    } else {
        op_size_info_entries_text(sizes.drop_last()) + op_size_info_entry_text(sizes.last())
    }
}

/// The table of size descriptors.
pub open spec fn op_size_infos_table_text(sizes: Seq<OpSizeInfo>) -> Seq<char> {
    table_opening("op_size_info_t"@, "op_size_infos_table"@) + op_size_info_entries_text(sizes)
        + "};\n"@
}

/// Writes the entry of a size descriptor.
fn emit_op_size_info_entry(table: &mut CTableEmitter, size: &OpSizeInfo)
    ensures
        final(table).emitter@ == old(table).emitter@ + op_size_info_entry_text(*size),
        final(final(table).emitter)@ == final(old(table).emitter)@,
{
    table.begin_entry().field(
        "with_operand_size_override",
        op_size_to_c_variant_name(size.with_operand_size_override).as_str(),
    ).field("mode_32", op_size_to_c_variant_name(size.mode_32).as_str()).field(
        "mode_64",
        op_size_to_c_variant_name(size.mode_64).as_str(),
    ).field(
        "mode_64_with_rex_w",
        op_size_to_c_variant_name(size.mode_64_with_rex_w).as_str(),
    ).emit();
    assert(table.emitter@ =~= old(table).emitter@ + op_size_info_entry_text(*size));
}

/// Writes the table of size descriptors.
pub fn emit_op_size_infos_table(tables_file: &mut CEmitter, op_size_infos: &Vec<OpSizeInfo>)
    ensures
        final(tables_file)@ == old(tables_file)@ + op_size_infos_table_text(op_size_infos@),
{
    let mut table = tables_file.begin_table("op_size_info_t", "op_size_infos_table");
    let ghost start = table.emitter@;
    let mut i: usize = 0;
    while i < op_size_infos.len()
        invariant
            i <= op_size_infos.len(),
            table.emitter@ == start + op_size_info_entries_text(op_size_infos@.take(i as int)),
            after_borrow(*tables_file)@ == final(table.emitter)@,
        decreases op_size_infos.len() - i,
    {
        proof {
            assert(op_size_infos@.take(i + 1).drop_last() =~= op_size_infos@.take(i as int));
        }
        emit_op_size_info_entry(&mut table, &op_size_infos[i]);
        i += 1;
        assert(table.emitter@ =~= start + op_size_info_entries_text(
            op_size_infos@.take(i as int),
        ));
    }
    assert(op_size_infos@.take(i as int) =~= op_size_infos@);
    table.emit();
    assert(final(tables_file)@ =~= old(tables_file)@ + op_size_infos_table_text(op_size_infos@));
}

/// The enumerator of the kind of operand that a record stands for.
pub open spec fn op_kind_c_name(record: OpInfoRecord) -> Seq<char> {
    variant_c_name("OP_KIND_"@, record.spec_variant_name())
}

/// An array entry that is a literal of a union: the one member `member` is a struct, whose
/// members are given by `members`.
pub open spec fn union_literal_text(member: Seq<char>, members: Seq<char>) -> Seq<char> {
    "{"@ + struct_field_opening(member) + members + "},\n"@ + "},\n"@
}

/// The assignment of a number to a named member in a struct literal.
pub open spec fn index_field_text(field_name: Seq<char>, index: usize) -> Seq<char> {
    value_field_text(field_name, decimal(index as nat))
}

/// The entry of an operand record in the operand table: a literal of the union member of the
/// record's kind, which holds the kind, the positions of the operand's size descriptors in the
/// table of size descriptors, and the operand's other properties by their enumerators.
pub open spec fn op_info_entry_text(record: OpInfoRecord) -> Seq<char> {
    let kind = value_field_text("kind"@, op_kind_c_name(record));
    match record {
        OpInfoRecord::Imm { encoded_size_info_index, extended_size_info_index, extend_kind } => {
            union_literal_text(
                "imm"@,
                kind + index_field_text("encoded_size_info_index"@, encoded_size_info_index)
                    + index_field_text("extended_size_info_index"@, extended_size_info_index)
                    + value_field_text(
                    "extend_kind"@,
                    variant_c_name("IMM_EXT_"@, extend_kind.spec_variant_name()),
                ),
            )
        },
        OpInfoRecord::SpecificImm { operand_size_info_index, value } => union_literal_text(
            "specific_imm"@,
            kind + index_field_text("operand_size_info_index"@, operand_size_info_index)
                + value_field_text(
                "value"@,
                variant_c_name("SPECIFIC_IMM_"@, value.spec_variant_name()),
            ),
        ),
        OpInfoRecord::Reg { size_info_index, encoding } => union_literal_text(
            "reg"@,
            kind + index_field_text("size_info_index"@, size_info_index) + value_field_text(
                "encoding"@,
                variant_c_name("REG_ENC_"@, encoding.spec_variant_name()),
            ),
        ),
        OpInfoRecord::Rm { size_info_index } => union_literal_text(
            "rm"@,
            kind + index_field_text("size_info_index"@, size_info_index),
        ),
        OpInfoRecord::SpecificReg { size_info_index, reg } => union_literal_text(
            "specific_reg"@,
            kind + index_field_text("size_info_index"@, size_info_index) + value_field_text(
                "reg"@,
                variant_c_name("SPECIFIC_REG_"@, reg.spec_variant_name()),
            ),
        ),
        OpInfoRecord::ZextSpecificReg { size_info_index, extended_size_info_index, reg } => {
            union_literal_text(
                "zext_specific_reg"@,
                kind + index_field_text("size_info_index"@, size_info_index) + index_field_text(
                    "extended_size_info_index"@,
                    extended_size_info_index,
                ) + value_field_text(
                    "reg"@,
                    variant_c_name("SPECIFIC_REG_"@, reg.spec_variant_name()),
                ),
            )
        },
        OpInfoRecord::Rel { size_info_index } => union_literal_text(
            "rel"@,
            kind + index_field_text("size_info_index"@, size_info_index),
        ),
        OpInfoRecord::MemOffset { mem_operand_size_info_index } => union_literal_text(
            "mem_offset"@,
            kind + index_field_text("mem_operand_size_info_index"@, mem_operand_size_info_index),
        ),
        OpInfoRecord::Implicit { size_info_index } => union_literal_text(
            "implicit"@,
            kind + index_field_text("size_info_index"@, size_info_index),
        ),
        OpInfoRecord::Cond => union_literal_text("cond"@, kind),
    }
}

/// The entries of the operand table.
pub open spec fn op_info_entries_text(records: Seq<OpInfoRecord>) -> Seq<char>
    decreases records.len(),
{
    if records.len() == 0 {
        Seq::empty()
    } else {
        op_info_entries_text(records.drop_last()) + op_info_entry_text(records.last())
    }
}

/// The operand table.
pub open spec fn op_infos_table_text(records: Seq<OpInfoRecord>) -> Seq<char> {
    table_opening("op_info_t"@, "op_infos_table"@) + op_info_entries_text(records) + "};\n"@
}

/// Writes an entry that holds nothing but its kind.
fn emit_kind_entry(table: &mut CTableEmitter, member: &str, kind: &str)
    ensures
        final(table).emitter@ == old(table).emitter@ + union_literal_text(
            member@,
            value_field_text("kind"@, kind@),
        ),
        final(final(table).emitter)@ == final(old(table).emitter)@,
{
    let mut entry = table.begin_entry();
    entry.begin_struct_field(member).field("kind", kind).emit();
    entry.emit();
    assert(table.emitter@ =~= old(table).emitter@ + union_literal_text(
        member@,
        value_field_text("kind"@, kind@),
    ));
}

/// Writes an entry that holds its kind and one index.
fn emit_index_entry(
    table: &mut CTableEmitter,
    member: &str,
    kind: &str,
    field_name: &str,
    index: usize,
)
    ensures
        final(table).emitter@ == old(table).emitter@ + union_literal_text(
            member@,
            value_field_text("kind"@, kind@) + index_field_text(field_name@, index),
        ),
        final(final(table).emitter)@ == final(old(table).emitter)@,
{
    let mut entry = table.begin_entry();
    entry.begin_struct_field(member).field("kind", kind).field_int(field_name, index).emit();
    entry.emit();
    assert(table.emitter@ =~= old(table).emitter@ + union_literal_text(
        member@,
        value_field_text("kind"@, kind@) + index_field_text(field_name@, index),
    ));
}

/// Writes an entry that holds its kind, one index and one enumerator.
fn emit_index_and_value_entry(
    table: &mut CTableEmitter,
    member: &str,
    kind: &str,
    field_name: &str,
    index: usize,
    value_field_name: &str,
    value: &str,
)
    ensures
        final(table).emitter@ == old(table).emitter@ + union_literal_text(
            member@,
            value_field_text("kind"@, kind@) + index_field_text(field_name@, index)
                + value_field_text(value_field_name@, value@),
        ),
        final(final(table).emitter)@ == final(old(table).emitter)@,
{
    let mut entry = table.begin_entry();
    entry.begin_struct_field(member).field("kind", kind).field_int(field_name, index).field(
        value_field_name,
        value,
    ).emit();
    entry.emit();
    assert(table.emitter@ =~= old(table).emitter@ + union_literal_text(
        member@,
        value_field_text("kind"@, kind@) + index_field_text(field_name@, index) + value_field_text(
            value_field_name@,
            value@,
        ),
    ));
}

/// Writes an entry that holds its kind, two indices and one enumerator.
fn emit_two_indices_and_value_entry(
    table: &mut CTableEmitter,
    member: &str,
    kind: &str,
    field_name: &str,
    index: usize,
    second_field_name: &str,
    second_index: usize,
    value_field_name: &str,
    value: &str,
)
    ensures
        final(table).emitter@ == old(table).emitter@ + union_literal_text(
            member@,
            value_field_text("kind"@, kind@) + index_field_text(field_name@, index)
                + index_field_text(second_field_name@, second_index) + value_field_text(
                value_field_name@,
                value@,
            ),
        ),
        final(final(table).emitter)@ == final(old(table).emitter)@,
{
    let mut entry = table.begin_entry();
    entry.begin_struct_field(member).field("kind", kind).field_int(field_name, index).field_int(
        second_field_name,
        second_index,
    ).field(value_field_name, value).emit();
    entry.emit();
    assert(table.emitter@ =~= old(table).emitter@ + union_literal_text(
        member@,
        value_field_text("kind"@, kind@) + index_field_text(field_name@, index)
            + index_field_text(second_field_name@, second_index) + value_field_text(
            value_field_name@,
            value@,
        ),
    ));
}

/// Writes the entry of an operand record.
pub fn emit_op_info_entry(table: &mut CTableEmitter, record: &OpInfoRecord)
    ensures
        final(table).emitter@ == old(table).emitter@ + op_info_entry_text(*record),
        final(final(table).emitter)@ == final(old(table).emitter)@,
{
    let op_kind_c_variant = op_kind_to_c_variant_name(record.variant_name());
    let kind = op_kind_c_variant.as_str();
    match record {
        OpInfoRecord::Imm { encoded_size_info_index, extended_size_info_index, extend_kind } => {
            emit_two_indices_and_value_entry(
                table,
                "imm",
                kind,
                "encoded_size_info_index",
                *encoded_size_info_index,
                "extended_size_info_index",
                *extended_size_info_index,
                "extend_kind",
                imm_ext_kind_to_c_variant_name(extend_kind.variant_name()).as_str(),
            )
        },
        OpInfoRecord::SpecificImm { operand_size_info_index, value } => {
            emit_index_and_value_entry(
                table,
                "specific_imm",
                kind,
                "operand_size_info_index",
                *operand_size_info_index,
                "value",
                specific_imm_to_c_variant_name(value.variant_name()).as_str(),
            )
        },
        OpInfoRecord::Reg { size_info_index, encoding } => emit_index_and_value_entry(
            table,
            "reg",
            kind,
            "size_info_index",
            *size_info_index,
            "encoding",
            reg_encoding_to_c_variant_name(encoding.variant_name()).as_str(),
        ),
        OpInfoRecord::Rm { size_info_index } => emit_index_entry(
            table,
            "rm",
            kind,
            "size_info_index",
            *size_info_index,
        ),
        OpInfoRecord::SpecificReg { size_info_index, reg } => emit_index_and_value_entry(
            table,
            "specific_reg",
            kind,
            "size_info_index",
            *size_info_index,
            "reg",
            specific_reg_to_c_variant_name(reg.variant_name()).as_str(),
        ),
        OpInfoRecord::ZextSpecificReg { size_info_index, extended_size_info_index, reg } => {
            emit_two_indices_and_value_entry(
                table,
                "zext_specific_reg",
                kind,
                "size_info_index",
                *size_info_index,
                "extended_size_info_index",
                *extended_size_info_index,
                "reg",
                specific_reg_to_c_variant_name(reg.variant_name()).as_str(),
            )
        },
        OpInfoRecord::Rel { size_info_index } => emit_index_entry(
            table,
            "rel",
            kind,
            "size_info_index",
            *size_info_index,
        ),
        OpInfoRecord::MemOffset { mem_operand_size_info_index } => emit_index_entry(
            table,
            "mem_offset",
            kind,
            "mem_operand_size_info_index",
            *mem_operand_size_info_index,
        ),
        OpInfoRecord::Implicit { size_info_index } => emit_index_entry(
            table,
            "implicit",
            kind,
            "size_info_index",
            *size_info_index,
        ),
        OpInfoRecord::Cond => emit_kind_entry(table, "cond", kind),
    }
}

/// Writes the operand table.
pub fn emit_op_infos_table(tables_file: &mut CEmitter, op_infos: &Vec<OpInfoRecord>)
    ensures
        final(tables_file)@ == old(tables_file)@ + op_infos_table_text(op_infos@),
{
    let mut table = tables_file.begin_table("op_info_t", "op_infos_table");
    let ghost start = table.emitter@;
    let mut i: usize = 0;
    while i < op_infos.len()
        invariant
            i <= op_infos.len(),
            table.emitter@ == start + op_info_entries_text(op_infos@.take(i as int)),
            after_borrow(*tables_file)@ == final(table.emitter)@,
        decreases op_infos.len() - i,
    {
        proof {
            assert(op_infos@.take(i + 1).drop_last() =~= op_infos@.take(i as int));
        }
        emit_op_info_entry(&mut table, &op_infos[i]);
        i += 1;
        assert(table.emitter@ =~= start + op_info_entries_text(op_infos@.take(i as int)));
    }
    assert(op_infos@.take(i as int) =~= op_infos@);
    table.emit();
    assert(final(tables_file)@ =~= old(tables_file)@ + op_infos_table_text(op_infos@));
}

/// The entries of the operand layout: one number each.
pub open spec fn laid_out_entries_text(indices: Seq<usize>) -> Seq<char>
    decreases indices.len(),
{
    if indices.len() == 0 {
        Seq::empty()
    } else {
        laid_out_entries_text(indices.drop_last()) + int_entry_text(indices.last() as nat)
    }
}

/// The operand layout, as an array of the smallest integer type that holds an index into the
/// operand table.
pub open spec fn laid_out_ops_infos_table_text(op_infos_amount: nat, indices: Seq<usize>) -> Seq<
    char,
> {
    table_opening(int_type_name(storage_width(op_infos_amount)), "laid_out_ops_infos_table"@)
        + laid_out_entries_text(indices) + "};\n"@
}

/// Writes the operand layout.
pub fn emit_laid_out_ops_infos_table(
    tables_file: &mut CEmitter,
    op_infos_amount: usize,
    laid_out_ops_infos: &Vec<usize>,
)
    ensures
        final(tables_file)@ == old(tables_file)@ + laid_out_ops_infos_table_text(
            op_infos_amount as nat,
            laid_out_ops_infos@,
        ),
{
    let mut table = tables_file.begin_table(
        min_int_type_required_for_field(op_infos_amount),
        "laid_out_ops_infos_table",
    );
    let ghost start = table.emitter@;
    let mut i: usize = 0;
    while i < laid_out_ops_infos.len()
        invariant
            i <= laid_out_ops_infos.len(),
            table.emitter@ == start + laid_out_entries_text(laid_out_ops_infos@.take(i as int)),
            after_borrow(*tables_file)@ == final(table.emitter)@,
        decreases laid_out_ops_infos.len() - i,
    {
        proof {
            assert(laid_out_ops_infos@.take(i + 1).drop_last() =~= laid_out_ops_infos@.take(
                i as int,
            ));
        }
        table.emit_int_entry(laid_out_ops_infos[i]);
        i += 1;
        assert(table.emitter@ =~= start + laid_out_entries_text(
            laid_out_ops_infos@.take(i as int),
        ));
    }
    assert(laid_out_ops_infos@.take(i as int) =~= laid_out_ops_infos@);
    table.emit();
    assert(final(tables_file)@ =~= old(tables_file)@ + laid_out_ops_infos_table_text(
        op_infos_amount as nat,
        laid_out_ops_infos@,
    ));
}

/// The entry of an opcode in the opcode table: a literal of the union member `regular`,
/// with the mnemonic and the place of the operands in the operand layout, or of the member
/// `modrm_reg_opcode_ext`, with the pseudo-mnemonic and the number of the sub-table.
pub open spec fn insn_entry_text(record: InsnRecord, mnemonics: Seq<Seq<char>>) -> Seq<char> {
    match record {
        InsnRecord::Regular { mnemonic_index, first_op_index, ops_amount } => union_literal_text(
            "regular"@,
            value_field_text("mnemonic"@, mnemonic_c_name(mnemonics[mnemonic_index as int]))
                + index_field_text("first_op_index"@, first_op_index) + index_field_text(
                "ops_amount"@,
                ops_amount,
            ),
        ),
        InsnRecord::ModrmRegOpcodeExt { mnemonic_index, modrm_reg_table_index } => {
            union_literal_text(
                "modrm_reg_opcode_ext"@,
                value_field_text("mnemonic"@, mnemonic_c_name(mnemonics[mnemonic_index as int]))
                    + index_field_text("modrm_reg_table_index"@, modrm_reg_table_index),
            )
        },
    }
}

/// The entries of the opcode table.
pub open spec fn insn_entries_text(records: Seq<InsnRecord>, mnemonics: Seq<Seq<char>>) -> Seq<
    char,
>
    decreases records.len(),
{
    if records.len() == 0 {
        Seq::empty()
    } else {
        insn_entries_text(records.drop_last(), mnemonics) + insn_entry_text(
            records.last(),
            mnemonics,
        )
    }
}

/// The opcode table.
pub open spec fn insn_table_text(
    table_name: Seq<char>,
    records: Seq<InsnRecord>,
    mnemonics: Seq<Seq<char>>,
) -> Seq<char> {
    table_opening("insn_info_t"@, table_name) + insn_entries_text(records, mnemonics) + "};\n"@
}

/// Whether every record names a mnemonic of the list.
pub open spec fn mnemonics_resolve(records: Seq<InsnRecord>, mnemonics_amount: nat) -> bool {
    forall|i: int|
        0 <= i < records.len() ==> (#[trigger] records[i]).spec_mnemonic_index() < mnemonics_amount
}

/// Writes the entry of an opcode.
fn emit_insn_entry(table: &mut CTableEmitter, record: &InsnRecord, mnemonics: &Vec<Mnemonic>)
    requires
        record.spec_mnemonic_index() < mnemonics.len(),
    ensures
        final(table).emitter@ == old(table).emitter@ + insn_entry_text(
            *record,
            models(mnemonics@),
        ),
        final(final(table).emitter)@ == final(old(table).emitter)@,
{
    let mut entry = table.begin_entry();
    match record {
        InsnRecord::Regular { mnemonic_index, first_op_index, ops_amount } => {
            entry.begin_struct_field("regular").field(
                "mnemonic",
                mnemonic_to_c_variant_name(mnemonics[*mnemonic_index]).as_str(),
            ).field_int("first_op_index", *first_op_index).field_int(
                "ops_amount",
                *ops_amount,
            ).emit();
        },
        InsnRecord::ModrmRegOpcodeExt { mnemonic_index, modrm_reg_table_index } => {
            entry.begin_struct_field("modrm_reg_opcode_ext").field(
                "mnemonic",
                mnemonic_to_c_variant_name(mnemonics[*mnemonic_index]).as_str(),
            ).field_int("modrm_reg_table_index", *modrm_reg_table_index).emit();
        },
    }
    entry.emit();
    assert(table.emitter@ =~= old(table).emitter@ + insn_entry_text(*record, models(mnemonics@)));
}

/// Writes the opcode table under the name `table_name`.
pub fn emit_insn_table(
    tables_file: &mut CEmitter,
    table_name: &str,
    insns: &Vec<InsnRecord>,
    mnemonics: &Vec<Mnemonic>,
)
    requires
        mnemonics_resolve(insns@, mnemonics@.len()),
    ensures
        final(tables_file)@ == old(tables_file)@ + insn_table_text(
            table_name@,
            insns@,
            models(mnemonics@),
        ),
{
    let mut table = tables_file.begin_table("insn_info_t", table_name);
    let ghost start = table.emitter@;
    let ghost names = models(mnemonics@);
    let mut i: usize = 0;
    while i < insns.len()
        invariant
            i <= insns.len(),
            names == models(mnemonics@),
            mnemonics_resolve(insns@, mnemonics@.len()),
            table.emitter@ == start + insn_entries_text(insns@.take(i as int), names),
            after_borrow(*tables_file)@ == final(table.emitter)@,
        decreases insns.len() - i,
    {
        proof {
            assert(insns@.take(i + 1).drop_last() =~= insns@.take(i as int));
        }
        emit_insn_entry(&mut table, &insns[i], mnemonics);
        i += 1;
        assert(table.emitter@ =~= start + insn_entries_text(insns@.take(i as int), names));
    }
    assert(insns@.take(i as int) =~= insns@);
    table.emit();
    assert(final(tables_file)@ =~= old(tables_file)@ + insn_table_text(
        table_name@,
        insns@,
        names,
    ));
}

/// The code of the tables: the table of size descriptors, the operand table, the operand
/// layout and the opcode table.
pub open spec fn tables_text(compiled: CompiledTablesModel, table_name: Seq<char>) -> Seq<char> {
    op_size_infos_table_text(compiled.sets.op_size_infos) + op_infos_table_text(compiled.op_infos)
        + laid_out_ops_infos_table_text(compiled.op_infos.len(), compiled.laid_out_ops_infos)
        + insn_table_text(table_name, compiled.insns, compiled.sets.mnemonics)
}

/// Writes the code of the tables.
pub fn emit_tables(tables_file: &mut CEmitter, compiled: &CompiledTables, table_name: &str)
    requires
        mnemonics_resolve(compiled@.insns, compiled@.sets.mnemonics.len()),
    ensures
        final(tables_file)@ == old(tables_file)@ + tables_text(compiled@, table_name@),
{
    emit_op_size_infos_table(tables_file, &compiled.sets.op_size_infos);
    emit_op_infos_table(tables_file, &compiled.op_infos);
    emit_laid_out_ops_infos_table(
        tables_file,
        compiled.op_infos.len(),
        &compiled.laid_out_ops_infos,
    );
    emit_insn_table(tables_file, table_name, &compiled.insns, &compiled.sets.mnemonics);
    assert(tables_file@ =~= old(tables_file)@ + tables_text(compiled@, table_name@));
}

/// Appending a piece to a text that was written behind a start is writing the longer text
/// behind that start.
pub proof fn lemma_append_piece(start: Seq<char>, written: Seq<char>, piece: Seq<char>)
    ensures
        (start + written) + piece == start + (written + piece),
{
    assert((start + written) + piece =~= start + (written + piece));
}

/// The number of values for which an index field is laid out: the size of the set that it
/// indexes, and one where the set is empty, so that the field is declared all the same.
pub open spec fn index_values(count: nat) -> nat {
    if count == 0 {
        1
    } else {
        count
    }
}

/// The number of values for which an index field into `count` values is laid out.
pub fn index_values_amount(count: usize) -> (amount: usize)
    ensures
        amount == index_values(count as nat),
        amount >= 1,
{
    if count == 0 {
        1
    } else {
        count
    }
}

/// The larger of two numbers.
pub open spec fn larger(a: nat, b: nat) -> nat {
    if a > b {
        a
    } else {
        b
    }
}

/// The line that defines the greatest number of operands of an instruction.
pub open spec fn max_ops_define_text(insn_max_ops: nat) -> Seq<char> {
    "#define X86_TABLES_INSN_MAX_OPS "@ + decimal(insn_max_ops) + "\n"@
}

/// A packed struct that is a member of a union, under the name `name`.
pub open spec fn embedded_struct_text(fields: Seq<char>, name: Seq<char>) -> Seq<char> {
    nested_struct_opening(true) + fields + closing(name)
}

/// The union of the two forms of an entry of the opcode table. Both start with the mnemonic.
/// The form `regular` goes on with the start of the operands in the operand layout, in a
/// field wide enough for the layout and for the sub-tables, whichever are more, and with the
/// number of operands; the form `modrm_reg_opcode_ext` with the number of the sub-table.
pub open spec fn insn_info_union_text(
    mnemonics_amount: nat,
    layout_len: nat,
    modrm_tables_amount: nat,
    insn_max_ops: nat,
) -> Seq<char> {
    union_opening(true) + bit_field_min_size_text("mnemonic"@, mnemonics_amount)
        + embedded_struct_text(
        bit_field_min_size_text("mnemonic"@, mnemonics_amount) + bit_field_min_size_text(
            "first_op_index"@,
            index_values(larger(layout_len, modrm_tables_amount)),
        ) + bit_field_min_size_text("ops_amount"@, insn_max_ops + 1),
        "regular"@,
    ) + embedded_struct_text(
        bit_field_min_size_text("mnemonic"@, mnemonics_amount) + bit_field_min_size_text(
            "modrm_reg_table_index"@,
            index_values(modrm_tables_amount),
        ),
        "modrm_reg_opcode_ext"@,
    ) + closing("insn_info_t"@)
}

/// Writes a packed struct with two bit-fields as a member of `parent`.
fn emit_embedded_struct_of_two(
    parent: &mut CStructEmitter,
    name: &'static str,
    field_name: &str,
    values_amount: usize,
    second_field_name: &str,
    second_values_amount: usize,
)
    requires
        values_amount >= 1,
        second_values_amount >= 1,
    ensures
        final(parent).emitter@ == old(parent).emitter@ + embedded_struct_text(
            bit_field_min_size_text(field_name@, values_amount as nat) + bit_field_min_size_text(
                second_field_name@,
                second_values_amount as nat,
            ),
            name@,
        ),
        final(final(parent).emitter)@ == final(old(parent).emitter)@,
        final(parent).struct_name@ == old(parent).struct_name@,
{
    parent.begin_embedded_struct(name, true).bit_field_min_size(
        field_name,
        values_amount,
    ).bit_field_min_size(second_field_name, second_values_amount).emit();
    assert(parent.emitter@ =~= old(parent).emitter@ + embedded_struct_text(
        bit_field_min_size_text(field_name@, values_amount as nat) + bit_field_min_size_text(
            second_field_name@,
            second_values_amount as nat,
        ),
        name@,
    ));
}

/// Writes a packed struct with three bit-fields as a member of `parent`.
fn emit_embedded_struct_of_three(
    parent: &mut CStructEmitter,
    name: &'static str,
    field_name: &str,
    values_amount: usize,
    second_field_name: &str,
    second_values_amount: usize,
    third_field_name: &str,
    third_values_amount: usize,
)
    requires
        values_amount >= 1,
        second_values_amount >= 1,
        third_values_amount >= 1,
    ensures
        final(parent).emitter@ == old(parent).emitter@ + embedded_struct_text(
            bit_field_min_size_text(field_name@, values_amount as nat) + bit_field_min_size_text(
                second_field_name@,
                second_values_amount as nat,
            ) + bit_field_min_size_text(third_field_name@, third_values_amount as nat),
            name@,
        ),
        final(final(parent).emitter)@ == final(old(parent).emitter)@,
        final(parent).struct_name@ == old(parent).struct_name@,
{
    parent.begin_embedded_struct(name, true).bit_field_min_size(
        field_name,
        values_amount,
    ).bit_field_min_size(second_field_name, second_values_amount).bit_field_min_size(
        third_field_name,
        third_values_amount,
    ).emit();
    assert(parent.emitter@ =~= old(parent).emitter@ + embedded_struct_text(
        bit_field_min_size_text(field_name@, values_amount as nat) + bit_field_min_size_text(
            second_field_name@,
            second_values_amount as nat,
        ) + bit_field_min_size_text(third_field_name@, third_values_amount as nat),
        name@,
    ));
}

/// Writes the union of the two forms of an entry of the opcode table.
pub fn emit_insn_info_union(
    types_file: &mut CEmitter,
    mnemonics_amount: usize,
    layout_len: usize,
    modrm_tables_amount: usize,
    insn_max_ops: usize,
)
    requires
        mnemonics_amount >= 1,
        insn_max_ops < usize::MAX,
    ensures
        final(types_file)@ == old(types_file)@ + insn_info_union_text(
            mnemonics_amount as nat,
            layout_len as nat,
            modrm_tables_amount as nat,
            insn_max_ops as nat,
        ),
{
    let index_space = if layout_len > modrm_tables_amount {
        layout_len
    } else {
        modrm_tables_amount
    };
    let index_space_values = index_values_amount(index_space);
    let modrm_tables_values = index_values_amount(modrm_tables_amount);
    let ghost start = types_file@;
    let mut insn_info_union = types_file.begin_union("insn_info_t", true).bit_field_min_size(
        "mnemonic",
        mnemonics_amount,
    );
    let ghost mut written = union_opening(true) + bit_field_min_size_text(
        "mnemonic"@,
        mnemonics_amount as nat,
    );
    proof {
        lemma_append_piece(
            start,
            union_opening(true),
            bit_field_min_size_text("mnemonic"@, mnemonics_amount as nat),
        );
    }
    emit_embedded_struct_of_three(
        &mut insn_info_union,
        "regular",
        "mnemonic",
        mnemonics_amount,
        "first_op_index",
        index_space_values,
        "ops_amount",
        insn_max_ops + 1,
    );
    proof {
        let piece = embedded_struct_text(
            bit_field_min_size_text("mnemonic"@, mnemonics_amount as nat)
                + bit_field_min_size_text("first_op_index"@, index_space_values as nat)
                + bit_field_min_size_text("ops_amount"@, (insn_max_ops + 1) as nat),
            "regular"@,
        );
        lemma_append_piece(start, written, piece);
        written = written + piece;
    }
    emit_embedded_struct_of_two(
        &mut insn_info_union,
        "modrm_reg_opcode_ext",
        "mnemonic",
        mnemonics_amount,
        "modrm_reg_table_index",
        modrm_tables_values,
    );
    proof {
        let piece = embedded_struct_text(
            bit_field_min_size_text("mnemonic"@, mnemonics_amount as nat)
                + bit_field_min_size_text("modrm_reg_table_index"@, modrm_tables_values as nat),
            "modrm_reg_opcode_ext"@,
        );
        lemma_append_piece(start, written, piece);
        written = written + piece;
    }
    insn_info_union.emit();
    proof {
        lemma_append_piece(start, written, closing("insn_info_t"@));
    }
}

/// The packed struct of a size descriptor: one field for each encoding context, each wide
/// enough for an operand size.
pub open spec fn op_size_info_struct_text() -> Seq<char> {
    struct_opening(true) + bit_field_min_size_text(
        "with_operand_size_override"@,
        OpSize::spec_variant_names().len(),
    ) + bit_field_min_size_text("mode_32"@, OpSize::spec_variant_names().len())
        + bit_field_min_size_text("mode_64"@, OpSize::spec_variant_names().len())
        + bit_field_min_size_text("mode_64_with_rex_w"@, OpSize::spec_variant_names().len())
        + closing("op_size_info_t"@)
}

/// Writes the packed struct of a size descriptor.
pub fn emit_op_size_info_struct(types_file: &mut CEmitter)
    ensures
        final(types_file)@ == old(types_file)@ + op_size_info_struct_text(),
{
    let sizes_amount = OpSize::variant_count();
    types_file.begin_struct("op_size_info_t", true).bit_field_min_size(
        "with_operand_size_override",
        sizes_amount,
    ).bit_field_min_size("mode_32", sizes_amount).bit_field_min_size(
        "mode_64",
        sizes_amount,
    ).bit_field_min_size("mode_64_with_rex_w", sizes_amount).emit();
    assert(types_file@ =~= old(types_file)@ + op_size_info_struct_text());
}

/// A packed struct variant of the operand union: the `kind` field, and then `fields`.
pub open spec fn struct_variant_text(
    kind_field: Seq<char>,
    fields: Seq<char>,
    name: Seq<char>,
) -> Seq<char> {
    nested_struct_opening(true) + kind_field + fields + closing(name)
}

/// The tagged union of an operand record, with one struct variant for each kind of operand.
/// A size descriptor is a field wide enough for an index into `sizes_amount` size
/// descriptors; every other property is a field wide enough for its enum.
pub open spec fn op_info_union_text(sizes_amount: nat) -> Seq<char> {
    let kind = bit_field_min_size_line("kind"@, OpInfo::spec_variant_names().len());
    let sizes = index_values(sizes_amount);
    union_opening(false) + kind + struct_variant_text(
        kind,
        bit_field_min_size_text("encoded_size_info_index"@, sizes) + bit_field_min_size_text(
            "extended_size_info_index"@,
            sizes,
        ) + bit_field_min_size_text("extend_kind"@, ImmExtendKind::spec_variant_names().len()),
        "imm"@,
    ) + struct_variant_text(
        kind,
        bit_field_min_size_text("operand_size_info_index"@, sizes) + bit_field_min_size_text(
            "value"@,
            SpecificImm::spec_variant_names().len(),
        ),
        "specific_imm"@,
    ) + struct_variant_text(
        kind,
        bit_field_min_size_text("size_info_index"@, sizes) + bit_field_min_size_text(
            "encoding"@,
            RegEncoding::spec_variant_names().len(),
        ),
        "reg"@,
    ) + struct_variant_text(kind, bit_field_min_size_text("size_info_index"@, sizes), "rm"@)
        + struct_variant_text(
        kind,
        bit_field_min_size_text("size_info_index"@, sizes) + bit_field_min_size_text(
            "reg"@,
            SpecificReg::spec_variant_names().len(),
        ),
        "specific_reg"@,
    ) + struct_variant_text(
        kind,
        bit_field_min_size_text("size_info_index"@, sizes) + bit_field_min_size_text(
            "extended_size_info_index"@,
            sizes,
        ) + bit_field_min_size_text("reg"@, SpecificReg::spec_variant_names().len()),
        "zext_specific_reg"@,
    ) + struct_variant_text(kind, bit_field_min_size_text("size_info_index"@, sizes), "rel"@)
        + struct_variant_text(
        kind,
        bit_field_min_size_text("mem_operand_size_info_index"@, sizes),
        "mem_offset"@,
    ) + struct_variant_text(
        kind,
        bit_field_min_size_text("size_info_index"@, sizes),
        "implicit"@,
    ) + struct_variant_text(kind, Seq::empty(), "cond"@) + closing("op_info_t"@)
}

/// Writes a struct variant without fields of its own.
fn emit_plain_variant(union_emitter: &mut CTaggedUnionEmitter, name: &'static str)
    ensures
        final(union_emitter).emitter@ == old(union_emitter).emitter@ + struct_variant_text(
            old(union_emitter).kind_field@,
            Seq::empty(),
            name@,
        ),
        final(final(union_emitter).emitter)@ == final(old(union_emitter).emitter)@,
        final(union_emitter).union_name@ == old(union_emitter).union_name@,
        final(union_emitter).kind_field@ == old(union_emitter).kind_field@,
{
    union_emitter.begin_struct_variant(name, true).emit();
    assert(union_emitter.emitter@ =~= old(union_emitter).emitter@ + struct_variant_text(
        old(union_emitter).kind_field@,
        Seq::empty(),
        name@,
    ));
}

/// Writes a struct variant with one field.
fn emit_variant_of_one(
    union_emitter: &mut CTaggedUnionEmitter,
    name: &'static str,
    field_name: &str,
    values_amount: usize,
)
    requires
        values_amount >= 1,
    ensures
        final(union_emitter).emitter@ == old(union_emitter).emitter@ + struct_variant_text(
            old(union_emitter).kind_field@,
            bit_field_min_size_text(field_name@, values_amount as nat),
            name@,
        ),
        final(final(union_emitter).emitter)@ == final(old(union_emitter).emitter)@,
        final(union_emitter).union_name@ == old(union_emitter).union_name@,
        final(union_emitter).kind_field@ == old(union_emitter).kind_field@,
{
    union_emitter.begin_struct_variant(name, true).bit_field_min_size(
        field_name,
        values_amount,
    ).emit();
    assert(union_emitter.emitter@ =~= old(union_emitter).emitter@ + struct_variant_text(
        old(union_emitter).kind_field@,
        bit_field_min_size_text(field_name@, values_amount as nat),
        name@,
    ));
}

/// Writes a struct variant with two fields.
fn emit_variant_of_two(
    union_emitter: &mut CTaggedUnionEmitter,
    name: &'static str,
    field_name: &str,
    values_amount: usize,
    second_field_name: &str,
    second_values_amount: usize,
)
    requires
        values_amount >= 1,
        second_values_amount >= 1,
    ensures
        final(union_emitter).emitter@ == old(union_emitter).emitter@ + struct_variant_text(
            old(union_emitter).kind_field@,
            bit_field_min_size_text(field_name@, values_amount as nat) + bit_field_min_size_text(
                second_field_name@,
                second_values_amount as nat,
            ),
            name@,
        ),
        final(final(union_emitter).emitter)@ == final(old(union_emitter).emitter)@,
        final(union_emitter).union_name@ == old(union_emitter).union_name@,
        final(union_emitter).kind_field@ == old(union_emitter).kind_field@,
{
    union_emitter.begin_struct_variant(name, true).bit_field_min_size(
        field_name,
        values_amount,
    ).bit_field_min_size(second_field_name, second_values_amount).emit();
    assert(union_emitter.emitter@ =~= old(union_emitter).emitter@ + struct_variant_text(
        old(union_emitter).kind_field@,
        bit_field_min_size_text(field_name@, values_amount as nat) + bit_field_min_size_text(
            second_field_name@,
            second_values_amount as nat,
        ),
        name@,
    ));
}

/// Writes a struct variant with three fields.
fn emit_variant_of_three(
    union_emitter: &mut CTaggedUnionEmitter,
    name: &'static str,
    field_name: &str,
    values_amount: usize,
    second_field_name: &str,
    second_values_amount: usize,
    third_field_name: &str,
    third_values_amount: usize,
)
    requires
        values_amount >= 1,
        second_values_amount >= 1,
        third_values_amount >= 1,
    ensures
        final(union_emitter).emitter@ == old(union_emitter).emitter@ + struct_variant_text(
            old(union_emitter).kind_field@,
            bit_field_min_size_text(field_name@, values_amount as nat) + bit_field_min_size_text(
                second_field_name@,
                second_values_amount as nat,
            ) + bit_field_min_size_text(third_field_name@, third_values_amount as nat),
            name@,
        ),
        final(final(union_emitter).emitter)@ == final(old(union_emitter).emitter)@,
        final(union_emitter).union_name@ == old(union_emitter).union_name@,
        final(union_emitter).kind_field@ == old(union_emitter).kind_field@,
{
    union_emitter.begin_struct_variant(name, true).bit_field_min_size(
        field_name,
        values_amount,
    ).bit_field_min_size(second_field_name, second_values_amount).bit_field_min_size(
        third_field_name,
        third_values_amount,
    ).emit();
    assert(union_emitter.emitter@ =~= old(union_emitter).emitter@ + struct_variant_text(
        old(union_emitter).kind_field@,
        bit_field_min_size_text(field_name@, values_amount as nat) + bit_field_min_size_text(
            second_field_name@,
            second_values_amount as nat,
        ) + bit_field_min_size_text(third_field_name@, third_values_amount as nat),
        name@,
    ));
}

/// Writes the tagged union of an operand record.
pub fn emit_op_info_union(types_file: &mut CEmitter, op_size_infos_amount: usize)
    ensures
        final(types_file)@ == old(types_file)@ + op_info_union_text(op_size_infos_amount as nat),
{
    let sizes = index_values_amount(op_size_infos_amount);
    let imm_ext_kinds = ImmExtendKind::variant_count();
    let specific_imms = SpecificImm::variant_count();
    let reg_encodings = RegEncoding::variant_count();
    let specific_regs = SpecificReg::variant_count();
    let ghost start = types_file@;
    let ghost kind = bit_field_min_size_line("kind"@, OpInfo::spec_variant_names().len());
    let mut op_info_union = types_file.begin_tagged_union(
        "op_info_t",
        OpInfo::variant_count(),
    );
    let ghost mut written = union_opening(false) + kind;
    proof {
        lemma_append_piece(start, union_opening(false), kind);
    }
    emit_variant_of_three(
        &mut op_info_union,
        "imm",
        "encoded_size_info_index",
        sizes,
        "extended_size_info_index",
        sizes,
        "extend_kind",
        imm_ext_kinds,
    );
    proof {
        let piece = struct_variant_text(
            kind,
            bit_field_min_size_text("encoded_size_info_index"@, sizes as nat)
                + bit_field_min_size_text("extended_size_info_index"@, sizes as nat)
                + bit_field_min_size_text("extend_kind"@, imm_ext_kinds as nat),
            "imm"@,
        );
        lemma_append_piece(start, written, piece);
        written = written + piece;
    }
    emit_variant_of_two(
        &mut op_info_union,
        "specific_imm",
        "operand_size_info_index",
        sizes,
        "value",
        specific_imms,
    );
    proof {
        let piece = struct_variant_text(
            kind,
            bit_field_min_size_text("operand_size_info_index"@, sizes as nat)
                + bit_field_min_size_text("value"@, specific_imms as nat),
            "specific_imm"@,
        );
        lemma_append_piece(start, written, piece);
        written = written + piece;
    }
    emit_variant_of_two(
        &mut op_info_union,
        "reg",
        "size_info_index",
        sizes,
        "encoding",
        reg_encodings,
    );
    proof {
        let piece = struct_variant_text(
            kind,
            bit_field_min_size_text("size_info_index"@, sizes as nat) + bit_field_min_size_text(
                "encoding"@,
                reg_encodings as nat,
            ),
            "reg"@,
        );
        lemma_append_piece(start, written, piece);
        written = written + piece;
    }
    emit_variant_of_one(&mut op_info_union, "rm", "size_info_index", sizes);
    proof {
        let piece = struct_variant_text(
            kind,
            bit_field_min_size_text("size_info_index"@, sizes as nat),
            "rm"@,
        );
        lemma_append_piece(start, written, piece);
        written = written + piece;
    }
    emit_variant_of_two(
        &mut op_info_union,
        "specific_reg",
        "size_info_index",
        sizes,
        "reg",
        specific_regs,
    );
    proof {
        let piece = struct_variant_text(
            kind,
            bit_field_min_size_text("size_info_index"@, sizes as nat) + bit_field_min_size_text(
                "reg"@,
                specific_regs as nat,
            ),
            "specific_reg"@,
        );
        lemma_append_piece(start, written, piece);
        written = written + piece;
    }
    emit_variant_of_three(
        &mut op_info_union,
        "zext_specific_reg",
        "size_info_index",
        sizes,
        "extended_size_info_index",
        sizes,
        "reg",
        specific_regs,
    );
    proof {
        let piece = struct_variant_text(
            kind,
            bit_field_min_size_text("size_info_index"@, sizes as nat) + bit_field_min_size_text(
                "extended_size_info_index"@,
                sizes as nat,
            ) + bit_field_min_size_text("reg"@, specific_regs as nat),
            "zext_specific_reg"@,
        );
        lemma_append_piece(start, written, piece);
        written = written + piece;
    }
    emit_variant_of_one(&mut op_info_union, "rel", "size_info_index", sizes);
    proof {
        let piece = struct_variant_text(
            kind,
            bit_field_min_size_text("size_info_index"@, sizes as nat),
            "rel"@,
        );
        lemma_append_piece(start, written, piece);
        written = written + piece;
    }
    emit_variant_of_one(&mut op_info_union, "mem_offset", "mem_operand_size_info_index", sizes);
    proof {
        let piece = struct_variant_text(
            kind,
            bit_field_min_size_text("mem_operand_size_info_index"@, sizes as nat),
            "mem_offset"@,
        );
        lemma_append_piece(start, written, piece);
        written = written + piece;
    }
    emit_variant_of_one(&mut op_info_union, "implicit", "size_info_index", sizes);
    proof {
        let piece = struct_variant_text(
            kind,
            bit_field_min_size_text("size_info_index"@, sizes as nat),
            "implicit"@,
        );
        lemma_append_piece(start, written, piece);
        written = written + piece;
    }
    emit_plain_variant(&mut op_info_union, "cond");
    proof {
        let piece = struct_variant_text(kind, Seq::empty(), "cond"@);
        lemma_append_piece(start, written, piece);
        written = written + piece;
    }
    op_info_union.emit();
    proof {
        lemma_append_piece(start, written, closing("op_info_t"@));
    }
}

/// The code of the types: the enums of mnemonics, operand sizes and operand properties, the
/// union of an entry of the opcode table, the struct of a size descriptor and the tagged union
/// of an operand record, each index field just wide enough for the set that it indexes.
pub open spec fn types_text(compiled: CompiledTablesModel) -> Seq<char> {
    "#pragma once\n"@ + system_include_text("stdint.h"@) + max_ops_define_text(
        compiled.insn_max_ops,
    ) + enum_text("mnemonic_t"@, mnemonic_c_names(compiled.sets.mnemonics)) + insn_info_union_text(
        compiled.sets.mnemonics.len(),
        compiled.laid_out_ops_infos.len(),
        compiled.sets.modrm_reg_opcode_ext_tables.len(),
        compiled.insn_max_ops,
    ) + enum_text("op_size_t"@, op_size_c_names()) + op_size_info_struct_text() + enum_text(
        "op_kind_t"@,
        variant_c_names("OP_KIND_"@, OpInfo::spec_variant_names()),
    ) + enum_text(
        "imm_ext_kind_t"@,
        variant_c_names("IMM_EXT_"@, ImmExtendKind::spec_variant_names()),
    ) + enum_text(
        "reg_encoding_t"@,
        variant_c_names("REG_ENC_"@, RegEncoding::spec_variant_names()),
    ) + enum_text(
        "specific_reg_t"@,
        variant_c_names("SPECIFIC_REG_"@, SpecificReg::spec_variant_names()),
    ) + enum_text(
        "specific_imm_t"@,
        variant_c_names("SPECIFIC_IMM_"@, SpecificImm::spec_variant_names()),
    ) + op_info_union_text(compiled.sets.op_size_infos.len())
}

/// Writes the code of the types.
pub fn emit_types(types_file: &mut CEmitter, compiled: &CompiledTables)
    requires
        compiled@.sets.mnemonics.len() >= 1,
        compiled@.insn_max_ops < usize::MAX,
    ensures
        final(types_file)@ == old(types_file)@ + types_text(compiled@),
{
    let ghost start = types_file@;
    let ghost model = compiled@;
    types_file.emit_raw("#pragma once\n");
    let ghost mut written = "#pragma once\n"@;

    types_file.emit_system_include("stdint.h");
    proof {
        lemma_append_piece(start, written, system_include_text("stdint.h"@));
        written = written + system_include_text("stdint.h"@);
    }

    let mut define = String::from_str("#define X86_TABLES_INSN_MAX_OPS ");
    define.append(decimal_string(compiled.insn_max_ops).as_str());
    define.append("\n");
    types_file.emit_raw(define.as_str());
    proof {
        lemma_append_piece(start, written, max_ops_define_text(model.insn_max_ops));
        written = written + max_ops_define_text(model.insn_max_ops);
    }

    types_file.emit_enum("mnemonic_t", &mnemonics_to_c_variant_names(&compiled.sets.mnemonics));
    proof {
        let piece = enum_text("mnemonic_t"@, mnemonic_c_names(model.sets.mnemonics));
        lemma_append_piece(start, written, piece);
        written = written + piece;
    }

    emit_insn_info_union(
        types_file,
        compiled.sets.mnemonics.len(),
        compiled.laid_out_ops_infos.len(),
        compiled.sets.modrm_reg_opcode_ext_tables.len(),
        compiled.insn_max_ops,
    );
    proof {
        let piece = insn_info_union_text(
            model.sets.mnemonics.len(),
            model.laid_out_ops_infos.len(),
            model.sets.modrm_reg_opcode_ext_tables.len(),
            model.insn_max_ops,
        );
        lemma_append_piece(start, written, piece);
        written = written + piece;
    }

    types_file.emit_enum("op_size_t", &op_sizes_to_c_variant_names());
    proof {
        let piece = enum_text("op_size_t"@, op_size_c_names());
        lemma_append_piece(start, written, piece);
        written = written + piece;
    }

    emit_op_size_info_struct(types_file);
    proof {
        lemma_append_piece(start, written, op_size_info_struct_text());
        written = written + op_size_info_struct_text();
    }

    types_file.emit_enum(
        "op_kind_t",
        &variants_to_c_variant_names("OP_KIND_", &OpInfo::variant_names()),
    );
    proof {
        let piece = enum_text(
            "op_kind_t"@,
            variant_c_names("OP_KIND_"@, OpInfo::spec_variant_names()),
        );
        lemma_append_piece(start, written, piece);
        written = written + piece;
    }

    types_file.emit_enum(
        "imm_ext_kind_t",
        &variants_to_c_variant_names("IMM_EXT_", &ImmExtendKind::variant_names()),
    );
    proof {
        let piece = enum_text(
            "imm_ext_kind_t"@,
            variant_c_names("IMM_EXT_"@, ImmExtendKind::spec_variant_names()),
        );
        lemma_append_piece(start, written, piece);
        written = written + piece;
    }

    types_file.emit_enum(
        "reg_encoding_t",
        &variants_to_c_variant_names("REG_ENC_", &RegEncoding::variant_names()),
    );
    proof {
        let piece = enum_text(
            "reg_encoding_t"@,
            variant_c_names("REG_ENC_"@, RegEncoding::spec_variant_names()),
        );
        lemma_append_piece(start, written, piece);
        written = written + piece;
    }

    types_file.emit_enum(
        "specific_reg_t",
        &variants_to_c_variant_names("SPECIFIC_REG_", &SpecificReg::variant_names()),
    );
    proof {
        let piece = enum_text(
            "specific_reg_t"@,
            variant_c_names("SPECIFIC_REG_"@, SpecificReg::spec_variant_names()),
        );
        lemma_append_piece(start, written, piece);
        written = written + piece;
    }

    types_file.emit_enum(
        "specific_imm_t",
        &variants_to_c_variant_names("SPECIFIC_IMM_", &SpecificImm::variant_names()),
    );
    proof {
        let piece = enum_text(
            "specific_imm_t"@,
            variant_c_names("SPECIFIC_IMM_"@, SpecificImm::spec_variant_names()),
        );
        lemma_append_piece(start, written, piece);
        written = written + piece;
    }

    emit_op_info_union(types_file, compiled.sets.op_size_infos.len());
    proof {
        lemma_append_piece(start, written, op_info_union_text(model.sets.op_size_infos.len()));
    }
}

/// The two files that a table compiles to.
pub struct GeneratedCode {
    /// The declarations of the types.
    pub types_file: CEmitter,
    /// The tables.
    pub tables_file: CEmitter,
}

/// Compiles an opcode table and writes the code of the types and of the tables, the opcode
/// table under the name `table_name`. The same table always gives the same code.
pub fn generate_code_for(table: &OpcodeTable, table_name: &str) -> (code: GeneratedCode)
    requires
        operand_lists_within(table@, (usize::MAX - 1) as nat),
    ensures
        code.types_file@ == types_text(compiled_tables_of(table@)),
        code.tables_file@ == tables_text(compiled_tables_of(table@), table_name@),
{
    let compiled = compile_table(table.entries());
    proof {
        lemma_insn_max_ops_within(table@, (usize::MAX - 1) as nat);
        lemma_compiled_mnemonics_resolve(table@);
    }
    let mut types_file = CEmitter::new();
    let mut tables_file = CEmitter::new();
    emit_types(&mut types_file, &compiled);
    emit_tables(&mut tables_file, &compiled, table_name);
    proof {
        assert(types_file@ =~= types_text(compiled@));
        assert(tables_file@ =~= tables_text(compiled@, table_name@));
    }
    GeneratedCode { types_file, tables_file }
}

/// The name of the table of the one-byte opcodes in the code of the tables.
pub const FIRST_OPCODE_BYTE_TABLE_NAME: &'static str = "first_opcode_byte_table";

/// Compiles the table of the one-byte opcodes and writes its code.
pub fn generate_code() -> (code: GeneratedCode)
    ensures
        code.types_file@ == types_text(compiled_tables_of(first_opcode_byte_table_model())),
        code.tables_file@ == tables_text(
            compiled_tables_of(first_opcode_byte_table_model()),
            FIRST_OPCODE_BYTE_TABLE_NAME@,
        ),
{
    let first_opcode_byte_table = gen_first_opcode_byte_table();
    proof {
        lemma_first_opcode_byte_table_operands();
    }
    match OpcodeTable::new(first_opcode_byte_table) {
        Ok(table) => generate_code_for(&table, FIRST_OPCODE_BYTE_TABLE_NAME),
        Err(_) => vstd::pervasive::unreached(),
    }
}

/// The generated code is a function of what the table holds: two runs on tables of equal
/// content, however they were built, give the same two texts.
pub proof fn lemma_generated_code_is_deterministic(
    first: Seq<InsnInfo>,
    second: Seq<InsnInfo>,
    table_name: Seq<char>,
)
    requires
        first.len() == second.len(),
        forall|opcode: int| 0 <= opcode < first.len() ==> first[opcode]@ == second[opcode]@,
    ensures
        types_text(compiled_tables_of(models(first))) == types_text(
            compiled_tables_of(models(second)),
        ),
        tables_text(compiled_tables_of(models(first)), table_name) == tables_text(
            compiled_tables_of(models(second)),
            table_name,
        ),
{
    lemma_compiling_is_deterministic(first, second);
}

/// The entries of several tables, one table after the other.
pub open spec fn joined_tables(tables: Seq<Seq<InsnModel>>) -> Seq<InsnModel>
    decreases tables.len(),
{
    if tables.len() == 0 {
        Seq::empty()
    } else {
        joined_tables(tables.drop_last()) + tables.last()
    }
}

/// The records of the `index`-th of several tables that were compiled together.
pub open spec fn records_of_table(insns: Seq<InsnRecord>, index: int) -> Seq<InsnRecord> {
    insns.subrange(OPCODE_TABLE_LEN * index, OPCODE_TABLE_LEN * (index + 1))
}

/// The opcode tables of several tables that were compiled together, each under its name.
pub open spec fn insn_tables_text(
    table_names: Seq<Seq<char>>,
    insns: Seq<InsnRecord>,
    mnemonics: Seq<Seq<char>>,
) -> Seq<char>
    decreases table_names.len(),
{
    if table_names.len() == 0 {
        Seq::empty()
    } else {
        insn_tables_text(table_names.drop_last(), insns, mnemonics) + insn_table_text(
            table_names.last(),
            records_of_table(insns, table_names.len() - 1),
            mnemonics,
        )
    }
}

/// The code of the tables of several opcode tables that were compiled together: the table of
/// size descriptors, the operand table and the operand layout, which all of them share, and
/// then the opcode tables, each under its name.
pub open spec fn joined_tables_text(
    compiled: CompiledTablesModel,
    table_names: Seq<Seq<char>>,
) -> Seq<char> {
    op_size_infos_table_text(compiled.sets.op_size_infos) + op_infos_table_text(compiled.op_infos)
        + laid_out_ops_infos_table_text(compiled.op_infos.len(), compiled.laid_out_ops_infos)
        + insn_tables_text(table_names, compiled.insns, compiled.sets.mnemonics)
}

/// One table that is compiled alone gives the code of the tables of that table.
pub proof fn lemma_joined_tables_text_of_one(compiled: CompiledTablesModel, table_name: Seq<char>)
    requires
        compiled.insns.len() == OPCODE_TABLE_LEN,
    ensures
        joined_tables_text(compiled, seq![table_name]) == tables_text(compiled, table_name),
{
    let names = seq![table_name];
    assert(names.drop_last() =~= Seq::<Seq<char>>::empty());
    assert(records_of_table(compiled.insns, 0) =~= compiled.insns);
    assert(insn_tables_text(names.drop_last(), compiled.insns, compiled.sets.mnemonics)
        =~= Seq::<char>::empty());
    assert(insn_tables_text(names, compiled.insns, compiled.sets.mnemonics) =~= insn_table_text(
        table_name,
        compiled.insns,
        compiled.sets.mnemonics,
    ));
}

/// The entries of several tables, one table after the other.
pub fn join_tables(tables: &Vec<OpcodeTable>) -> (entries: Vec<InsnInfo>)
    ensures
        models(entries@) == joined_tables(models(tables@)),
        entries@.len() == OPCODE_TABLE_LEN * tables@.len(),
{
    let ghost all = models(tables@);
    let mut entries: Vec<InsnInfo> = Vec::new();
    let mut i: usize = 0;
    while i < tables.len()
        invariant
            i <= tables.len(),
            all == models(tables@),
            models(entries@) == joined_tables(all.take(i as int)),
            entries@.len() == OPCODE_TABLE_LEN * i,
        decreases tables.len() - i,
    {
        proof {
            assert(all.take(i + 1).drop_last() =~= all.take(i as int));
        }
        let ghost before = models(entries@);
        let table = tables[i].entries();
        let mut opcode: usize = 0;
        while opcode < table.len()
            invariant
                opcode <= table.len(),
                table@.len() == OPCODE_TABLE_LEN,
                models(entries@) == before + models(table@).take(opcode as int),
                entries@.len() == OPCODE_TABLE_LEN * i + opcode,
            decreases table.len() - opcode,
        {
            let ghost sofar = models(entries@);
            entries.push(table[opcode].clone());
            opcode += 1;
            proof {
                let copied = models(table@);
                assert(models(entries@) =~= sofar.push(copied[opcode - 1]));
                assert(copied.take(opcode as int) =~= copied.take(opcode - 1).push(
                    copied[opcode - 1],
                ));
                assert(models(entries@) =~= before + copied.take(opcode as int));
            }
        }
        assert(models(table@).take(opcode as int) =~= models(table@));
        i += 1;
    }
    assert(all.take(i as int) =~= all);
    entries
}

/// The records of the `index`-th of several tables that were compiled together.
pub fn copy_records_of_table(insns: &Vec<InsnRecord>, index: usize) -> (records: Vec<InsnRecord>)
    requires
        OPCODE_TABLE_LEN * (index + 1) <= insns.len(),
    ensures
        records@ == records_of_table(insns@, index as int),
{
    let start = OPCODE_TABLE_LEN * index;
    let mut records: Vec<InsnRecord> = Vec::new();
    let mut opcode: usize = 0;
    while opcode < OPCODE_TABLE_LEN
        invariant
            opcode <= OPCODE_TABLE_LEN,
            start == OPCODE_TABLE_LEN * index,
            start + OPCODE_TABLE_LEN <= insns.len(),
            records@ == insns@.subrange(start as int, start + opcode),
        decreases OPCODE_TABLE_LEN - opcode,
    {
        records.push(insns[start + opcode]);
        opcode += 1;
        assert(records@ =~= insns@.subrange(start as int, start + opcode));
    }
    records
}

/// Writes the opcode tables of several tables that were compiled together, in their order,
/// each under its name.
pub fn emit_insn_tables(
    tables_file: &mut CEmitter,
    table_names: &Vec<&str>,
    insns: &Vec<InsnRecord>,
    mnemonics: &Vec<Mnemonic>,
)
    requires
        insns@.len() == OPCODE_TABLE_LEN * table_names@.len(),
        mnemonics_resolve(insns@, mnemonics@.len()),
    ensures
        final(tables_file)@ == old(tables_file)@ + insn_tables_text(
            models(table_names@),
            insns@,
            models(mnemonics@),
        ),
{
    let ghost start = tables_file@;
    let ghost names = models(table_names@);
    let ghost mut written = Seq::<char>::empty();
    assert(start + written =~= start);
    let mut i: usize = 0;
    while i < table_names.len()
        invariant
            i <= table_names.len(),
            names == models(table_names@),
            insns@.len() == OPCODE_TABLE_LEN * table_names@.len(),
            mnemonics_resolve(insns@, mnemonics@.len()),
            written == insn_tables_text(names.take(i as int), insns@, models(mnemonics@)),
            tables_file@ == start + written,
        decreases table_names.len() - i,
    {
        proof {
            assert(names.take(i + 1).drop_last() =~= names.take(i as int));
        }
        let records = copy_records_of_table(insns, i);
        assert forall|k: int| 0 <= k < records@.len() implies (
        #[trigger] records@[k]).spec_mnemonic_index() < mnemonics@.len() by {
            assert(records@[k] == insns@[OPCODE_TABLE_LEN * i + k]);
        }
        emit_insn_table(tables_file, table_names[i], &records, mnemonics);
        proof {
            let piece = insn_table_text(names[i as int], records@, models(mnemonics@));
            lemma_append_piece(start, written, piece);
            written = written + piece;
        }
        i += 1;
    }
    assert(names.take(i as int) =~= names);
}

/// Writes the code of the tables of several opcode tables that were compiled together.
pub fn emit_joined_tables(
    tables_file: &mut CEmitter,
    compiled: &CompiledTables,
    table_names: &Vec<&str>,
)
    requires
        compiled@.insns.len() == OPCODE_TABLE_LEN * table_names@.len(),
        mnemonics_resolve(compiled@.insns, compiled@.sets.mnemonics.len()),
    ensures
        final(tables_file)@ == old(tables_file)@ + joined_tables_text(
            compiled@,
            models(table_names@),
        ),
{
    let ghost start = tables_file@;
    let ghost model = compiled@;
    emit_op_size_infos_table(tables_file, &compiled.sets.op_size_infos);
    let ghost mut written = op_size_infos_table_text(model.sets.op_size_infos);
    emit_op_infos_table(tables_file, &compiled.op_infos);
    proof {
        lemma_append_piece(start, written, op_infos_table_text(model.op_infos));
        written = written + op_infos_table_text(model.op_infos);
    }
    emit_laid_out_ops_infos_table(
        tables_file,
        compiled.op_infos.len(),
        &compiled.laid_out_ops_infos,
    );
    proof {
        let piece = laid_out_ops_infos_table_text(
            model.op_infos.len(),
            model.laid_out_ops_infos,
        );
        lemma_append_piece(start, written, piece);
        written = written + piece;
    }
    emit_insn_tables(tables_file, table_names, &compiled.insns, &compiled.sets.mnemonics);
    proof {
        let piece = insn_tables_text(models(table_names@), model.insns, model.sets.mnemonics);
        lemma_append_piece(start, written, piece);
    }
}

/// Compiles several opcode tables together and writes the code of the types and of the
/// tables. The tables share the unique sets, and so the types, the table of size descriptors,
/// the operand table and the operand layout; each has an opcode table of its own, under its
/// name from `table_names`.
pub fn generate_code_for_tables(tables: &Vec<OpcodeTable>, table_names: &Vec<&str>) -> (code:
    GeneratedCode)
    requires
        tables@.len() == table_names@.len(),
        operand_lists_within(joined_tables(models(tables@)), (usize::MAX - 1) as nat),
    ensures
        code.types_file@ == types_text(compiled_tables_of(joined_tables(models(tables@)))),
        code.tables_file@ == joined_tables_text(
            compiled_tables_of(joined_tables(models(tables@))),
            models(table_names@),
        ),
{
    let entries = join_tables(tables);
    let compiled = compile_table(entries.as_slice());
    proof {
        lemma_insn_max_ops_within(models(entries@), (usize::MAX - 1) as nat);
        lemma_compiled_mnemonics_resolve(models(entries@));
    }
    let mut types_file = CEmitter::new();
    let mut tables_file = CEmitter::new();
    emit_types(&mut types_file, &compiled);
    emit_joined_tables(&mut tables_file, &compiled, table_names);
    proof {
        assert(types_file@ =~= types_text(compiled@));
        assert(tables_file@ =~= joined_tables_text(compiled@, models(table_names@)));
    }
    GeneratedCode { types_file, tables_file }
}

} // verus!
