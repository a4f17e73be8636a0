//! The table compiler: derives the unique sets of an opcode table, resolves every entry to
//! indices into them, and writes the C declarations of the types and of the tables.

use crate::table_types::{
    ImmExtendKind, ImmOpInfo, InsnInfo, InsnModel, MemOffsetOpInfo, Mnemonic,
    ModrmRegOpcodeExtInsnInfo, OpInfo, OpSizeInfo, Ops, RegEncoding, RegOpInfo, RegularInsnInfo,
    RegularInsnModel, SpecificImm, SpecificImmOpInfo, SpecificReg, SpecificRegOpInfo,
    ZextSpecificRegOpInfo,
};
use crate::unique_set::{
    find_index, first_index, is_first_index, iter_collect_unique, lemma_first_index,
    lemma_unique_contains, models, unique, Descriptor,
};
use vstd::prelude::*;

verus! {

/// The pseudo-mnemonic of an opcode whose instruction is selected by the `reg` field of the
/// ModRM byte.
pub const MNEMONIC_MODRM_REG_OPCODE_EXT: Mnemonic = "modrm_reg_opcode_ext";

/// The instructions that one table entry stands for: itself, or its eight sub-entries.
pub open spec fn regular_insns_of(insn: InsnModel) -> Seq<RegularInsnModel> {
    match insn {
        InsnModel::Regular(info) => seq![info],
        InsnModel::ModrmRegOpcodeExt(by_reg_value) => by_reg_value,
    }
}

/// Every instruction of a table, sub-entries included, in table order.
pub open spec fn all_regular_insns(table: Seq<InsnModel>) -> Seq<RegularInsnModel>
    decreases table.len(),
{
    if table.len() == 0 {
        Seq::empty()
    } else {
        all_regular_insns(table.drop_last()) + regular_insns_of(table.last())
    }
}

/// The mnemonic of every instruction of a table, in table order.
pub open spec fn all_mnemonics(table: Seq<InsnModel>) -> Seq<Seq<char>> {
    all_regular_insns(table).map_values(|info: RegularInsnModel| info.mnemonic)
}

/// The operand list of every instruction of a table, in table order.
pub open spec fn all_ops(table: Seq<InsnModel>) -> Seq<Seq<OpInfo>> {
    all_regular_insns(table).map_values(|info: RegularInsnModel| info.ops)
}

/// The sub-tables of the entries that are selected by the ModRM byte, in table order.
pub open spec fn all_modrm_tables(table: Seq<InsnModel>) -> Seq<Seq<RegularInsnModel>>
    decreases table.len(),
{
    if table.len() == 0 {
        Seq::empty()
    } else {
        match table.last() {
            InsnModel::Regular(_) => all_modrm_tables(table.drop_last()),
            InsnModel::ModrmRegOpcodeExt(by_reg_value) => all_modrm_tables(
                table.drop_last(),
            ).push(by_reg_value),
        }
    }
}

/// The operand lists laid out one after the other.
pub open spec fn laid_out(lists: Seq<Seq<OpInfo>>) -> Seq<OpInfo>
    decreases lists.len(),
{
    if lists.len() == 0 {
        Seq::empty()
    } else {
        laid_out(lists.drop_last()) + lists.last()
    }
}

/// The size descriptors that an operand holds, in the order of its fields.
pub open spec fn op_size_infos_of(op: OpInfo) -> Seq<OpSizeInfo> {
    match op {
        OpInfo::Imm(imm) => seq![imm.encoded_size, imm.extended_size],
        OpInfo::SpecificImm(imm) => seq![imm.operand_size],
        OpInfo::Reg(reg) => seq![reg.size],
        OpInfo::Rm(size) => seq![size],
        OpInfo::SpecificReg(reg) => seq![reg.size],
        OpInfo::ZextSpecificReg(reg) => seq![reg.size, reg.extended_size],
        OpInfo::Rel(size) => seq![size],
        OpInfo::MemOffset(mem_offset) => seq![mem_offset.mem_operand_size],
        OpInfo::Implicit(size) => seq![size],
        OpInfo::Cond => seq![],
    }
}

/// The size descriptors of a list of operands, in order.
pub open spec fn all_op_size_infos(ops: Seq<OpInfo>) -> Seq<OpSizeInfo>
    decreases ops.len(),
{
    if ops.len() == 0 {
        Seq::empty()
    } else {
        all_op_size_infos(ops.drop_last()) + op_size_infos_of(ops.last())
    }
}

/// The length of the longest of the lists; zero if there is none.
pub open spec fn max_len(lists: Seq<Seq<OpInfo>>) -> nat
    decreases lists.len(),
{
    if lists.len() == 0 {
        0
    } else {
        let rest = max_len(lists.drop_last());
        if lists.last().len() > rest {
            lists.last().len()
        } else {
            rest
        }
    }
}

/// The unique sets of a table, each in the order of first occurrence.
pub struct UniqueSetsModel {
    /// The distinct mnemonics, followed by the pseudo-mnemonic of ModRM dispatch.
    pub mnemonics: Seq<Seq<char>>,
    /// The distinct operand lists, each as a whole.
    pub ops_infos: Seq<Seq<OpInfo>>,
    /// The distinct operands of the distinct operand lists.
    pub op_infos: Seq<OpInfo>,
    /// The distinct size descriptors of the distinct operands.
    pub op_size_infos: Seq<OpSizeInfo>,
    /// The distinct ModRM sub-tables, each as a whole.
    pub modrm_reg_opcode_ext_tables: Seq<Seq<RegularInsnModel>>,
}

/// The unique sets that a table gives rise to.
pub open spec fn unique_sets_of(table: Seq<InsnModel>) -> UniqueSetsModel {
    let ops_infos = unique(all_ops(table));
    let op_infos = unique(laid_out(ops_infos));
    UniqueSetsModel {
        mnemonics: unique(all_mnemonics(table)).push(MNEMONIC_MODRM_REG_OPCODE_EXT@),
        ops_infos,
        op_infos,
        op_size_infos: unique(all_op_size_infos(op_infos)),
        modrm_reg_opcode_ext_tables: unique(all_modrm_tables(table)),
    }
}

/// The unique sets of a table.
pub struct UniqueSets {
    pub mnemonics: Vec<Mnemonic>,
    pub ops_infos: Vec<Ops>,
    pub op_infos: Vec<OpInfo>,
    pub op_size_infos: Vec<OpSizeInfo>,
    pub modrm_reg_opcode_ext_tables: Vec<ModrmRegOpcodeExtInsnInfo>,
}

impl View for UniqueSets {
    type V = UniqueSetsModel;

    open spec fn view(&self) -> UniqueSetsModel {
        UniqueSetsModel {
            mnemonics: models(self.mnemonics@),
            ops_infos: models(self.ops_infos@),
            op_infos: self.op_infos@,
            op_size_infos: self.op_size_infos@,
            modrm_reg_opcode_ext_tables: models(self.modrm_reg_opcode_ext_tables@),
        }
    }
}

/// An operand is its own view, so a list of operands is the list of its views.
pub proof fn lemma_models_of_op_infos(ops: Seq<OpInfo>)
    ensures
        models(ops) == ops,
{
    assert(models(ops) =~= ops);
}

/// A size descriptor is its own view, so a list of them is the list of its views.
pub proof fn lemma_models_of_op_size_infos(sizes: Seq<OpSizeInfo>)
    ensures
        models(sizes) == sizes,
{
    assert(models(sizes) =~= sizes);
}

/// Every instruction of a table, sub-entries included, in table order.
pub fn table_all_regular_insn_infos(table: &[InsnInfo]) -> (infos: Vec<RegularInsnInfo>)
    ensures
        models(infos@) == all_regular_insns(models(table@)),
{
    let mut infos: Vec<RegularInsnInfo> = Vec::new();
    let ghost entries = models(table@);
    let mut i: usize = 0;
    while i < table.len()
        invariant
            i <= table.len(),
            entries == models(table@),
            models(infos@) == all_regular_insns(entries.take(i as int)),
        decreases table.len() - i,
    {
        proof {
            assert(entries.take(i + 1).drop_last() =~= entries.take(i as int));
        }
        let ghost before = models(infos@);
        match &table[i] {
            InsnInfo::Regular(info) => {
                infos.push(info.clone());
                assert(models(infos@) =~= before + seq![info@]);
            },
            InsnInfo::ModrmRegOpcodeExt(modrm_reg_opcode_ext_info) => {
                let mut reg: usize = 0;
                while reg < 8
                    invariant
                        reg <= 8,
                        models(infos@) == before + modrm_reg_opcode_ext_info@.take(reg as int),
                    decreases 8 - reg,
                {
                    let ghost sofar = models(infos@);
                    infos.push(modrm_reg_opcode_ext_info.by_reg_value[reg].clone());
                    reg += 1;
                    proof {
                        let sub_table = modrm_reg_opcode_ext_info@;
                        assert(sub_table.len() == 8);
                        assert(models(infos@) =~= sofar.push(sub_table[reg - 1]));
                        assert(sub_table.take(reg as int) =~= sub_table.take(reg - 1).push(
                            sub_table[reg - 1],
                        ));
                    }
                }
                assert(modrm_reg_opcode_ext_info@.take(8) =~= modrm_reg_opcode_ext_info@);
            },
        }
        i += 1;
    }
    assert(entries.take(i as int) =~= entries);
    infos
}

/// The mnemonic of every instruction of a table, in table order.
pub fn table_all_mnemonics(table: &[InsnInfo]) -> (mnemonics: Vec<Mnemonic>)
    ensures
        models(mnemonics@) == all_mnemonics(models(table@)),
{
    let infos = table_all_regular_insn_infos(table);
    let mut mnemonics: Vec<Mnemonic> = Vec::new();
    let mut i: usize = 0;
    while i < infos.len()
        invariant
            i <= infos.len(),
            mnemonics@.len() == i,
            forall|k: int| 0 <= k < i ==> mnemonics@[k]@ == infos@[k]@.mnemonic,
        decreases infos.len() - i,
    {
        mnemonics.push(infos[i].mnemonic);
        i += 1;
    }
    assert(models(mnemonics@) =~= all_mnemonics(models(table@)));
    mnemonics
}

/// The operand list of every instruction of a table, in table order.
pub fn table_all_ops(table: &[InsnInfo]) -> (ops: Vec<Ops>)
    ensures
        models(ops@) == all_ops(models(table@)),
{
    let infos = table_all_regular_insn_infos(table);
    let mut ops: Vec<Ops> = Vec::new();
    let mut i: usize = 0;
    while i < infos.len()
        invariant
            i <= infos.len(),
            ops@.len() == i,
            forall|k: int| 0 <= k < i ==> ops@[k]@ == infos@[k]@.ops,
        decreases infos.len() - i,
    {
        ops.push(infos[i].ops.clone());
        i += 1;
    }
    assert(models(ops@) =~= all_ops(models(table@)));
    ops
}

/// The sub-tables of the entries that are selected by the ModRM byte, in table order.
pub fn table_all_modrm_reg_opcode_ext_tables(table: &[InsnInfo]) -> (tables: Vec<
    ModrmRegOpcodeExtInsnInfo,
>)
    ensures
        models(tables@) == all_modrm_tables(models(table@)),
{
    let mut tables: Vec<ModrmRegOpcodeExtInsnInfo> = Vec::new();
    let ghost entries = models(table@);
    let mut i: usize = 0;
    while i < table.len()
        invariant
            i <= table.len(),
            entries == models(table@),
            models(tables@) == all_modrm_tables(entries.take(i as int)),
        decreases table.len() - i,
    {
        proof {
            assert(entries.take(i + 1).drop_last() =~= entries.take(i as int));
        }
        let ghost before = models(tables@);
        match &table[i] {
            InsnInfo::Regular(_) => {},
            InsnInfo::ModrmRegOpcodeExt(inner_table) => {
                tables.push(inner_table.clone());
                assert(models(tables@) =~= before.push(inner_table@));
            },
        }
        i += 1;
    }
    assert(entries.take(i as int) =~= entries);
    tables
}

/// The operand lists laid out one after the other.
pub fn lay_out_ops(lists: &Vec<Ops>) -> (ops: Vec<OpInfo>)
    ensures
        ops@ == laid_out(models(lists@)),
{
    let mut ops: Vec<OpInfo> = Vec::new();
    let ghost all = models(lists@);
    let mut i: usize = 0;
    while i < lists.len()
        invariant
            i <= lists.len(),
            all == models(lists@),
            ops@ == laid_out(all.take(i as int)),
        decreases lists.len() - i,
    {
        proof {
            assert(all.take(i + 1).drop_last() =~= all.take(i as int));
        }
        let ghost before = ops@;
        let list = &lists[i];
        let mut k: usize = 0;
        while k < list.len()
            invariant
                k <= list.len(),
                ops@ == before + list@.take(k as int),
            decreases list.len() - k,
        {
            ops.push(list[k]);
            k += 1;
            assert(ops@ =~= before + list@.take(k as int));
        }
        assert(list@.take(k as int) =~= list@);
        i += 1;
    }
    assert(all.take(i as int) =~= all);
    ops
}

/// The size descriptors of a list of operands, in order.
pub fn collect_op_size_infos(ops: &Vec<OpInfo>) -> (sizes: Vec<OpSizeInfo>)
    ensures
        sizes@ == all_op_size_infos(ops@),
{
    let mut sizes: Vec<OpSizeInfo> = Vec::new();
    let mut i: usize = 0;
    while i < ops.len()
        invariant
            i <= ops.len(),
            sizes@ == all_op_size_infos(ops@.take(i as int)),
        decreases ops.len() - i,
    {
        proof {
            assert(ops@.take(i + 1).drop_last() =~= ops@.take(i as int));
        }
        let ghost before = sizes@;
        match ops[i] {
            OpInfo::Imm(imm) => {
                sizes.push(imm.encoded_size);
                sizes.push(imm.extended_size);
            },
            OpInfo::SpecificImm(imm) => {
                sizes.push(imm.operand_size);
            },
            OpInfo::Reg(reg) => {
                sizes.push(reg.size);
            },
            OpInfo::Rm(size) => {
                sizes.push(size);
            },
            OpInfo::SpecificReg(reg) => {
                sizes.push(reg.size);
            },
            OpInfo::ZextSpecificReg(reg) => {
                sizes.push(reg.size);
                sizes.push(reg.extended_size);
            },
            OpInfo::Rel(size) => {
                sizes.push(size);
            },
            OpInfo::MemOffset(mem_offset) => {
                sizes.push(mem_offset.mem_operand_size);
            },
            OpInfo::Implicit(size) => {
                sizes.push(size);
            },
            OpInfo::Cond => {},
        }
        assert(sizes@ =~= before + op_size_infos_of(ops@[i as int]));
        i += 1;
    }
    assert(ops@.take(i as int) =~= ops@);
    sizes
}

/// Derives the unique sets of a table: mnemonics, operand lists, operands, size descriptors and
/// ModRM sub-tables, each in the order of first occurrence.
pub fn collect_unique_sets(table: &[InsnInfo]) -> (sets: UniqueSets)
    ensures
        sets@ == unique_sets_of(models(table@)),
{
    let mut mnemonics = iter_collect_unique(table_all_mnemonics(table));
    // a pseudo mnemonic used to represent the fact that this instruction requires further
    // identification using the reg field of the modrm byte.
    mnemonics.push(MNEMONIC_MODRM_REG_OPCODE_EXT);

    let ops_infos = iter_collect_unique(table_all_ops(table));
    let laid_out_ops_infos = lay_out_ops(&ops_infos);
    let op_infos = iter_collect_unique(laid_out_ops_infos);
    let op_size_infos = iter_collect_unique(collect_op_size_infos(&op_infos));
    let modrm_reg_opcode_ext_tables = iter_collect_unique(
        table_all_modrm_reg_opcode_ext_tables(table),
    );
    proof {
        let entries = models(table@);
        lemma_models_of_op_infos(op_infos@);
        lemma_models_of_op_infos(laid_out(models(ops_infos@)));
        lemma_models_of_op_size_infos(op_size_infos@);
        lemma_models_of_op_size_infos(all_op_size_infos(op_infos@));
        assert(models(mnemonics@) =~= unique(all_mnemonics(entries)).push(
            MNEMONIC_MODRM_REG_OPCODE_EXT@,
        ));
    }
    UniqueSets { mnemonics, ops_infos, op_infos, op_size_infos, modrm_reg_opcode_ext_tables }
}

/// A value of a concatenation comes from one of its two parts.
pub proof fn lemma_contains_of_concat<A>(a: Seq<A>, b: Seq<A>, value: A)
    ensures
        (a + b).contains(value) <==> a.contains(value) || b.contains(value),
{
    if a.contains(value) {
        let i = choose|i: int| 0 <= i < a.len() && a[i] == value;
        assert((a + b)[i] == value);
    }
    if b.contains(value) {
        let i = choose|i: int| 0 <= i < b.len() && b[i] == value;
        assert((a + b)[a.len() + i] == value);
    }
    if (a + b).contains(value) {
        let i = choose|i: int| 0 <= i < (a + b).len() && (a + b)[i] == value;
        if i < a.len() {
            assert(a[i] == value);
        } else {
            assert(b[i - a.len()] == value);
        }
    }
}

/// What a table entry stands for is among the instructions of the table.
pub proof fn lemma_entry_in_all_regular_insns(
    table: Seq<InsnModel>,
    i: int,
    info: RegularInsnModel,
)
    requires
        0 <= i < table.len(),
        regular_insns_of(table[i]).contains(info),
    ensures
        all_regular_insns(table).contains(info),
        all_mnemonics(table).contains(info.mnemonic),
        all_ops(table).contains(info.ops),
    decreases table.len(),
{
    let rest = table.drop_last();
    lemma_contains_of_concat(all_regular_insns(rest), regular_insns_of(table.last()), info);
    if i < table.len() - 1 {
        lemma_entry_in_all_regular_insns(rest, i, info);
    }
    let at = choose|at: int|
        0 <= at < all_regular_insns(table).len() && all_regular_insns(table)[at] == info;
    assert(all_mnemonics(table)[at] == info.mnemonic);
    assert(all_ops(table)[at] == info.ops);
}

/// The sub-table of an entry that is selected by the ModRM byte is among the sub-tables of
/// the table.
pub proof fn lemma_sub_table_in_all_modrm_tables(table: Seq<InsnModel>, i: int)
    requires
        0 <= i < table.len(),
        table[i] is ModrmRegOpcodeExt,
    ensures
        all_modrm_tables(table).contains(table[i]->ModrmRegOpcodeExt_0),
    decreases table.len(),
{
    let rest = table.drop_last();
    let sub_table = table[i]->ModrmRegOpcodeExt_0;
    if i < table.len() - 1 {
        lemma_sub_table_in_all_modrm_tables(rest, i);
        let at = choose|at: int|
            0 <= at < all_modrm_tables(rest).len() && all_modrm_tables(rest)[at] == sub_table;
        assert(all_modrm_tables(table)[at] == sub_table);
    } else {
        assert(all_modrm_tables(table)[all_modrm_tables(rest).len() as int] == sub_table);
    }
}

/// Laying out the first lists gives the start of the whole layout.
pub proof fn lemma_laid_out_prefix(lists: Seq<Seq<OpInfo>>, n: int)
    requires
        0 <= n <= lists.len(),
    ensures
        laid_out(lists.take(n)).len() <= laid_out(lists).len(),
        laid_out(lists.take(n)) == laid_out(lists).take(laid_out(lists.take(n)).len() as int),
    decreases lists.len(),
{
    if n == lists.len() {
        assert(lists.take(n) =~= lists);
        assert(laid_out(lists).take(laid_out(lists).len() as int) =~= laid_out(lists));
    } else {
        let rest = lists.drop_last();
        lemma_laid_out_prefix(rest, n);
        assert(rest.take(n) =~= lists.take(n));
        let part = laid_out(lists.take(n));
        assert(laid_out(lists).take(part.len() as int) =~= laid_out(rest).take(part.len() as int));
    }
}

/// The layout holds the `i`-th list, whole and in order, behind the lists before it.
pub proof fn lemma_laid_out_holds_list(lists: Seq<Seq<OpInfo>>, i: int)
    requires
        0 <= i < lists.len(),
    ensures
        laid_out(lists.take(i)).len() + lists[i].len() <= laid_out(lists).len(),
        laid_out(lists).subrange(
            laid_out(lists.take(i)).len() as int,
            (laid_out(lists.take(i)).len() + lists[i].len()) as int,
        ) == lists[i],
{
    lemma_laid_out_prefix(lists, i + 1);
    let upto = lists.take(i + 1);
    assert(upto.drop_last() =~= lists.take(i));
    assert(laid_out(upto) == laid_out(lists.take(i)) + lists[i]);
    let start = laid_out(lists.take(i)).len() as int;
    assert(laid_out(lists).subrange(start, start + lists[i].len()) =~= lists[i]) by {
        assert forall|k: int| 0 <= k < lists[i].len() implies laid_out(lists)[start + k]
            == lists[i][k] by {
            assert(laid_out(lists).take(laid_out(upto).len() as int)[start + k] == laid_out(
                upto,
            )[start + k]);
        }
    }
}

/// Every operand of every list is in the layout.
pub proof fn lemma_operand_in_laid_out(lists: Seq<Seq<OpInfo>>, i: int, k: int)
    requires
        0 <= i < lists.len(),
        0 <= k < lists[i].len(),
    ensures
        laid_out(lists).contains(lists[i][k]),
{
    lemma_laid_out_holds_list(lists, i);
    let start = laid_out(lists.take(i)).len() as int;
    assert(laid_out(lists).subrange(start, start + lists[i].len())[k] == lists[i][k]);
    assert(laid_out(lists)[start + k] == lists[i][k]);
}

/// Every size descriptor of every operand of a list is among the size descriptors of the list.
pub proof fn lemma_size_in_all_op_size_infos(ops: Seq<OpInfo>, i: int, size: OpSizeInfo)
    requires
        0 <= i < ops.len(),
        op_size_infos_of(ops[i]).contains(size),
    ensures
        all_op_size_infos(ops).contains(size),
    decreases ops.len(),
{
    let rest = ops.drop_last();
    lemma_contains_of_concat(all_op_size_infos(rest), op_size_infos_of(ops.last()), size);
    if i < ops.len() - 1 {
        lemma_size_in_all_op_size_infos(rest, i, size);
    }
}

/// No list is longer than the longest.
pub proof fn lemma_max_len_bounds(lists: Seq<Seq<OpInfo>>, i: int)
    requires
        0 <= i < lists.len(),
    ensures
        lists[i].len() <= max_len(lists),
    decreases lists.len(),
{
    if i < lists.len() - 1 {
        lemma_max_len_bounds(lists.drop_last(), i);
    }
}

/// The start of an operand list in the layout of `lists`: the number of operands laid out
/// before the first occurrence of the list, or all of them if the list does not occur.
pub open spec fn first_op_index(lists: Seq<Seq<OpInfo>>, ops: Seq<OpInfo>) -> nat {
    laid_out(lists.take(first_index(lists, ops))).len()
}

/// Whether `sizes` holds every size descriptor of `op`.
pub open spec fn holds_sizes_of(sizes: Seq<OpSizeInfo>, op: OpInfo) -> bool {
    forall|j: int|
        0 <= j < op_size_infos_of(op).len() ==> sizes.contains(#[trigger] op_size_infos_of(op)[j])
}

/// An operand as it stands in the operand table: its size descriptors are replaced by their
/// positions in the table of size descriptors.
#[derive(Debug, Clone, Copy, PartialEq, Eq, Hash, Structural)]
pub enum OpInfoRecord {
    Imm {
        encoded_size_info_index: usize,
        extended_size_info_index: usize,
        extend_kind: ImmExtendKind,
    },
    SpecificImm { operand_size_info_index: usize, value: SpecificImm },
    Reg { size_info_index: usize, encoding: RegEncoding },
    Rm { size_info_index: usize },
    SpecificReg { size_info_index: usize, reg: SpecificReg },
    ZextSpecificReg { size_info_index: usize, extended_size_info_index: usize, reg: SpecificReg },
    Rel { size_info_index: usize },
    MemOffset { mem_operand_size_info_index: usize },
    Implicit { size_info_index: usize },
    Cond,
}

impl OpInfoRecord {
    /// The name of the kind of operand that the record stands for.
    pub open spec fn spec_variant_name(self) -> Seq<char> {
        match self {
            OpInfoRecord::Imm { .. } => "Imm"@,
            OpInfoRecord::SpecificImm { .. } => "SpecificImm"@,
            OpInfoRecord::Reg { .. } => "Reg"@,
            OpInfoRecord::Rm { .. } => "Rm"@,
            OpInfoRecord::SpecificReg { .. } => "SpecificReg"@,
            OpInfoRecord::ZextSpecificReg { .. } => "ZextSpecificReg"@,
            OpInfoRecord::Rel { .. } => "Rel"@,
            OpInfoRecord::MemOffset { .. } => "MemOffset"@,
            OpInfoRecord::Implicit { .. } => "Implicit"@,
            OpInfoRecord::Cond => "Cond"@,
        }
    }

    /// The name of the member of the C union that holds a record of this kind.
    pub open spec fn spec_member_name(self) -> Seq<char> {
        match self {
            OpInfoRecord::Imm { .. } => "imm"@,
            OpInfoRecord::SpecificImm { .. } => "specific_imm"@,
            OpInfoRecord::Reg { .. } => "reg"@,
            OpInfoRecord::Rm { .. } => "rm"@,
            OpInfoRecord::SpecificReg { .. } => "specific_reg"@,
            OpInfoRecord::ZextSpecificReg { .. } => "zext_specific_reg"@,
            OpInfoRecord::Rel { .. } => "rel"@,
            OpInfoRecord::MemOffset { .. } => "mem_offset"@,
            OpInfoRecord::Implicit { .. } => "implicit"@,
            OpInfoRecord::Cond => "cond"@,
        }
    }

    /// The name of the kind of operand that the record stands for.
    pub fn variant_name(&self) -> (name: &'static str)
        ensures
            name@ == self.spec_variant_name(),
    {
        match self {
            OpInfoRecord::Imm { .. } => "Imm",
            OpInfoRecord::SpecificImm { .. } => "SpecificImm",
            OpInfoRecord::Reg { .. } => "Reg",
            OpInfoRecord::Rm { .. } => "Rm",
            OpInfoRecord::SpecificReg { .. } => "SpecificReg",
            OpInfoRecord::ZextSpecificReg { .. } => "ZextSpecificReg",
            OpInfoRecord::Rel { .. } => "Rel",
            OpInfoRecord::MemOffset { .. } => "MemOffset",
            OpInfoRecord::Implicit { .. } => "Implicit",
            OpInfoRecord::Cond => "Cond",
        }
    }

    /// The name of the member of the C union that holds a record of this kind.
    pub fn member_name(&self) -> (name: &'static str)
        ensures
            name@ == self.spec_member_name(),
    {
        match self {
            OpInfoRecord::Imm { .. } => "imm",
            OpInfoRecord::SpecificImm { .. } => "specific_imm",
            OpInfoRecord::Reg { .. } => "reg",
            OpInfoRecord::Rm { .. } => "rm",
            OpInfoRecord::SpecificReg { .. } => "specific_reg",
            OpInfoRecord::ZextSpecificReg { .. } => "zext_specific_reg",
            OpInfoRecord::Rel { .. } => "rel",
            OpInfoRecord::MemOffset { .. } => "mem_offset",
            OpInfoRecord::Implicit { .. } => "implicit",
            OpInfoRecord::Cond => "cond",
        }
    }
}

/// The position of a size descriptor in the table of size descriptors.
pub open spec fn size_index_of(sizes: Seq<OpSizeInfo>, size: OpSizeInfo) -> usize {
    first_index(sizes, size) as usize
}

/// The record of an operand over a table of size descriptors.
pub open spec fn op_info_record_of(op: OpInfo, sizes: Seq<OpSizeInfo>) -> OpInfoRecord {
    match op {
        OpInfo::Imm(imm) => OpInfoRecord::Imm {
            encoded_size_info_index: size_index_of(sizes, imm.encoded_size),
            extended_size_info_index: size_index_of(sizes, imm.extended_size),
            extend_kind: imm.extend_kind,
        },
        OpInfo::SpecificImm(imm) => OpInfoRecord::SpecificImm {
            operand_size_info_index: size_index_of(sizes, imm.operand_size),
            value: imm.value,
        },
        OpInfo::Reg(reg) => OpInfoRecord::Reg {
            size_info_index: size_index_of(sizes, reg.size),
            encoding: reg.encoding,
        },
        OpInfo::Rm(size) => OpInfoRecord::Rm { size_info_index: size_index_of(sizes, size) },
        OpInfo::SpecificReg(reg) => OpInfoRecord::SpecificReg {
            size_info_index: size_index_of(sizes, reg.size),
            reg: reg.reg,
        },
        OpInfo::ZextSpecificReg(reg) => OpInfoRecord::ZextSpecificReg {
            size_info_index: size_index_of(sizes, reg.size),
            extended_size_info_index: size_index_of(sizes, reg.extended_size),
            reg: reg.reg,
        },
        OpInfo::Rel(size) => OpInfoRecord::Rel { size_info_index: size_index_of(sizes, size) },
        OpInfo::MemOffset(mem_offset) => OpInfoRecord::MemOffset {
            mem_operand_size_info_index: size_index_of(sizes, mem_offset.mem_operand_size),
        },
        OpInfo::Implicit(size) => OpInfoRecord::Implicit {
            size_info_index: size_index_of(sizes, size),
        },
        OpInfo::Cond => OpInfoRecord::Cond,
    }
}

/// The operand that a record stands for over a table of size descriptors.
pub open spec fn op_info_of_record(record: OpInfoRecord, sizes: Seq<OpSizeInfo>) -> OpInfo {
    match record {
        OpInfoRecord::Imm { encoded_size_info_index, extended_size_info_index, extend_kind } => {
            OpInfo::Imm(
                ImmOpInfo {
                    encoded_size: sizes[encoded_size_info_index as int],
                    extended_size: sizes[extended_size_info_index as int],
                    extend_kind,
                },
            )
        },
        OpInfoRecord::SpecificImm { operand_size_info_index, value } => OpInfo::SpecificImm(
            SpecificImmOpInfo { value, operand_size: sizes[operand_size_info_index as int] },
        ),
        OpInfoRecord::Reg { size_info_index, encoding } => OpInfo::Reg(
            RegOpInfo { encoding, size: sizes[size_info_index as int] },
        ),
        OpInfoRecord::Rm { size_info_index } => OpInfo::Rm(sizes[size_info_index as int]),
        OpInfoRecord::SpecificReg { size_info_index, reg } => OpInfo::SpecificReg(
            SpecificRegOpInfo { reg, size: sizes[size_info_index as int] },
        ),
        OpInfoRecord::ZextSpecificReg { size_info_index, extended_size_info_index, reg } => {
            OpInfo::ZextSpecificReg(
                ZextSpecificRegOpInfo {
                    reg,
                    size: sizes[size_info_index as int],
                    extended_size: sizes[extended_size_info_index as int],
                },
            )
        },
        OpInfoRecord::Rel { size_info_index } => OpInfo::Rel(sizes[size_info_index as int]),
        OpInfoRecord::MemOffset { mem_operand_size_info_index } => OpInfo::MemOffset(
            MemOffsetOpInfo { mem_operand_size: sizes[mem_operand_size_info_index as int] },
        ),
        OpInfoRecord::Implicit { size_info_index } => OpInfo::Implicit(
            sizes[size_info_index as int],
        ),
        OpInfoRecord::Cond => OpInfo::Cond,
    }
}

/// A record is of the kind of its operand.
pub proof fn lemma_op_info_record_kind(op: OpInfo, sizes: Seq<OpSizeInfo>)
    ensures
        op_info_record_of(op, sizes).spec_variant_name() == op.spec_variant_name(),
{
}

/// A record over a table that holds the operand's size descriptors stands for the operand.
pub proof fn lemma_op_info_record_round_trip(op: OpInfo, sizes: Seq<OpSizeInfo>)
    requires
        holds_sizes_of(sizes, op),
        sizes.len() <= usize::MAX,
    ensures
        op_info_of_record(op_info_record_of(op, sizes), sizes) == op,
{
    let held = op_size_infos_of(op);
    assert forall|j: int| 0 <= j < held.len() implies sizes[size_index_of(sizes, held[j]) as int]
        == held[j] by {
        assert(sizes.contains(held[j]));
        lemma_first_index(sizes, held[j]);
    }
    match op {
        OpInfo::Imm(imm) => {
            assert(held[0] == imm.encoded_size && held[1] == imm.extended_size);
        },
        OpInfo::SpecificImm(imm) => {
            assert(held[0] == imm.operand_size);
        },
        OpInfo::Reg(reg) => {
            assert(held[0] == reg.size);
        },
        OpInfo::Rm(size) => {
            assert(held[0] == size);
        },
        OpInfo::SpecificReg(reg) => {
            assert(held[0] == reg.size);
        },
        OpInfo::ZextSpecificReg(reg) => {
            assert(held[0] == reg.size && held[1] == reg.extended_size);
        },
        OpInfo::Rel(size) => {
            assert(held[0] == size);
        },
        OpInfo::MemOffset(mem_offset) => {
            assert(held[0] == mem_offset.mem_operand_size);
        },
        OpInfo::Implicit(size) => {
            assert(held[0] == size);
        },
        OpInfo::Cond => {},
    }
}

/// The position of a size descriptor in the table of size descriptors.
fn find_size_index(size: &OpSizeInfo, op_size_infos: &Vec<OpSizeInfo>) -> (index: usize)
    requires
        op_size_infos@.contains(*size),
    ensures
        index == size_index_of(op_size_infos@, *size),
{
    proof {
        lemma_models_of_op_size_infos(op_size_infos@);
    }
    find_index(size, op_size_infos)
}

/// Resolves the size descriptors of an operand to their positions in `op_size_infos`.
pub fn make_op_info_record(op: &OpInfo, op_size_infos: &Vec<OpSizeInfo>) -> (record: OpInfoRecord)
    requires
        holds_sizes_of(op_size_infos@, *op),
    ensures
        record == op_info_record_of(*op, op_size_infos@),
{
    let ghost held = op_size_infos_of(*op);
    match op {
        OpInfo::Imm(imm) => {
            assert(held[0] == imm.encoded_size && held[1] == imm.extended_size);
            OpInfoRecord::Imm {
                encoded_size_info_index: find_size_index(&imm.encoded_size, op_size_infos),
                extended_size_info_index: find_size_index(&imm.extended_size, op_size_infos),
                extend_kind: imm.extend_kind,
            }
        },
        OpInfo::SpecificImm(specific_imm) => {
            assert(held[0] == specific_imm.operand_size);
            OpInfoRecord::SpecificImm {
                operand_size_info_index: find_size_index(&specific_imm.operand_size, op_size_infos),
                value: specific_imm.value,
            }
        },
        OpInfo::Reg(reg) => {
            assert(held[0] == reg.size);
            OpInfoRecord::Reg {
                size_info_index: find_size_index(&reg.size, op_size_infos),
                encoding: reg.encoding,
            }
        },
        OpInfo::Rm(rm_size) => {
            assert(held[0] == *rm_size);
            OpInfoRecord::Rm { size_info_index: find_size_index(rm_size, op_size_infos) }
        },
        OpInfo::SpecificReg(specific_reg) => {
            assert(held[0] == specific_reg.size);
            OpInfoRecord::SpecificReg {
                size_info_index: find_size_index(&specific_reg.size, op_size_infos),
                reg: specific_reg.reg,
            }
        },
        OpInfo::ZextSpecificReg(zext_specific_reg) => {
            assert(held[0] == zext_specific_reg.size && held[1]
                == zext_specific_reg.extended_size);
            OpInfoRecord::ZextSpecificReg {
                size_info_index: find_size_index(&zext_specific_reg.size, op_size_infos),
                extended_size_info_index: find_size_index(
                    &zext_specific_reg.extended_size,
                    op_size_infos,
                ),
                reg: zext_specific_reg.reg,
            }
        },
        OpInfo::Rel(rel_size) => {
            assert(held[0] == *rel_size);
            OpInfoRecord::Rel { size_info_index: find_size_index(rel_size, op_size_infos) }
        },
        OpInfo::MemOffset(mem_offset) => {
            assert(held[0] == mem_offset.mem_operand_size);
            OpInfoRecord::MemOffset {
                mem_operand_size_info_index: find_size_index(
                    &mem_offset.mem_operand_size,
                    op_size_infos,
                ),
            }
        },
        OpInfo::Implicit(implicit_size) => {
            assert(held[0] == *implicit_size);
            OpInfoRecord::Implicit {
                size_info_index: find_size_index(implicit_size, op_size_infos),
            }
        },
        OpInfo::Cond => OpInfoRecord::Cond,
    }
}

/// The start of the operand list `ops_info` in the layout of `uniq_ops_infos`: the number of
/// operands of the lists before its first occurrence, or of all lists if it does not occur.
pub fn find_first_op_index(ops_info: &Ops, uniq_ops_infos: &Vec<Ops>) -> (index: usize)
    requires
        laid_out(models(uniq_ops_infos@)).len() <= usize::MAX,
    ensures
        index == first_op_index(models(uniq_ops_infos@), ops_info@),
{
    let ghost lists = models(uniq_ops_infos@);
    let mut index: usize = 0;
    let mut i: usize = 0;
    while i < uniq_ops_infos.len()
        invariant
            i <= uniq_ops_infos.len(),
            lists == models(uniq_ops_infos@),
            laid_out(lists).len() <= usize::MAX,
            index == laid_out(lists.take(i as int)).len(),
            forall|k: int| 0 <= k < i ==> lists[k] != ops_info@,
        decreases uniq_ops_infos.len() - i,
    {
        if uniq_ops_infos[i].same(ops_info) {
            proof {
                lemma_first_index(lists, ops_info@);
                assert(is_first_index(lists, ops_info@, i as int));
            }
            return index;
        }
        proof {
            lemma_laid_out_prefix(lists, i + 1);
            assert(lists.take(i + 1).drop_last() =~= lists.take(i as int));
        }
        index += uniq_ops_infos[i].len();
        i += 1;
    }
    proof {
        lemma_first_index(lists, ops_info@);
        assert(!lists.contains(ops_info@));
        assert(lists.take(i as int) =~= lists);
    }
    index
}

/// An opcode as it stands in the opcode table: a mnemonic and either the place of its
/// operands in the operand layout or the number of its ModRM sub-table.
#[derive(Debug, Clone, Copy, PartialEq, Eq, Hash, Structural)]
pub enum InsnRecord {
    Regular { mnemonic_index: usize, first_op_index: usize, ops_amount: usize },
    ModrmRegOpcodeExt { mnemonic_index: usize, modrm_reg_table_index: usize },
}

impl InsnRecord {
    /// The position of the record's mnemonic in the list of mnemonics.
    pub open spec fn spec_mnemonic_index(self) -> usize {
        match self {
            InsnRecord::Regular { mnemonic_index, .. } => mnemonic_index,
            InsnRecord::ModrmRegOpcodeExt { mnemonic_index, .. } => mnemonic_index,
        }
    }
}

/// The record of a table entry over the unique sets.
pub open spec fn insn_record_of(insn: InsnModel, sets: UniqueSetsModel) -> InsnRecord {
    match insn {
        InsnModel::Regular(info) => InsnRecord::Regular {
            mnemonic_index: first_index(sets.mnemonics, info.mnemonic) as usize,
            first_op_index: first_op_index(sets.ops_infos, info.ops) as usize,
            ops_amount: info.ops.len() as usize,
        },
        InsnModel::ModrmRegOpcodeExt(by_reg_value) => InsnRecord::ModrmRegOpcodeExt {
            mnemonic_index: first_index(sets.mnemonics, MNEMONIC_MODRM_REG_OPCODE_EXT@) as usize,
            modrm_reg_table_index: first_index(
                sets.modrm_reg_opcode_ext_tables,
                by_reg_value,
            ) as usize,
        },
    }
}

/// Whether the unique sets hold what a table entry refers to.
pub open spec fn holds_insn(sets: UniqueSetsModel, insn: InsnModel) -> bool {
    match insn {
        InsnModel::Regular(info) => sets.mnemonics.contains(info.mnemonic),
        InsnModel::ModrmRegOpcodeExt(by_reg_value) => {
            &&& sets.mnemonics.contains(MNEMONIC_MODRM_REG_OPCODE_EXT@)
            &&& sets.modrm_reg_opcode_ext_tables.contains(by_reg_value)
        },
    }
}

/// Resolves a table entry to positions in the unique sets.
pub fn make_insn_record(insn: &InsnInfo, sets: &UniqueSets) -> (record: InsnRecord)
    requires
        holds_insn(sets@, insn@),
        laid_out(sets@.ops_infos).len() <= usize::MAX,
    ensures
        record == insn_record_of(insn@, sets@),
{
    match insn {
        InsnInfo::Regular(info) => InsnRecord::Regular {
            mnemonic_index: find_index(&info.mnemonic, &sets.mnemonics),
            first_op_index: find_first_op_index(&info.ops, &sets.ops_infos),
            ops_amount: info.ops.len(),
        },
        InsnInfo::ModrmRegOpcodeExt(modrm_reg_table) => InsnRecord::ModrmRegOpcodeExt {
            mnemonic_index: find_index(&MNEMONIC_MODRM_REG_OPCODE_EXT, &sets.mnemonics),
            modrm_reg_table_index: find_index(modrm_reg_table, &sets.modrm_reg_opcode_ext_tables),
        },
    }
}

/// The tables that a table of instructions compiles to.
pub struct CompiledTablesModel {
    /// The unique sets of the table.
    pub sets: UniqueSetsModel,
    /// The number of operands of the longest operand list.
    pub insn_max_ops: nat,
    /// The operand table: the record of each distinct operand.
    pub op_infos: Seq<OpInfoRecord>,
    /// The operand layout: the distinct operand lists one after the other, each operand
    /// replaced by its position in the operand table.
    pub laid_out_ops_infos: Seq<usize>,
    /// The opcode table: the record of each entry.
    pub insns: Seq<InsnRecord>,
}

/// The tables that `table` compiles to.
pub open spec fn compiled_tables_of(table: Seq<InsnModel>) -> CompiledTablesModel {
    let sets = unique_sets_of(table);
    CompiledTablesModel {
        sets,
        insn_max_ops: max_len(sets.ops_infos),
        op_infos: Seq::new(
            sets.op_infos.len(),
            |k: int| op_info_record_of(sets.op_infos[k], sets.op_size_infos),
        ),
        laid_out_ops_infos: Seq::new(
            laid_out(sets.ops_infos).len(),
            |k: int| first_index(sets.op_infos, laid_out(sets.ops_infos)[k]) as usize,
        ),
        insns: Seq::new(table.len(), |i: int| insn_record_of(table[i], sets)),
    }
}

/// The instruction that a record of the opcode table stands for.
pub open spec fn insn_of_record(record: InsnRecord, compiled: CompiledTablesModel) -> InsnModel {
    match record {
        InsnRecord::Regular { mnemonic_index, first_op_index, ops_amount } => InsnModel::Regular(
            RegularInsnModel {
                mnemonic: compiled.sets.mnemonics[mnemonic_index as int],
                ops: Seq::new(
                    ops_amount as nat,
                    |k: int|
                        op_info_of_record(
                            compiled.op_infos[compiled.laid_out_ops_infos[first_op_index
                                + k] as int],
                            compiled.sets.op_size_infos,
                        ),
                ),
            },
        ),
        InsnRecord::ModrmRegOpcodeExt {
            mnemonic_index,
            modrm_reg_table_index,
        } => InsnModel::ModrmRegOpcodeExt(
            compiled.sets.modrm_reg_opcode_ext_tables[modrm_reg_table_index as int],
        ),
    }
}

/// Whether a table can be compiled on this machine: its unique sets and its operand layout
/// are short enough for their lengths to be numbers of the machine.
pub open spec fn fits_machine(table: Seq<InsnModel>) -> bool {
    let sets = unique_sets_of(table);
    &&& sets.mnemonics.len() <= usize::MAX
    &&& sets.ops_infos.len() <= usize::MAX
    &&& sets.op_infos.len() <= usize::MAX
    &&& sets.op_size_infos.len() <= usize::MAX
    &&& sets.modrm_reg_opcode_ext_tables.len() <= usize::MAX
    &&& laid_out(sets.ops_infos).len() <= usize::MAX
}

/// The unique sets hold whatever the table refers to.
pub proof fn lemma_unique_sets_hold_table(table: Seq<InsnModel>)
    ensures
        forall|i: int|
            0 <= i < table.len() ==> holds_insn(unique_sets_of(table), #[trigger] table[i]),
        forall|i: int|
            0 <= i < table.len() && table[i] is Regular ==> unique_sets_of(
                table,
            ).ops_infos.contains((#[trigger] table[i])->Regular_0.ops),
        forall|k: int|
            0 <= k < laid_out(unique_sets_of(table).ops_infos).len() ==> unique_sets_of(
                table,
            ).op_infos.contains(#[trigger] laid_out(unique_sets_of(table).ops_infos)[k]),
        forall|k: int|
            0 <= k < unique_sets_of(table).op_infos.len() ==> holds_sizes_of(
                unique_sets_of(table).op_size_infos,
                #[trigger] unique_sets_of(table).op_infos[k],
            ),
{
    let sets = unique_sets_of(table);
    let pseudo = MNEMONIC_MODRM_REG_OPCODE_EXT@;
    let distinct = unique(all_mnemonics(table));
    assert(sets.mnemonics[distinct.len() as int] == pseudo);
    assert forall|i: int| 0 <= i < table.len() implies holds_insn(sets, #[trigger] table[i]) by {
        match table[i] {
            InsnModel::Regular(info) => {
                assert(regular_insns_of(table[i])[0] == info);
                lemma_entry_in_all_regular_insns(table, i, info);
                lemma_unique_contains(all_mnemonics(table), info.mnemonic);
                let at = choose|at: int| 0 <= at < distinct.len() && distinct[at] == info.mnemonic;
                assert(sets.mnemonics[at] == info.mnemonic);
            },
            InsnModel::ModrmRegOpcodeExt(by_reg_value) => {
                lemma_sub_table_in_all_modrm_tables(table, i);
                lemma_unique_contains(all_modrm_tables(table), by_reg_value);
            },
        }
    }
    assert forall|i: int|
        0 <= i < table.len() && table[i] is Regular implies sets.ops_infos.contains(
        (#[trigger] table[i])->Regular_0.ops,
    ) by {
        let info = table[i]->Regular_0;
        assert(regular_insns_of(table[i])[0] == info);
        lemma_entry_in_all_regular_insns(table, i, info);
        lemma_unique_contains(all_ops(table), info.ops);
    }
    assert forall|k: int| 0 <= k < laid_out(sets.ops_infos).len() implies sets.op_infos.contains(
        #[trigger] laid_out(sets.ops_infos)[k],
    ) by {
        assert(laid_out(sets.ops_infos).contains(laid_out(sets.ops_infos)[k]));
        lemma_unique_contains(laid_out(sets.ops_infos), laid_out(sets.ops_infos)[k]);
    }
    assert forall|k: int| 0 <= k < sets.op_infos.len() implies holds_sizes_of(
        sets.op_size_infos,
        #[trigger] sets.op_infos[k],
    ) by {
        let held = op_size_infos_of(sets.op_infos[k]);
        assert forall|j: int| 0 <= j < held.len() implies sets.op_size_infos.contains(
            #[trigger] held[j],
        ) by {
            assert(held.contains(held[j]));
            lemma_size_in_all_op_size_infos(sets.op_infos, k, held[j]);
            lemma_unique_contains(all_op_size_infos(sets.op_infos), held[j]);
        }
    }
}

/// The compiled opcode table has one record for each entry of the table, and each record
/// stands for its entry: its mnemonic index leads to the entry's mnemonic, its place in the
/// operand layout leads, through the operand table and the table of size descriptors, to the
/// entry's operands, and its sub-table index leads to the entry's sub-table.
pub proof fn lemma_compiled_tables_resolve(table: Seq<InsnModel>, i: int)
    requires
        fits_machine(table),
        0 <= i < table.len(),
    ensures
        compiled_tables_of(table).insns.len() == table.len(),
        insn_of_record(compiled_tables_of(table).insns[i], compiled_tables_of(table)) == table[i],
        match compiled_tables_of(table).insns[i] {
            InsnRecord::Regular { mnemonic_index, first_op_index, ops_amount } => {
                &&& table[i] is Regular
                &&& mnemonic_index < compiled_tables_of(table).sets.mnemonics.len() - 1
                &&& first_op_index + ops_amount <= compiled_tables_of(
                    table,
                ).laid_out_ops_infos.len()
                &&& ops_amount <= compiled_tables_of(table).insn_max_ops
                &&& forall|k: int|
                    first_op_index <= k < first_op_index + ops_amount ==> (
                    #[trigger] compiled_tables_of(table).laid_out_ops_infos[k])
                        < compiled_tables_of(table).op_infos.len()
            },
            InsnRecord::ModrmRegOpcodeExt { mnemonic_index, modrm_reg_table_index } => {
                &&& table[i] is ModrmRegOpcodeExt
                &&& mnemonic_index < compiled_tables_of(table).sets.mnemonics.len()
                &&& compiled_tables_of(table).sets.mnemonics[mnemonic_index as int]
                    == MNEMONIC_MODRM_REG_OPCODE_EXT@
                &&& modrm_reg_table_index < compiled_tables_of(
                    table,
                ).sets.modrm_reg_opcode_ext_tables.len()
            },
        },
{
    let compiled = compiled_tables_of(table);
    let sets = compiled.sets;
    lemma_unique_sets_hold_table(table);
    assert(holds_insn(sets, table[i]));
    match table[i] {
        InsnModel::Regular(info) => {
            lemma_first_index(sets.mnemonics, info.mnemonic);
            lemma_first_index(sets.ops_infos, info.ops);
            let distinct = unique(all_mnemonics(table));
            assert(regular_insns_of(table[i])[0] == info);
            lemma_entry_in_all_regular_insns(table, i, info);
            lemma_unique_contains(all_mnemonics(table), info.mnemonic);
            let seen = choose|seen: int|
                0 <= seen < distinct.len() && distinct[seen] == info.mnemonic;
            assert(sets.mnemonics[seen] == info.mnemonic);
            let at = first_index(sets.ops_infos, info.ops);
            assert(sets.ops_infos[at] == info.ops);
            lemma_laid_out_holds_list(sets.ops_infos, at);
            lemma_max_len_bounds(sets.ops_infos, at);
            let start = first_op_index(sets.ops_infos, info.ops) as int;
            let layout = laid_out(sets.ops_infos);
            let decoded = insn_of_record(compiled.insns[i], compiled)->Regular_0.ops;
            assert forall|k: int| 0 <= k < info.ops.len() implies decoded[k] == info.ops[k]
                && compiled.laid_out_ops_infos[start + k] < compiled.op_infos.len() by {
                assert(layout.subrange(start, start + info.ops.len())[k] == info.ops[k]);
                let op = layout[start + k];
                assert(sets.op_infos.contains(op));
                lemma_first_index(sets.op_infos, op);
                let op_at = first_index(sets.op_infos, op);
                assert(holds_sizes_of(sets.op_size_infos, sets.op_infos[op_at]));
                lemma_op_info_record_round_trip(op, sets.op_size_infos);
            }
            assert(decoded =~= info.ops);
            assert forall|k: int| start <= k < start + info.ops.len() implies (
            #[trigger] compiled.laid_out_ops_infos[k]) < compiled.op_infos.len() by {
                let op = layout[k];
                assert(sets.op_infos.contains(op));
                lemma_first_index(sets.op_infos, op);
            }
        },
        InsnModel::ModrmRegOpcodeExt(by_reg_value) => {
            lemma_first_index(sets.mnemonics, MNEMONIC_MODRM_REG_OPCODE_EXT@);
            lemma_first_index(sets.modrm_reg_opcode_ext_tables, by_reg_value);
        },
    }
}

/// Every record of the operand table stands for the operand at its position in the set of
/// distinct operands.
pub proof fn lemma_op_info_records_resolve(table: Seq<InsnModel>, k: int)
    requires
        fits_machine(table),
        0 <= k < unique_sets_of(table).op_infos.len(),
    ensures
        compiled_tables_of(table).op_infos.len() == unique_sets_of(table).op_infos.len(),
        op_info_of_record(
            compiled_tables_of(table).op_infos[k],
            unique_sets_of(table).op_size_infos,
        ) == unique_sets_of(table).op_infos[k],
{
    let sets = unique_sets_of(table);
    lemma_unique_sets_hold_table(table);
    assert(holds_sizes_of(sets.op_size_infos, sets.op_infos[k]));
    lemma_op_info_record_round_trip(sets.op_infos[k], sets.op_size_infos);
}

/// The tables that a table of instructions compiles to.
pub struct CompiledTables {
    pub sets: UniqueSets,
    pub insn_max_ops: usize,
    pub op_infos: Vec<OpInfoRecord>,
    pub laid_out_ops_infos: Vec<usize>,
    pub insns: Vec<InsnRecord>,
}

impl View for CompiledTables {
    type V = CompiledTablesModel;

    open spec fn view(&self) -> CompiledTablesModel {
        CompiledTablesModel {
            sets: self.sets@,
            insn_max_ops: self.insn_max_ops as nat,
            op_infos: self.op_infos@,
            laid_out_ops_infos: self.laid_out_ops_infos@,
            insns: self.insns@,
        }
    }
}

/// The number of operands of the longest of the lists; zero if there is none.
pub fn max_ops_amount(lists: &Vec<Ops>) -> (amount: usize)
    ensures
        amount == max_len(models(lists@)),
{
    let ghost all = models(lists@);
    let mut amount: usize = 0;
    let mut i: usize = 0;
    while i < lists.len()
        invariant
            i <= lists.len(),
            all == models(lists@),
            amount == max_len(all.take(i as int)),
        decreases lists.len() - i,
    {
        proof {
            assert(all.take(i + 1).drop_last() =~= all.take(i as int));
        }
        if lists[i].len() > amount {
            amount = lists[i].len();
        }
        i += 1;
    }
    assert(all.take(i as int) =~= all);
    amount
}

/// Compiles a table: derives its unique sets and resolves every operand and every entry to
/// positions in them. Every lookup succeeds, because the sets were derived from the table.
pub fn compile_table(table: &[InsnInfo]) -> (compiled: CompiledTables)
    ensures
        compiled@ == compiled_tables_of(models(table@)),
        fits_machine(models(table@)),
{
    let sets = collect_unique_sets(table);
    let ghost entries = models(table@);
    let ghost model = unique_sets_of(entries);
    proof {
        lemma_unique_sets_hold_table(entries);
        lemma_models_of_op_infos(sets.op_infos@);
    }
    let insn_max_ops = max_ops_amount(&sets.ops_infos);

    let mut op_infos: Vec<OpInfoRecord> = Vec::new();
    let mut k: usize = 0;
    while k < sets.op_infos.len()
        invariant
            k <= sets.op_infos.len(),
            sets@ == model,
            forall|j: int|
                0 <= j < model.op_infos.len() ==> holds_sizes_of(
                    model.op_size_infos,
                    #[trigger] model.op_infos[j],
                ),
            op_infos@.len() == k,
            forall|j: int|
                0 <= j < k ==> op_infos@[j] == op_info_record_of(
                    model.op_infos[j],
                    model.op_size_infos,
                ),
        decreases sets.op_infos.len() - k,
    {
        op_infos.push(make_op_info_record(&sets.op_infos[k], &sets.op_size_infos));
        k += 1;
    }

    let layout = lay_out_ops(&sets.ops_infos);
    let mut laid_out_ops_infos: Vec<usize> = Vec::new();
    let mut k: usize = 0;
    while k < layout.len()
        invariant
            k <= layout.len(),
            sets@ == model,
            layout@ == laid_out(model.ops_infos),
            models(sets.op_infos@) == model.op_infos,
            forall|j: int|
                0 <= j < layout@.len() ==> model.op_infos.contains(#[trigger] layout@[j]),
            laid_out_ops_infos@.len() == k,
            forall|j: int|
                0 <= j < k ==> laid_out_ops_infos@[j] == first_index(model.op_infos, layout@[j]),
        decreases layout.len() - k,
    {
        laid_out_ops_infos.push(find_index(&layout[k], &sets.op_infos));
        k += 1;
    }

    let mut insns: Vec<InsnRecord> = Vec::new();
    let mut i: usize = 0;
    while i < table.len()
        invariant
            i <= table.len(),
            sets@ == model,
            entries == models(table@),
            laid_out(model.ops_infos).len() <= usize::MAX,
            forall|j: int| 0 <= j < entries.len() ==> holds_insn(model, #[trigger] entries[j]),
            insns@.len() == i,
            forall|j: int| 0 <= j < i ==> insns@[j] == insn_record_of(entries[j], model),
        decreases table.len() - i,
    {
        assert(holds_insn(model, entries[i as int]));
        insns.push(make_insn_record(&table[i], &sets));
        i += 1;
    }
    let compiled = CompiledTables { sets, insn_max_ops, op_infos, laid_out_ops_infos, insns };
    proof {
        let expected = compiled_tables_of(entries);
        assert(model.mnemonics.len() == compiled.sets.mnemonics.len());
        assert(model.ops_infos.len() == compiled.sets.ops_infos.len());
        assert(model.op_size_infos.len() == compiled.sets.op_size_infos.len());
        assert(model.modrm_reg_opcode_ext_tables.len()
            == compiled.sets.modrm_reg_opcode_ext_tables.len());
        assert(compiled@.op_infos =~= expected.op_infos);
        assert(compiled@.laid_out_ops_infos =~= expected.laid_out_ops_infos);
        assert(compiled@.insns =~= expected.insns);
    }
    compiled
}

/// Whether every operand list of the table has at most `bound` operands.
pub open spec fn operand_lists_within(table: Seq<InsnModel>, bound: nat) -> bool {
    forall|i: int, k: int|
        0 <= i < table.len() && 0 <= k < regular_insns_of(table[i]).len() ==> (
        #[trigger] regular_insns_of(table[i])[k]).ops.len() <= bound
}

/// Every instruction of a table is what one of its entries stands for.
pub proof fn lemma_all_regular_insns_come_from_table(table: Seq<InsnModel>, at: int)
    requires
        0 <= at < all_regular_insns(table).len(),
    ensures
        exists|i: int, k: int|
            0 <= i < table.len() && 0 <= k < regular_insns_of(table[i]).len()
                && #[trigger] regular_insns_of(table[i])[k] == all_regular_insns(table)[at],
    decreases table.len(),
{
    let rest = table.drop_last();
    let before = all_regular_insns(rest).len();
    if at < before {
        lemma_all_regular_insns_come_from_table(rest, at);
        let (i, k) = choose|i: int, k: int|
            0 <= i < rest.len() && 0 <= k < regular_insns_of(rest[i]).len()
                && #[trigger] regular_insns_of(rest[i])[k] == all_regular_insns(rest)[at];
        assert(regular_insns_of(table[i])[k] == all_regular_insns(table)[at]);
    } else {
        let i = table.len() - 1;
        assert(regular_insns_of(table[i])[at - before] == all_regular_insns(table)[at]);
    }
}

/// The longest of some lists is no longer than a bound that holds of each.
pub proof fn lemma_max_len_within(lists: Seq<Seq<OpInfo>>, bound: nat)
    requires
        forall|i: int| 0 <= i < lists.len() ==> (#[trigger] lists[i]).len() <= bound,
    ensures
        max_len(lists) <= bound,
    decreases lists.len(),
{
    if lists.len() > 0 {
        let rest = lists.drop_last();
        assert forall|i: int| 0 <= i < rest.len() implies (#[trigger] rest[i]).len() <= bound by {
            assert(rest[i] == lists[i]);
        }
        lemma_max_len_within(rest, bound);
    }
}

/// No instruction of the compiled tables has more operands than the longest operand list of
/// the table.
pub proof fn lemma_insn_max_ops_within(table: Seq<InsnModel>, bound: nat)
    requires
        operand_lists_within(table, bound),
    ensures
        compiled_tables_of(table).insn_max_ops <= bound,
{
    let lists = unique_sets_of(table).ops_infos;
    assert forall|j: int| 0 <= j < lists.len() implies (#[trigger] lists[j]).len() <= bound by {
        assert(lists.contains(lists[j]));
        lemma_unique_contains(all_ops(table), lists[j]);
        let at = choose|at: int| 0 <= at < all_ops(table).len() && all_ops(table)[at] == lists[j];
        lemma_all_regular_insns_come_from_table(table, at);
    }
    lemma_max_len_within(lists, bound);
}

/// The compiled tables name a mnemonic of the list of mnemonics in every record, and the list
/// is never empty.
pub proof fn lemma_compiled_mnemonics_resolve(table: Seq<InsnModel>)
    requires
        fits_machine(table),
    ensures
        compiled_tables_of(table).sets.mnemonics.len() >= 1,
        forall|i: int|
            0 <= i < compiled_tables_of(table).insns.len() ==> (#[trigger] compiled_tables_of(
                table,
            ).insns[i]).spec_mnemonic_index() < compiled_tables_of(table).sets.mnemonics.len(),
{
    let compiled = compiled_tables_of(table);
    assert forall|i: int| 0 <= i < compiled.insns.len() implies (
    #[trigger] compiled.insns[i]).spec_mnemonic_index() < compiled.sets.mnemonics.len() by {
        lemma_compiled_tables_resolve(table, i);
    }
}

/// The compiled opcode table is complete: it has exactly one record for each entry of the
/// table, in table order, and the sub-table index of every record of an entry that is selected
/// by the ModRM byte leads to a sub-table of exactly eight instructions, the entry's own.
pub proof fn lemma_compiled_table_is_complete(entries: Seq<InsnInfo>)
    requires
        fits_machine(models(entries)),
    ensures
        compiled_tables_of(models(entries)).insns.len() == entries.len(),
        forall|opcode: int|
            0 <= opcode < entries.len() ==> match #[trigger] compiled_tables_of(
                models(entries),
            ).insns[opcode] {
                InsnRecord::Regular { .. } => entries[opcode] is Regular,
                InsnRecord::ModrmRegOpcodeExt { modrm_reg_table_index, .. } => {
                    &&& entries[opcode] is ModrmRegOpcodeExt
                    &&& modrm_reg_table_index < compiled_tables_of(
                        models(entries),
                    ).sets.modrm_reg_opcode_ext_tables.len()
                    &&& compiled_tables_of(
                        models(entries),
                    ).sets.modrm_reg_opcode_ext_tables[modrm_reg_table_index as int].len() == 8
                    &&& compiled_tables_of(
                        models(entries),
                    ).sets.modrm_reg_opcode_ext_tables[modrm_reg_table_index as int]
                        == entries[opcode]@->ModrmRegOpcodeExt_0
                },
            },
{
    let table = models(entries);
    let compiled = compiled_tables_of(table);
    assert forall|opcode: int|
        0 <= opcode < entries.len() implies match #[trigger] compiled.insns[opcode] {
        InsnRecord::Regular { .. } => entries[opcode] is Regular,
        InsnRecord::ModrmRegOpcodeExt { modrm_reg_table_index, .. } => {
            &&& entries[opcode] is ModrmRegOpcodeExt
            &&& modrm_reg_table_index < compiled.sets.modrm_reg_opcode_ext_tables.len()
            &&& compiled.sets.modrm_reg_opcode_ext_tables[modrm_reg_table_index as int].len() == 8
            &&& compiled.sets.modrm_reg_opcode_ext_tables[modrm_reg_table_index as int]
                == entries[opcode]@->ModrmRegOpcodeExt_0
        },
    } by {
        lemma_compiled_tables_resolve(table, opcode);
        assert(table[opcode] == entries[opcode]@);
        match entries[opcode] {
            InsnInfo::Regular(_) => {},
            InsnInfo::ModrmRegOpcodeExt(info) => {
                assert(info@.len() == 8);
            },
        }
    }
}

/// Compiling is a function of what the table holds: tables of equal content, however they
/// were built, compile to the same tables.
pub proof fn lemma_compiling_is_deterministic(first: Seq<InsnInfo>, second: Seq<InsnInfo>)
    requires
        first.len() == second.len(),
        forall|opcode: int| 0 <= opcode < first.len() ==> first[opcode]@ == second[opcode]@,
    ensures
        compiled_tables_of(models(first)) == compiled_tables_of(models(second)),
{
    assert(models(first) =~= models(second));
}

} // verus!
