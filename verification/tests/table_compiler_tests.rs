use opcode_tables::first_opcode_byte_table::gen_first_opcode_byte_table;
use opcode_tables::second_opcode_byte_table::gen_second_opcode_byte_table;
use opcode_tables::table_compiler::{
    collect_op_size_infos, collect_unique_sets, compile_table, find_first_op_index, lay_out_ops,
    make_insn_record, make_op_info_record, max_ops_amount, table_all_mnemonics,
    table_all_modrm_reg_opcode_ext_tables, table_all_ops, table_all_regular_insn_infos,
    CompiledTables, InsnRecord, OpInfoRecord, MNEMONIC_MODRM_REG_OPCODE_EXT,
};
use opcode_tables::table_gen_utils::unsupported;
use opcode_tables::table_types::{
    ImmExtendKind, ImmOpInfo, InsnInfo, MemOffsetOpInfo, ModrmRegOpcodeExtInsnInfo, OpInfo,
    OpSizeInfo, RegEncoding, RegOpInfo, RegularInsnInfo, SpecificImm, SpecificImmOpInfo,
    SpecificReg, SpecificRegOpInfo, ZextSpecificRegOpInfo,
};
use opcode_tables::unique_set::Descriptor;

fn regular(mnemonic: &'static str, ops: Vec<OpInfo>) -> InsnInfo {
    InsnInfo::Regular(RegularInsnInfo { mnemonic, ops })
}

fn filled(mut entries: Vec<InsnInfo>) -> Vec<InsnInfo> {
    let missing = 256 - entries.len();
    unsupported(&mut entries, missing);
    entries
}

fn shifts(ops: Vec<OpInfo>) -> InsnInfo {
    InsnInfo::ModrmRegOpcodeExt(ModrmRegOpcodeExtInsnInfo::new_with_same_operands(
        ops,
        ["rol", "ror", "rcl", "rcr", "shl", "shr", "unsupported", "sar"],
    ))
}

fn op_of_record(record: &OpInfoRecord, sizes: &[OpSizeInfo]) -> OpInfo {
    match *record {
        OpInfoRecord::Imm { encoded_size_info_index, extended_size_info_index, extend_kind } => {
            OpInfo::Imm(ImmOpInfo {
                encoded_size: sizes[encoded_size_info_index],
                extended_size: sizes[extended_size_info_index],
                extend_kind,
            })
        }
        OpInfoRecord::SpecificImm { operand_size_info_index, value } => {
            OpInfo::SpecificImm(SpecificImmOpInfo {
                value,
                operand_size: sizes[operand_size_info_index],
            })
        }
        OpInfoRecord::Reg { size_info_index, encoding } => {
            OpInfo::Reg(RegOpInfo { encoding, size: sizes[size_info_index] })
        }
        OpInfoRecord::Rm { size_info_index } => OpInfo::Rm(sizes[size_info_index]),
        OpInfoRecord::SpecificReg { size_info_index, reg } => {
            OpInfo::SpecificReg(SpecificRegOpInfo { reg, size: sizes[size_info_index] })
        }
        OpInfoRecord::ZextSpecificReg { size_info_index, extended_size_info_index, reg } => {
            OpInfo::ZextSpecificReg(ZextSpecificRegOpInfo {
                reg,
                size: sizes[size_info_index],
                extended_size: sizes[extended_size_info_index],
            })
        }
        OpInfoRecord::Rel { size_info_index } => OpInfo::Rel(sizes[size_info_index]),
        OpInfoRecord::MemOffset { mem_operand_size_info_index } => {
            OpInfo::MemOffset(MemOffsetOpInfo {
                mem_operand_size: sizes[mem_operand_size_info_index],
            })
        }
        OpInfoRecord::Implicit { size_info_index } => OpInfo::Implicit(sizes[size_info_index]),
        OpInfoRecord::Cond => OpInfo::Cond,
    }
}

fn assert_resolves(table: &[InsnInfo], compiled: &CompiledTables) {
    assert_eq!(compiled.insns.len(), table.len());
    assert_eq!(compiled.op_infos.len(), compiled.sets.op_infos.len());
    for (record, op) in compiled.op_infos.iter().zip(&compiled.sets.op_infos) {
        assert_eq!(op_of_record(record, &compiled.sets.op_size_infos), *op);
    }
    for (entry, record) in table.iter().zip(&compiled.insns) {
        match (entry, record) {
            (
                InsnInfo::Regular(info),
                InsnRecord::Regular { mnemonic_index, first_op_index, ops_amount },
            ) => {
                assert_eq!(compiled.sets.mnemonics[*mnemonic_index], info.mnemonic);
                assert_eq!(*ops_amount, info.ops.len());
                assert!(*ops_amount <= compiled.insn_max_ops);
                assert!(first_op_index + ops_amount <= compiled.laid_out_ops_infos.len());
                let ops: Vec<OpInfo> = compiled.laid_out_ops_infos
                    [*first_op_index..first_op_index + ops_amount]
                    .iter()
                    .map(|index| {
                        op_of_record(&compiled.op_infos[*index], &compiled.sets.op_size_infos)
                    })
                    .collect();
                assert_eq!(ops, info.ops);
            }
            (
                InsnInfo::ModrmRegOpcodeExt(info),
                InsnRecord::ModrmRegOpcodeExt { mnemonic_index, modrm_reg_table_index },
            ) => {
                assert_eq!(compiled.sets.mnemonics[*mnemonic_index], MNEMONIC_MODRM_REG_OPCODE_EXT);
                let resolved = &compiled.sets.modrm_reg_opcode_ext_tables[*modrm_reg_table_index];
                assert_eq!(resolved.by_reg_value.len(), 8);
                assert!(resolved.same(info));
            }
            _ => panic!("a record is of the form of its entry"),
        }
    }
}

#[test]
fn all_regular_insns_flatten_sub_tables() {
    let table = vec![
        regular("mov", vec![OpInfo::rm_8()]),
        shifts(vec![OpInfo::rm_8(), OpInfo::cl()]),
        regular("nop", vec![]),
    ];
    let infos = table_all_regular_insn_infos(&table);
    let names: Vec<&str> = infos.iter().map(|info| info.mnemonic).collect();
    assert_eq!(
        names,
        vec!["mov", "rol", "ror", "rcl", "rcr", "shl", "shr", "unsupported", "sar", "nop"]
    );
    assert_eq!(table_all_mnemonics(&table), names);
    let ops = table_all_ops(&table);
    assert_eq!(ops.len(), 10);
    assert_eq!(ops[0], vec![OpInfo::rm_8()]);
    for list in &ops[1..9] {
        assert_eq!(*list, vec![OpInfo::rm_8(), OpInfo::cl()]);
    }
    assert!(ops[9].is_empty());
    let sub_tables = table_all_modrm_reg_opcode_ext_tables(&table);
    assert_eq!(sub_tables.len(), 1);
    assert_eq!(sub_tables[0].by_reg_value[4].mnemonic, "shl");
}

#[test]
fn all_regular_insns_of_empty_table() {
    let table: Vec<InsnInfo> = Vec::new();
    assert!(table_all_regular_insn_infos(&table).is_empty());
    assert!(table_all_mnemonics(&table).is_empty());
    assert!(table_all_ops(&table).is_empty());
    assert!(table_all_modrm_reg_opcode_ext_tables(&table).is_empty());
}

#[test]
fn operand_lists_are_laid_out_in_order() {
    let lists = vec![vec![OpInfo::rm_8(), OpInfo::cl()], vec![], vec![OpInfo::Cond]];
    assert_eq!(lay_out_ops(&lists), vec![OpInfo::rm_8(), OpInfo::cl(), OpInfo::Cond]);
    assert_eq!(max_ops_amount(&lists), 2);
    assert_eq!(max_ops_amount(&Vec::new()), 0);
    assert!(lay_out_ops(&Vec::new()).is_empty());
}

#[test]
fn first_op_index_counts_operands_of_earlier_lists() {
    let lists = vec![
        vec![OpInfo::rm_8(), OpInfo::cl()],
        vec![],
        vec![OpInfo::Cond],
        vec![OpInfo::al(), OpInfo::Cond, OpInfo::cl()],
    ];
    assert_eq!(find_first_op_index(&vec![OpInfo::rm_8(), OpInfo::cl()], &lists), 0);
    assert_eq!(find_first_op_index(&vec![], &lists), 2);
    assert_eq!(find_first_op_index(&vec![OpInfo::Cond], &lists), 2);
    assert_eq!(find_first_op_index(&vec![OpInfo::al(), OpInfo::Cond, OpInfo::cl()], &lists), 3);
    // a list that does not occur starts behind all the others
    assert_eq!(find_first_op_index(&vec![OpInfo::al()], &lists), 6);
}

#[test]
fn size_descriptors_of_operands() {
    let imm = OpInfo::Imm(ImmOpInfo {
        encoded_size: OpSizeInfo::sz_always_8(),
        extended_size: OpSizeInfo::sz_16_32_64_def_32(),
        extend_kind: ImmExtendKind::ZeroExtend,
    });
    let zext = OpInfo::ZextSpecificReg(ZextSpecificRegOpInfo {
        reg: SpecificReg::Rcx,
        size: OpSizeInfo::sz_always_16(),
        extended_size: OpSizeInfo::sz_16_32_64_def_64(),
    });
    let sizes = collect_op_size_infos(&vec![imm, OpInfo::Cond, OpInfo::rm_8(), zext]);
    assert_eq!(
        sizes,
        vec![
            OpSizeInfo::sz_always_8(),
            OpSizeInfo::sz_16_32_64_def_32(),
            OpSizeInfo::sz_always_8(),
            OpSizeInfo::sz_always_16(),
            OpSizeInfo::sz_16_32_64_def_64(),
        ]
    );
}

#[test]
fn immediate_record_keeps_both_sizes_apart() {
    let sizes = vec![OpSizeInfo::sz_always_8(), OpSizeInfo::sz_16_32_64_def_32()];
    let imm = OpInfo::Imm(ImmOpInfo {
        encoded_size: OpSizeInfo::sz_always_8(),
        extended_size: OpSizeInfo::sz_16_32_64_def_32(),
        extend_kind: ImmExtendKind::SignExtend,
    });
    assert_eq!(
        make_op_info_record(&imm, &sizes),
        OpInfoRecord::Imm {
            encoded_size_info_index: 0,
            extended_size_info_index: 1,
            extend_kind: ImmExtendKind::SignExtend,
        }
    );
}

#[test]
fn records_of_every_kind_of_operand() {
    let sizes = vec![
        OpSizeInfo::sz_16_32_64_def_64(),
        OpSizeInfo::sz_always_8(),
        OpSizeInfo::sz_16_32_64_def_32(),
    ];
    let ops = vec![
        OpInfo::imm_8_no_ext(),
        OpInfo::SpecificImm(SpecificImmOpInfo {
            value: SpecificImm::Zero,
            operand_size: OpSizeInfo::sz_16_32_64_def_32(),
        }),
        OpInfo::r_opcode_8(),
        OpInfo::rm_16_32_64_def_64(),
        OpInfo::dx_16_32_64_def_32(),
        OpInfo::ZextSpecificReg(ZextSpecificRegOpInfo {
            reg: SpecificReg::Rcx,
            size: OpSizeInfo::sz_always_8(),
            extended_size: OpSizeInfo::sz_16_32_64_def_32(),
        }),
        OpInfo::Rel(OpSizeInfo::sz_always_8()),
        OpInfo::MemOffset(MemOffsetOpInfo { mem_operand_size: OpSizeInfo::sz_16_32_64_def_32() }),
        OpInfo::Implicit(OpSizeInfo::sz_16_32_64_def_64()),
        OpInfo::Cond,
    ];
    let expected = vec![
        OpInfoRecord::Imm {
            encoded_size_info_index: 1,
            extended_size_info_index: 1,
            extend_kind: ImmExtendKind::SignExtend,
        },
        OpInfoRecord::SpecificImm { operand_size_info_index: 2, value: SpecificImm::Zero },
        OpInfoRecord::Reg { size_info_index: 1, encoding: RegEncoding::Opcode },
        OpInfoRecord::Rm { size_info_index: 0 },
        OpInfoRecord::SpecificReg { size_info_index: 2, reg: SpecificReg::Rdx },
        OpInfoRecord::ZextSpecificReg {
            size_info_index: 1,
            extended_size_info_index: 2,
            reg: SpecificReg::Rcx,
        },
        OpInfoRecord::Rel { size_info_index: 1 },
        OpInfoRecord::MemOffset { mem_operand_size_info_index: 2 },
        OpInfoRecord::Implicit { size_info_index: 0 },
        OpInfoRecord::Cond,
    ];
    for (op, record) in ops.iter().zip(&expected) {
        let made = make_op_info_record(op, &sizes);
        assert_eq!(made, *record);
        assert_eq!(made.variant_name(), op.variant_name());
        assert_eq!(op_of_record(&made, &sizes), *op);
    }
    let members: Vec<&str> = expected.iter().map(|record| record.member_name()).collect();
    assert_eq!(
        members,
        vec![
            "imm",
            "specific_imm",
            "reg",
            "rm",
            "specific_reg",
            "zext_specific_reg",
            "rel",
            "mem_offset",
            "implicit",
            "cond"
        ]
    );
}

#[test]
fn unique_sets_of_the_first_table() {
    let table = gen_first_opcode_byte_table();
    let sets = collect_unique_sets(&table);
    assert_eq!(
        sets.mnemonics,
        vec![
            "add", "unsupported", "or", "adc", "sbb", "and", "sub", "xor", "cmp", "inc", "dec",
            "push", "pop", "movsxd", "imul", "jcc", "test", "xchg", "mov", "lea", "nop", "movsz",
            "cwd", "movs", "cmps", "stos", "lods", "scas", "rol", "ror", "rcl", "rcr", "shl",
            "shr", "sar", "ret", "call", "jmp", "hlt", "cmc", "not", "neg", "mul", "div", "idiv",
            "clc", "stc", "cli", "sti", "cld", "std", "modrm_reg_opcode_ext",
        ]
    );
    assert_eq!(sets.ops_infos[0], vec![OpInfo::rm_8(), OpInfo::r_modrm_8()]);
    assert_eq!(sets.ops_infos[6], Vec::<OpInfo>::new());
    assert_eq!(sets.op_infos[0], OpInfo::rm_8());
    assert_eq!(sets.op_infos[1], OpInfo::r_modrm_8());
    assert_eq!(sets.op_size_infos[0], OpSizeInfo::sz_always_8());
    assert_eq!(sets.op_size_infos[1], OpSizeInfo::sz_16_32_64_def_32());
    // 0xc0 and 0xc1 differ, and so do all the others: sixteen sub-tables, none shared
    assert_eq!(sets.modrm_reg_opcode_ext_tables.len(), 16);
    for (i, first) in sets.ops_infos.iter().enumerate() {
        for second in &sets.ops_infos[i + 1..] {
            assert_ne!(first, second);
        }
    }
    for (i, first) in sets.op_infos.iter().enumerate() {
        for second in &sets.op_infos[i + 1..] {
            assert_ne!(first, second);
        }
    }
    for (i, first) in sets.op_size_infos.iter().enumerate() {
        for second in &sets.op_size_infos[i + 1..] {
            assert_ne!(first, second);
        }
    }
}

#[test]
fn equal_sub_tables_are_shared() {
    let table = filled(vec![
        shifts(vec![OpInfo::rm_8(), OpInfo::cl()]),
        regular("nop", vec![]),
        shifts(vec![OpInfo::rm_8(), OpInfo::cl()]),
        shifts(vec![OpInfo::rm_8()]),
    ]);
    let compiled = compile_table(&table);
    assert_eq!(compiled.sets.modrm_reg_opcode_ext_tables.len(), 2);
    let pseudo = compiled.sets.mnemonics.len() - 1;
    assert_eq!(compiled.sets.mnemonics[pseudo], "modrm_reg_opcode_ext");
    assert_eq!(
        compiled.insns[0],
        InsnRecord::ModrmRegOpcodeExt { mnemonic_index: pseudo, modrm_reg_table_index: 0 }
    );
    assert_eq!(
        compiled.insns[2],
        InsnRecord::ModrmRegOpcodeExt { mnemonic_index: pseudo, modrm_reg_table_index: 0 }
    );
    assert_eq!(
        compiled.insns[3],
        InsnRecord::ModrmRegOpcodeExt { mnemonic_index: pseudo, modrm_reg_table_index: 1 }
    );
    assert_resolves(&table, &compiled);
}

#[test]
fn compiled_first_table_is_complete_and_resolves() {
    let table = gen_first_opcode_byte_table();
    let compiled = compile_table(&table);
    assert_eq!(compiled.insns.len(), 256);
    assert_eq!(compiled.insn_max_ops, 3);
    let mut dispatched = 0;
    for (opcode, record) in compiled.insns.iter().enumerate() {
        if let InsnRecord::ModrmRegOpcodeExt { modrm_reg_table_index, .. } = record {
            dispatched += 1;
            let resolved = &compiled.sets.modrm_reg_opcode_ext_tables[*modrm_reg_table_index];
            assert_eq!(resolved.by_reg_value.len(), 8);
            match &table[opcode] {
                InsnInfo::ModrmRegOpcodeExt(info) => assert!(resolved.same(info)),
                InsnInfo::Regular(_) => panic!("opcode {opcode} is no sub-table"),
            }
        }
    }
    assert_eq!(dispatched, 16);
    assert_resolves(&table, &compiled);
}

#[test]
fn compiled_second_table_is_complete_and_resolves() {
    let table = gen_second_opcode_byte_table();
    let compiled = compile_table(&table);
    assert_eq!(compiled.insns.len(), 256);
    assert_eq!(compiled.sets.modrm_reg_opcode_ext_tables.len(), 1);
    assert_eq!(compiled.insn_max_ops, 3);
    assert_resolves(&table, &compiled);
}

#[test]
fn shared_operand_list_is_laid_out_once() {
    let table = filled(vec![
        regular("mov", vec![OpInfo::rm_8(), OpInfo::r_modrm_8()]),
        regular("test", vec![OpInfo::rm_8(), OpInfo::r_modrm_8()]),
    ]);
    let compiled = compile_table(&table);
    assert_eq!(
        compiled.sets.mnemonics,
        vec!["mov", "test", "unsupported", "modrm_reg_opcode_ext"]
    );
    assert_eq!(
        compiled.sets.ops_infos,
        vec![vec![OpInfo::rm_8(), OpInfo::r_modrm_8()], vec![]]
    );
    assert_eq!(compiled.laid_out_ops_infos, vec![0, 1]);
    assert_eq!(
        compiled.insns[0],
        InsnRecord::Regular { mnemonic_index: 0, first_op_index: 0, ops_amount: 2 }
    );
    assert_eq!(
        compiled.insns[1],
        InsnRecord::Regular { mnemonic_index: 1, first_op_index: 0, ops_amount: 2 }
    );
    assert_resolves(&table, &compiled);
}

#[test]
fn unsupported_opcode_has_no_operands() {
    let table = filled(vec![regular("hlt", vec![]), regular("inc", vec![OpInfo::rm_8()])]);
    let compiled = compile_table(&table);
    for opcode in 2..256 {
        match compiled.insns[opcode] {
            InsnRecord::Regular { mnemonic_index, ops_amount, .. } => {
                assert_eq!(compiled.sets.mnemonics[mnemonic_index], "unsupported");
                assert_eq!(ops_amount, 0);
            }
            InsnRecord::ModrmRegOpcodeExt { .. } => panic!("an unsupported opcode is regular"),
        }
    }
}

#[test]
fn specific_immediate_refers_to_the_shared_size_table() {
    let one = OpInfo::SpecificImm(SpecificImmOpInfo {
        value: SpecificImm::One,
        operand_size: OpSizeInfo::sz_always_8(),
    });
    let table = filled(vec![
        regular("mov", vec![OpInfo::rm_16_32_64_def_32(), OpInfo::rm_8()]),
        regular("shl", vec![OpInfo::rm_8(), one]),
    ]);
    let compiled = compile_table(&table);
    assert_eq!(
        compiled.sets.op_size_infos,
        vec![OpSizeInfo::sz_16_32_64_def_32(), OpSizeInfo::sz_always_8()]
    );
    assert_eq!(compiled.sets.op_infos, vec![OpInfo::rm_16_32_64_def_32(), OpInfo::rm_8(), one]);
    assert_eq!(
        compiled.op_infos[2],
        OpInfoRecord::SpecificImm { operand_size_info_index: 1, value: SpecificImm::One }
    );
    assert_eq!(compiled.op_infos[1], OpInfoRecord::Rm { size_info_index: 1 });
    assert_eq!(SpecificImm::variant_names()[1], SpecificImm::One.variant_name());
}

#[test]
fn record_of_one_entry() {
    let table = filled(vec![regular("mov", vec![OpInfo::rm_8()]), regular("nop", vec![])]);
    let sets = collect_unique_sets(&table);
    assert_eq!(
        make_insn_record(&table[1], &sets),
        InsnRecord::Regular { mnemonic_index: 1, first_op_index: 1, ops_amount: 0 }
    );
    assert_eq!(
        make_insn_record(&table[0], &sets),
        InsnRecord::Regular { mnemonic_index: 0, first_op_index: 0, ops_amount: 1 }
    );
}

#[test]
fn compiling_twice_gives_the_same_tables() {
    let table = gen_first_opcode_byte_table();
    let first = compile_table(&table);
    let second = compile_table(&gen_first_opcode_byte_table());
    assert_eq!(first.insns, second.insns);
    assert_eq!(first.op_infos, second.op_infos);
    assert_eq!(first.laid_out_ops_infos, second.laid_out_ops_infos);
    assert_eq!(first.sets.mnemonics, second.sets.mnemonics);
    assert_eq!(first.sets.op_size_infos, second.sets.op_size_infos);
}
