use opcode_tables::first_opcode_byte_table::{
    gen_first_opcode_byte_table, SHIFT_BINOP_MNEMONICS, SIMPLE_BINOP_MNEMONICS,
};
use opcode_tables::opcode_table::{OpcodeTable, TableLengthError};
use opcode_tables::second_opcode_byte_table::gen_second_opcode_byte_table;
use opcode_tables::table_gen_utils::{push_insn, repeat, simple_binary_op, unsupported};
use opcode_tables::table_types::{
    ImmExtendKind, ImmOpInfo, InsnInfo, OpInfo, OpSize, OpSizeInfo, RegularInsnInfo, SpecificImm,
    SpecificImmOpInfo, SpecificReg, ZextSpecificRegOpInfo,
};

fn regular(entry: &InsnInfo) -> &RegularInsnInfo {
    match entry {
        InsnInfo::Regular(info) => info,
        InsnInfo::ModrmRegOpcodeExt(_) => panic!("expected a regular entry"),
    }
}

fn sub_table(entry: &InsnInfo) -> &[RegularInsnInfo; 8] {
    match entry {
        InsnInfo::Regular(_) => panic!("expected a sub-table"),
        InsnInfo::ModrmRegOpcodeExt(info) => &info.by_reg_value,
    }
}

fn is_unsupported(info: &RegularInsnInfo) -> bool {
    info.mnemonic == "unsupported" && info.ops.is_empty()
}

#[test]
fn simple_binary_op_appends_six_entries() {
    let mut table = Vec::new();
    simple_binary_op(&mut table, "add");
    assert_eq!(table.len(), 6);
    for entry in &table {
        assert_eq!(regular(entry).mnemonic, "add");
    }
    assert_eq!(regular(&table[0]).ops, vec![OpInfo::rm_8(), OpInfo::r_modrm_8()]);
    assert_eq!(
        regular(&table[1]).ops,
        vec![OpInfo::rm_16_32_64_def_32(), OpInfo::r_modrm_16_32_64_def_32()]
    );
    assert_eq!(regular(&table[2]).ops, vec![OpInfo::r_modrm_8(), OpInfo::rm_8()]);
    assert_eq!(
        regular(&table[3]).ops,
        vec![OpInfo::r_modrm_16_32_64_def_32(), OpInfo::rm_16_32_64_def_32()]
    );
    assert_eq!(regular(&table[4]).ops, vec![OpInfo::al(), OpInfo::imm_8_no_ext()]);
    assert_eq!(
        regular(&table[5]).ops,
        vec![
            OpInfo::ax_16_32_64_def_32(),
            OpInfo::Imm(ImmOpInfo {
                encoded_size: OpSizeInfo::sz_imm_encoding_16_32(),
                extended_size: OpSizeInfo::sz_16_32_64_def_32(),
                extend_kind: ImmExtendKind::SignExtend,
            }),
        ]
    );
}

#[test]
fn repeat_appends_copies() {
    let mut table = Vec::new();
    unsupported(&mut table, 1);
    repeat(
        &mut table,
        3,
        InsnInfo::Regular(RegularInsnInfo { mnemonic: "inc", ops: vec![OpInfo::rm_8()] }),
    );
    assert_eq!(table.len(), 4);
    assert!(is_unsupported(regular(&table[0])));
    for entry in &table[1..] {
        assert_eq!(regular(entry).mnemonic, "inc");
        assert_eq!(regular(entry).ops, vec![OpInfo::rm_8()]);
    }
    repeat(&mut table, 0, InsnInfo::Regular(RegularInsnInfo::unsupported()));
    assert_eq!(table.len(), 4);
}

#[test]
fn unsupported_appends_sentinels() {
    let mut table = Vec::new();
    unsupported(&mut table, 5);
    assert_eq!(table.len(), 5);
    for entry in &table {
        assert!(is_unsupported(regular(entry)));
    }
}

#[test]
fn push_insn_appends_one_entry() {
    let mut table = Vec::new();
    push_insn(&mut table, InsnInfo::Regular(RegularInsnInfo { mnemonic: "hlt", ops: vec![] }));
    assert_eq!(table.len(), 1);
    assert_eq!(regular(&table[0]).mnemonic, "hlt");
}

#[test]
fn first_table_has_an_entry_for_every_opcode() {
    assert_eq!(gen_first_opcode_byte_table().len(), 0x100);
}

#[test]
fn first_table_arithmetic_opcodes() {
    let table = gen_first_opcode_byte_table();
    for (row, mnemonic) in SIMPLE_BINOP_MNEMONICS.iter().enumerate() {
        for column in 0..6 {
            assert_eq!(regular(&table[row * 8 + column]).mnemonic, *mnemonic);
        }
        assert!(is_unsupported(regular(&table[row * 8 + 6])));
        assert!(is_unsupported(regular(&table[row * 8 + 7])));
    }
    assert_eq!(regular(&table[0x00]).ops, vec![OpInfo::rm_8(), OpInfo::r_modrm_8()]);
    assert_eq!(regular(&table[0x3c]).mnemonic, "cmp");
    assert_eq!(regular(&table[0x3c]).ops, vec![OpInfo::al(), OpInfo::imm_8_no_ext()]);
}

#[test]
fn first_table_single_entries() {
    let table = gen_first_opcode_byte_table();
    for opcode in 0x40..0x48 {
        assert_eq!(regular(&table[opcode]).mnemonic, "inc");
        assert_eq!(regular(&table[opcode]).ops, vec![OpInfo::r_opcode_16_32_64_def_32()]);
    }
    for opcode in 0x58..0x60 {
        assert_eq!(regular(&table[opcode]).mnemonic, "pop");
        assert_eq!(regular(&table[opcode]).ops, vec![OpInfo::r_opcode_16_32_64_def_64()]);
    }
    assert!(is_unsupported(regular(&table[0x60])));
    assert_eq!(regular(&table[0x63]).mnemonic, "movsxd");
    assert_eq!(
        regular(&table[0x63]).ops,
        vec![
            OpInfo::rm_16_32_64_def_32(),
            OpInfo::Rm(OpSizeInfo {
                with_operand_size_override: OpSize::S16,
                mode_32: OpSize::S32,
                mode_64: OpSize::S32,
                mode_64_with_rex_w: OpSize::S32,
            }),
        ]
    );
    assert_eq!(regular(&table[0x6b]).mnemonic, "imul");
    assert_eq!(regular(&table[0x6b]).ops.len(), 3);
    for opcode in 0x70..0x80 {
        assert_eq!(regular(&table[opcode]).mnemonic, "jcc");
        assert_eq!(
            regular(&table[opcode]).ops,
            vec![OpInfo::Cond, OpInfo::Rel(OpSizeInfo::sz_always_8())]
        );
    }
    assert_eq!(regular(&table[0x84]).mnemonic, "test");
    assert_eq!(regular(&table[0x88]).mnemonic, "mov");
    assert_eq!(regular(&table[0x84]).ops, regular(&table[0x88]).ops);
    assert_eq!(regular(&table[0x89]).mnemonic, "mov");
    assert_eq!(
        regular(&table[0x89]).ops,
        vec![OpInfo::rm_16_32_64_def_32(), OpInfo::r_modrm_16_32_64_def_32()]
    );
    assert_eq!(regular(&table[0x8d]).mnemonic, "lea");
    assert_eq!(regular(&table[0x90]).mnemonic, "nop");
    assert!(regular(&table[0x90]).ops.is_empty());
    assert_eq!(regular(&table[0x97]).mnemonic, "xchg");
    assert_eq!(regular(&table[0x98]).mnemonic, "movsz");
    assert_eq!(regular(&table[0x99]).mnemonic, "cwd");
    assert_eq!(
        regular(&table[0x99]).ops,
        vec![OpInfo::dx_16_32_64_def_32(), OpInfo::ax_16_32_64_def_32()]
    );
    assert_eq!(regular(&table[0xa7]).mnemonic, "cmps");
    assert_eq!(
        regular(&table[0xa7]).ops,
        vec![OpInfo::Implicit(OpSizeInfo::sz_16_32_64_def_32())]
    );
    assert_eq!(regular(&table[0xb0]).ops, vec![OpInfo::r_opcode_8(), OpInfo::imm_8_no_ext()]);
    assert_eq!(regular(&table[0xc3]).mnemonic, "ret");
    assert_eq!(regular(&table[0xe8]).mnemonic, "call");
    assert_eq!(regular(&table[0xe8]).ops, vec![OpInfo::rel_32()]);
    assert_eq!(regular(&table[0xeb]).mnemonic, "jmp");
    assert_eq!(regular(&table[0xf4]).mnemonic, "hlt");
    assert_eq!(regular(&table[0xfd]).mnemonic, "std");
}

#[test]
fn first_table_sub_tables() {
    let table = gen_first_opcode_byte_table();
    for reg in 0..8 {
        assert_eq!(sub_table(&table[0x80])[reg].mnemonic, SIMPLE_BINOP_MNEMONICS[reg]);
        assert_eq!(
            sub_table(&table[0x80])[reg].ops,
            vec![OpInfo::rm_8(), OpInfo::imm_8_no_ext()]
        );
        assert_eq!(sub_table(&table[0xc0])[reg].mnemonic, SHIFT_BINOP_MNEMONICS[reg]);
        assert_eq!(
            sub_table(&table[0xd0])[reg].ops,
            vec![
                OpInfo::rm_8(),
                OpInfo::SpecificImm(SpecificImmOpInfo {
                    value: SpecificImm::One,
                    operand_size: OpSizeInfo::sz_always_8(),
                }),
            ]
        );
        assert_eq!(
            sub_table(&table[0xd3])[reg].ops,
            vec![
                OpInfo::rm_16_32_64_def_32(),
                OpInfo::ZextSpecificReg(ZextSpecificRegOpInfo {
                    reg: SpecificReg::Rcx,
                    size: OpSizeInfo::sz_always_8(),
                    extended_size: OpSizeInfo::sz_16_32_64_def_32(),
                }),
            ]
        );
    }
    assert_eq!(SHIFT_BINOP_MNEMONICS[6], "unsupported");
    assert_eq!(sub_table(&table[0x8f])[0].mnemonic, "pop");
    assert_eq!(sub_table(&table[0x8f])[0].ops, vec![OpInfo::rm_16_32_64_def_64()]);
    for reg in 1..8 {
        assert!(is_unsupported(&sub_table(&table[0x8f])[reg]));
    }
    let group = sub_table(&table[0xf6]);
    let names: Vec<&str> = group.iter().map(|info| info.mnemonic).collect();
    assert_eq!(names, vec!["test", "unsupported", "not", "neg", "mul", "imul", "div", "idiv"]);
    let last = sub_table(&table[0xff]);
    let names: Vec<&str> = last.iter().map(|info| info.mnemonic).collect();
    assert_eq!(
        names,
        vec!["inc", "dec", "call", "unsupported", "jmp", "unsupported", "jmp", "unsupported"]
    );
    assert_eq!(last[6].ops, vec![OpInfo::rm_16_32_64_def_64()]);
}

#[test]
fn second_table_has_an_entry_for_every_opcode() {
    assert_eq!(gen_second_opcode_byte_table().len(), 0x100);
}

#[test]
fn second_table_entries() {
    let table = gen_second_opcode_byte_table();
    for opcode in 0x00..0x1e {
        assert!(is_unsupported(regular(&table[opcode])));
    }
    let endbr = sub_table(&table[0x1e]);
    for reg in 0..7 {
        assert!(is_unsupported(&endbr[reg]));
    }
    assert_eq!(endbr[7].mnemonic, "endbr");
    assert!(endbr[7].ops.is_empty());
    assert_eq!(regular(&table[0x1f]).mnemonic, "nop");
    assert_eq!(regular(&table[0x1f]).ops.len(), 1);
    for opcode in 0x40..0x50 {
        assert_eq!(regular(&table[opcode]).mnemonic, "cmovcc");
        assert_eq!(
            regular(&table[opcode]).ops,
            vec![OpInfo::Cond, OpInfo::r_modrm_16_32_64_def_32(), OpInfo::rm_16_32_64_def_32()]
        );
    }
    for opcode in 0x80..0x90 {
        assert_eq!(regular(&table[opcode]).mnemonic, "jcc");
        assert_eq!(regular(&table[opcode]).ops, vec![OpInfo::Cond, OpInfo::rel_32()]);
    }
    for opcode in 0x90..0xa0 {
        assert_eq!(regular(&table[opcode]).mnemonic, "setcc");
    }
    assert_eq!(regular(&table[0xa3]).mnemonic, "bt");
    assert_eq!(regular(&table[0xa4]).mnemonic, "shld");
    assert_eq!(regular(&table[0xad]).mnemonic, "shrd");
    assert_eq!(regular(&table[0xaf]).mnemonic, "imul");
    assert_eq!(regular(&table[0xb6]).mnemonic, "movzx");
    assert_eq!(
        regular(&table[0xb7]).ops,
        vec![OpInfo::r_modrm_16_32_64_def_32(), OpInfo::Rm(OpSizeInfo::sz_always_16())]
    );
    assert_eq!(regular(&table[0xbe]).mnemonic, "movsx");
    for opcode in 0xc0..0x100 {
        assert!(is_unsupported(regular(&table[opcode])));
    }
}

#[test]
fn opcode_table_takes_256_entries() {
    let table = OpcodeTable::new(gen_first_opcode_byte_table()).unwrap();
    assert_eq!(table.entries().len(), 256);
    assert_eq!(regular(table.entry(0x89)).mnemonic, "mov");
    assert_eq!(regular(table.entry(0xf4)).mnemonic, "hlt");
}

#[test]
fn opcode_table_refuses_other_lengths() {
    let mut entries = Vec::new();
    unsupported(&mut entries, 255);
    match OpcodeTable::new(entries) {
        Ok(_) => panic!("255 entries are no opcode table"),
        Err(error) => {
            assert_eq!(error, TableLengthError { len: 255 });
            assert_eq!(error.message(), "an opcode table has 256 entries, not 255");
        }
    }
    let mut entries = Vec::new();
    unsupported(&mut entries, 257);
    assert_eq!(OpcodeTable::new(entries).err(), Some(TableLengthError { len: 257 }));
    assert_eq!(OpcodeTable::new(Vec::new()).err(), Some(TableLengthError { len: 0 }));
}
