use opcode_tables::c_emitter::CEmitter;
use opcode_tables::code_gen::{
    emit_insn_info_union, emit_insn_table, emit_laid_out_ops_infos_table, emit_op_info_entry,
    emit_op_info_union, emit_op_infos_table, emit_op_size_info_struct, emit_op_size_infos_table,
    copy_records_of_table, emit_tables, emit_types, generate_code, generate_code_for,
    generate_code_for_tables, index_values_amount, join_tables, FIRST_OPCODE_BYTE_TABLE_NAME,
};
use opcode_tables::first_opcode_byte_table::gen_first_opcode_byte_table;
use opcode_tables::opcode_table::OpcodeTable;
use opcode_tables::second_opcode_byte_table::gen_second_opcode_byte_table;
use opcode_tables::table_compiler::{compile_table, InsnRecord, OpInfoRecord};
use opcode_tables::table_gen_utils::unsupported;
use opcode_tables::table_types::{
    ImmExtendKind, InsnInfo, ModrmRegOpcodeExtInsnInfo, OpInfo, OpSizeInfo, RegEncoding,
    RegularInsnInfo, SpecificImm, SpecificImmOpInfo, SpecificReg,
};

const ENUMS_OF_OPERANDS: &str = "typedef enum {OP_KIND_IMM,OP_KIND_SPECIFIC_IMM,OP_KIND_REG,OP_KIND_RM,OP_KIND_SPECIFIC_REG,OP_KIND_ZEXT_SPECIFIC_REG,OP_KIND_REL,OP_KIND_MEM_OFFSET,OP_KIND_IMPLICIT,OP_KIND_COND,}op_kind_t;\n\
typedef enum {IMM_EXT_SIGN_EXTEND,IMM_EXT_ZERO_EXTEND,}imm_ext_kind_t;\n\
typedef enum {REG_ENC_MODRM,REG_ENC_OPCODE,}reg_encoding_t;\n\
typedef enum {SPECIFIC_REG_RAX,SPECIFIC_REG_RDX,SPECIFIC_REG_RCX,}specific_reg_t;\n\
typedef enum {SPECIFIC_IMM_ZERO,SPECIFIC_IMM_ONE,}specific_imm_t;\n";

const OP_SIZE_DECLARATIONS: &str = "typedef enum {OP_SIZE_8,OP_SIZE_16,OP_SIZE_32,OP_SIZE_64,}op_size_t;\n\
typedef struct __attribute__((packed)) {uint8_t with_operand_size_override:2;uint8_t mode_32:2;uint8_t mode_64:2;uint8_t mode_64_with_rex_w:2;}op_size_info_t;\n";

fn op_info_union(size_bits: usize) -> String {
    let variant = |fields: String, name: &str| {
        format!("struct __attribute__((packed)) {{\nuint8_t kind: 4;\n{fields}}}{name};\n")
    };
    let index = |name: &str| format!("uint8_t {name}:{size_bits};");
    let mut text = String::from("typedef union {\nuint8_t kind: 4;\n");
    text += &variant(
        index("encoded_size_info_index")
            + &index("extended_size_info_index")
            + "uint8_t extend_kind:1;",
        "imm",
    );
    text += &variant(index("operand_size_info_index") + "uint8_t value:1;", "specific_imm");
    text += &variant(index("size_info_index") + "uint8_t encoding:1;", "reg");
    text += &variant(index("size_info_index"), "rm");
    text += &variant(index("size_info_index") + "uint8_t reg:2;", "specific_reg");
    text += &variant(
        index("size_info_index") + &index("extended_size_info_index") + "uint8_t reg:2;",
        "zext_specific_reg",
    );
    text += &variant(index("size_info_index"), "rel");
    text += &variant(index("mem_operand_size_info_index"), "mem_offset");
    text += &variant(index("size_info_index"), "implicit");
    text += &variant(String::new(), "cond");
    text += "}op_info_t;\n";
    text
}

fn regular(mnemonic: &'static str, ops: Vec<OpInfo>) -> InsnInfo {
    InsnInfo::Regular(RegularInsnInfo { mnemonic, ops })
}

fn table_of(mut entries: Vec<InsnInfo>) -> OpcodeTable {
    let missing = 256 - entries.len();
    unsupported(&mut entries, missing);
    OpcodeTable::new(entries).unwrap()
}

#[test]
fn index_fields_are_laid_out_for_one_value_at_least() {
    assert_eq!(index_values_amount(0), 1);
    assert_eq!(index_values_amount(1), 1);
    assert_eq!(index_values_amount(2), 2);
    assert_eq!(index_values_amount(300), 300);
}

#[test]
fn insn_info_union_is_sized_by_the_sets() {
    let mut emitter = CEmitter::new();
    emit_insn_info_union(&mut emitter, 5, 4, 0, 2);
    assert_eq!(
        emitter.code(),
        "typedef union __attribute__((packed)) {\nuint8_t mnemonic:3;\
struct __attribute__((packed)) {\nuint8_t mnemonic:3;uint8_t first_op_index:2;uint8_t ops_amount:2;}regular;\n\
struct __attribute__((packed)) {\nuint8_t mnemonic:3;uint8_t modrm_reg_table_index:0;}modrm_reg_opcode_ext;\n\
}insn_info_t;\n"
    );
}

#[test]
fn first_op_index_is_wide_enough_for_sub_tables_too() {
    let mut emitter = CEmitter::new();
    emit_insn_info_union(&mut emitter, 2, 3, 300, 0);
    assert_eq!(
        emitter.code(),
        "typedef union __attribute__((packed)) {\nuint8_t mnemonic:1;\
struct __attribute__((packed)) {\nuint8_t mnemonic:1;uint16_t first_op_index:9;uint8_t ops_amount:0;}regular;\n\
struct __attribute__((packed)) {\nuint8_t mnemonic:1;uint16_t modrm_reg_table_index:9;}modrm_reg_opcode_ext;\n\
}insn_info_t;\n"
    );
}

#[test]
fn op_size_info_struct_has_four_fields() {
    let mut emitter = CEmitter::new();
    emit_op_size_info_struct(&mut emitter);
    assert_eq!(
        emitter.code(),
        "typedef struct __attribute__((packed)) {uint8_t with_operand_size_override:2;uint8_t mode_32:2;uint8_t mode_64:2;uint8_t mode_64_with_rex_w:2;}op_size_info_t;\n"
    );
}

#[test]
fn op_info_union_has_a_variant_for_each_kind() {
    let mut emitter = CEmitter::new();
    emit_op_info_union(&mut emitter, 6);
    assert_eq!(emitter.code(), op_info_union(3));

    let mut emitter = CEmitter::new();
    emit_op_info_union(&mut emitter, 0);
    assert_eq!(emitter.code(), op_info_union(0));
}

#[test]
fn op_size_infos_table_names_the_sizes() {
    let mut emitter = CEmitter::new();
    emit_op_size_infos_table(
        &mut emitter,
        &vec![OpSizeInfo::sz_always_8(), OpSizeInfo::sz_16_32_64_def_64()],
    );
    assert_eq!(
        emitter.code(),
        "const op_size_info_t op_size_infos_table[] = {\
{.with_operand_size_override=OP_SIZE_8,.mode_32=OP_SIZE_8,.mode_64=OP_SIZE_8,.mode_64_with_rex_w=OP_SIZE_8,},\n\
{.with_operand_size_override=OP_SIZE_16,.mode_32=OP_SIZE_32,.mode_64=OP_SIZE_64,.mode_64_with_rex_w=OP_SIZE_64,},\n\
};\n"
    );
}

#[test]
fn op_info_entries_of_every_kind() {
    let records = vec![
        OpInfoRecord::Imm {
            encoded_size_info_index: 0,
            extended_size_info_index: 12,
            extend_kind: ImmExtendKind::ZeroExtend,
        },
        OpInfoRecord::SpecificImm { operand_size_info_index: 1, value: SpecificImm::One },
        OpInfoRecord::Reg { size_info_index: 2, encoding: RegEncoding::Opcode },
        OpInfoRecord::Rm { size_info_index: 3 },
        OpInfoRecord::SpecificReg { size_info_index: 4, reg: SpecificReg::Rdx },
        OpInfoRecord::ZextSpecificReg {
            size_info_index: 5,
            extended_size_info_index: 6,
            reg: SpecificReg::Rcx,
        },
        OpInfoRecord::Rel { size_info_index: 7 },
        OpInfoRecord::MemOffset { mem_operand_size_info_index: 8 },
        OpInfoRecord::Implicit { size_info_index: 9 },
        OpInfoRecord::Cond,
    ];
    let mut emitter = CEmitter::new();
    emit_op_infos_table(&mut emitter, &records);
    assert_eq!(
        emitter.code(),
        "const op_info_t op_infos_table[] = {\
{.imm={.kind=OP_KIND_IMM,.encoded_size_info_index=0,.extended_size_info_index=12,.extend_kind=IMM_EXT_ZERO_EXTEND,},\n},\n\
{.specific_imm={.kind=OP_KIND_SPECIFIC_IMM,.operand_size_info_index=1,.value=SPECIFIC_IMM_ONE,},\n},\n\
{.reg={.kind=OP_KIND_REG,.size_info_index=2,.encoding=REG_ENC_OPCODE,},\n},\n\
{.rm={.kind=OP_KIND_RM,.size_info_index=3,},\n},\n\
{.specific_reg={.kind=OP_KIND_SPECIFIC_REG,.size_info_index=4,.reg=SPECIFIC_REG_RDX,},\n},\n\
{.zext_specific_reg={.kind=OP_KIND_ZEXT_SPECIFIC_REG,.size_info_index=5,.extended_size_info_index=6,.reg=SPECIFIC_REG_RCX,},\n},\n\
{.rel={.kind=OP_KIND_REL,.size_info_index=7,},\n},\n\
{.mem_offset={.kind=OP_KIND_MEM_OFFSET,.mem_operand_size_info_index=8,},\n},\n\
{.implicit={.kind=OP_KIND_IMPLICIT,.size_info_index=9,},\n},\n\
{.cond={.kind=OP_KIND_COND,},\n},\n\
};\n"
    );
}

#[test]
fn op_info_entry_alone() {
    let mut emitter = CEmitter::new();
    let mut table = emitter.begin_table("op_info_t", "one");
    emit_op_info_entry(&mut table, &OpInfoRecord::Rm { size_info_index: 1 });
    table.emit();
    assert_eq!(
        emitter.code(),
        "const op_info_t one[] = {{.rm={.kind=OP_KIND_RM,.size_info_index=1,},\n},\n};\n"
    );
}

#[test]
fn laid_out_table_takes_the_type_of_an_operand_index() {
    let mut emitter = CEmitter::new();
    emit_laid_out_ops_infos_table(&mut emitter, 3, &vec![0, 1, 0, 2]);
    assert_eq!(
        emitter.code(),
        "const uint8_t laid_out_ops_infos_table[] = {0,\n1,\n0,\n2,\n};\n"
    );
    let mut emitter = CEmitter::new();
    emit_laid_out_ops_infos_table(&mut emitter, 257, &vec![256]);
    assert_eq!(emitter.code(), "const uint16_t laid_out_ops_infos_table[] = {256,\n};\n");
}

#[test]
fn insn_table_names_mnemonics_and_gives_indices() {
    let mut emitter = CEmitter::new();
    emit_insn_table(
        &mut emitter,
        "some_table",
        &vec![
            InsnRecord::Regular { mnemonic_index: 1, first_op_index: 4, ops_amount: 2 },
            InsnRecord::ModrmRegOpcodeExt { mnemonic_index: 2, modrm_reg_table_index: 7 },
        ],
        &vec!["mov", "test", "modrm_reg_opcode_ext"],
    );
    assert_eq!(
        emitter.code(),
        "const insn_info_t some_table[] = {\
{.regular={.mnemonic=MNEMONIC_TEST,.first_op_index=4,.ops_amount=2,},\n},\n\
{.modrm_reg_opcode_ext={.mnemonic=MNEMONIC_MODRM_REG_OPCODE_EXT,.modrm_reg_table_index=7,},\n},\n\
};\n"
    );
}

#[test]
fn code_of_a_table_without_instructions() {
    let code = generate_code_for(&table_of(Vec::new()), "t");
    let types = String::from("#pragma once\n#include <stdint.h>\n#define X86_TABLES_INSN_MAX_OPS 0\n")
        + "typedef enum {MNEMONIC_UNSUPPORTED,MNEMONIC_MODRM_REG_OPCODE_EXT,}mnemonic_t;\n"
        + "typedef union __attribute__((packed)) {\nuint8_t mnemonic:1;"
        + "struct __attribute__((packed)) {\nuint8_t mnemonic:1;uint8_t first_op_index:0;uint8_t ops_amount:0;}regular;\n"
        + "struct __attribute__((packed)) {\nuint8_t mnemonic:1;uint8_t modrm_reg_table_index:0;}modrm_reg_opcode_ext;\n"
        + "}insn_info_t;\n"
        + OP_SIZE_DECLARATIONS
        + ENUMS_OF_OPERANDS
        + &op_info_union(0);
    assert_eq!(code.types_file.code(), types);
    let tables = String::from("const op_size_info_t op_size_infos_table[] = {};\n")
        + "const op_info_t op_infos_table[] = {};\n"
        + "const uint8_t laid_out_ops_infos_table[] = {};\n"
        + "const insn_info_t t[] = {"
        + &"{.regular={.mnemonic=MNEMONIC_UNSUPPORTED,.first_op_index=0,.ops_amount=0,},\n},\n"
            .repeat(256)
        + "};\n";
    assert_eq!(code.tables_file.code(), tables);
}

#[test]
fn shared_operand_list_is_emitted_once() {
    let table = table_of(vec![
        regular("mov", vec![OpInfo::rm_8(), OpInfo::r_modrm_8()]),
        regular("test", vec![OpInfo::rm_8(), OpInfo::r_modrm_8()]),
    ]);
    let code = generate_code_for(&table, "t");
    let tables = String::from("const op_size_info_t op_size_infos_table[] = {")
        + "{.with_operand_size_override=OP_SIZE_8,.mode_32=OP_SIZE_8,.mode_64=OP_SIZE_8,.mode_64_with_rex_w=OP_SIZE_8,},\n"
        + "};\n"
        + "const op_info_t op_infos_table[] = {"
        + "{.rm={.kind=OP_KIND_RM,.size_info_index=0,},\n},\n"
        + "{.reg={.kind=OP_KIND_REG,.size_info_index=0,.encoding=REG_ENC_MODRM,},\n},\n"
        + "};\n"
        + "const uint8_t laid_out_ops_infos_table[] = {0,\n1,\n};\n"
        + "const insn_info_t t[] = {"
        + "{.regular={.mnemonic=MNEMONIC_MOV,.first_op_index=0,.ops_amount=2,},\n},\n"
        + "{.regular={.mnemonic=MNEMONIC_TEST,.first_op_index=0,.ops_amount=2,},\n},\n"
        + &"{.regular={.mnemonic=MNEMONIC_UNSUPPORTED,.first_op_index=2,.ops_amount=0,},\n},\n"
            .repeat(254)
        + "};\n";
    assert_eq!(code.tables_file.code(), tables);
    assert!(code.types_file.code().contains(
        "typedef enum {MNEMONIC_MOV,MNEMONIC_TEST,MNEMONIC_UNSUPPORTED,MNEMONIC_MODRM_REG_OPCODE_EXT,}mnemonic_t;\n"
    ));
    assert!(code.types_file.code().contains("#define X86_TABLES_INSN_MAX_OPS 2\n"));
    assert!(code.types_file.code().contains(
        "uint8_t mnemonic:2;uint8_t first_op_index:1;uint8_t ops_amount:2;}regular;\n"
    ));
}

#[test]
fn unsupported_opcode_is_a_regular_record_without_operands() {
    let table = table_of(vec![regular("hlt", vec![]), regular("inc", vec![OpInfo::rm_8()])]);
    let code = generate_code_for(&table, "t");
    let entry = "{.regular={.mnemonic=MNEMONIC_UNSUPPORTED,.first_op_index=0,.ops_amount=0,},\n},\n";
    assert_eq!(code.tables_file.code().matches(entry).count(), 254);
}

#[test]
fn specific_immediate_is_named_and_its_size_is_an_index() {
    let one = OpInfo::SpecificImm(SpecificImmOpInfo {
        value: SpecificImm::One,
        operand_size: OpSizeInfo::sz_always_8(),
    });
    let table = table_of(vec![
        regular("mov", vec![OpInfo::rm_16_32_64_def_32(), OpInfo::rm_8()]),
        regular("shl", vec![OpInfo::rm_8(), one]),
    ]);
    let code = generate_code_for(&table, "t");
    assert!(code.tables_file.code().contains(
        "{.specific_imm={.kind=OP_KIND_SPECIFIC_IMM,.operand_size_info_index=1,.value=SPECIFIC_IMM_ONE,},\n},\n"
    ));
    assert!(code.tables_file.code().contains(
        "const op_size_info_t op_size_infos_table[] = {\
{.with_operand_size_override=OP_SIZE_16,.mode_32=OP_SIZE_32,.mode_64=OP_SIZE_32,.mode_64_with_rex_w=OP_SIZE_64,},\n\
{.with_operand_size_override=OP_SIZE_8,.mode_32=OP_SIZE_8,.mode_64=OP_SIZE_8,.mode_64_with_rex_w=OP_SIZE_8,},\n\
};\n"
    ));
    // the enumerator's ordinal is its place in the declaration
    assert!(code
        .types_file
        .code()
        .contains("typedef enum {SPECIFIC_IMM_ZERO,SPECIFIC_IMM_ONE,}specific_imm_t;\n"));
}

#[test]
fn sub_table_record_gives_the_index_of_its_sub_table() {
    let shifts = |ops: Vec<OpInfo>| {
        InsnInfo::ModrmRegOpcodeExt(ModrmRegOpcodeExtInsnInfo::new_with_same_operands(
            ops,
            ["rol", "ror", "rcl", "rcr", "shl", "shr", "unsupported", "sar"],
        ))
    };
    let table = table_of(vec![
        shifts(vec![OpInfo::rm_8()]),
        shifts(vec![OpInfo::rm_8(), OpInfo::cl()]),
        shifts(vec![OpInfo::rm_8()]),
    ]);
    let code = generate_code_for(&table, "t");
    let first = "{.modrm_reg_opcode_ext={.mnemonic=MNEMONIC_MODRM_REG_OPCODE_EXT,.modrm_reg_table_index=0,},\n},\n";
    let second = "{.modrm_reg_opcode_ext={.mnemonic=MNEMONIC_MODRM_REG_OPCODE_EXT,.modrm_reg_table_index=1,},\n},\n";
    assert!(code
        .tables_file
        .code()
        .contains(&format!("const insn_info_t t[] = {{{first}{second}{first}")));
    assert!(code.types_file.code().contains("uint8_t modrm_reg_table_index:1;"));
}

#[test]
fn generated_code_is_the_same_on_every_run() {
    let first = generate_code();
    let second = generate_code();
    assert_eq!(first.types_file.code(), second.types_file.code());
    assert_eq!(first.tables_file.code(), second.tables_file.code());

    let table = OpcodeTable::new(gen_second_opcode_byte_table()).unwrap();
    let again = OpcodeTable::new(gen_second_opcode_byte_table()).unwrap();
    let first = generate_code_for(&table, "second_opcode_byte_table");
    let second = generate_code_for(&again, "second_opcode_byte_table");
    assert_eq!(first.types_file.code(), second.types_file.code());
    assert_eq!(first.tables_file.code(), second.tables_file.code());
}

#[test]
fn generated_code_of_the_first_table() {
    let code = generate_code();
    let table = OpcodeTable::new(gen_first_opcode_byte_table()).unwrap();
    let same = generate_code_for(&table, FIRST_OPCODE_BYTE_TABLE_NAME);
    assert_eq!(code.types_file.code(), same.types_file.code());
    assert_eq!(code.tables_file.code(), same.tables_file.code());

    let types = code.types_file.code();
    assert!(types.starts_with(
        "#pragma once\n#include <stdint.h>\n#define X86_TABLES_INSN_MAX_OPS 3\ntypedef enum {MNEMONIC_ADD,MNEMONIC_UNSUPPORTED,MNEMONIC_OR,"
    ));
    assert!(types.contains("MNEMONIC_STD,MNEMONIC_MODRM_REG_OPCODE_EXT,}mnemonic_t;\n"));
    assert!(types.contains(ENUMS_OF_OPERANDS));
    assert!(types.contains(OP_SIZE_DECLARATIONS));
    assert!(types.ends_with("}op_info_t;\n"));

    let tables = code.tables_file.code();
    assert!(tables.starts_with(
        "const op_size_info_t op_size_infos_table[] = {{.with_operand_size_override=OP_SIZE_8,"
    ));
    let opcode_table = "const insn_info_t first_opcode_byte_table[] = {";
    let start = tables.find(opcode_table).unwrap() + opcode_table.len();
    let entries = &tables[start..];
    assert_eq!(entries.matches("},\n},\n").count(), 256);
    assert_eq!(entries.matches(".modrm_reg_opcode_ext={").count(), 16);
    assert!(entries.starts_with("{.regular={.mnemonic=MNEMONIC_ADD,.first_op_index=0,.ops_amount=2,},\n},\n"));
    assert!(entries.ends_with("};\n"));
}

#[test]
fn types_and_tables_are_written_from_compiled_tables() {
    let entries = gen_first_opcode_byte_table();
    let compiled = compile_table(&entries);
    let mut types_file = CEmitter::new();
    let mut tables_file = CEmitter::new();
    emit_types(&mut types_file, &compiled);
    emit_tables(&mut tables_file, &compiled, FIRST_OPCODE_BYTE_TABLE_NAME);
    let code = generate_code();
    assert_eq!(types_file.code(), code.types_file.code());
    assert_eq!(tables_file.code(), code.tables_file.code());
}

#[test]
fn one_table_compiled_with_the_others_alone_is_the_table_compiled_alone() {
    let table = OpcodeTable::new(gen_second_opcode_byte_table()).unwrap();
    let alone = generate_code_for(&table, "second_opcode_byte_table");
    let joined = generate_code_for_tables(&vec![table], &vec!["second_opcode_byte_table"]);
    assert_eq!(alone.types_file.code(), joined.types_file.code());
    assert_eq!(alone.tables_file.code(), joined.tables_file.code());
}

#[test]
fn tables_compiled_together_share_their_sets() {
    let first = OpcodeTable::new(gen_first_opcode_byte_table()).unwrap();
    let second = OpcodeTable::new(gen_second_opcode_byte_table()).unwrap();
    let code = generate_code_for_tables(
        &vec![first, second],
        &vec!["first_opcode_byte_table", "second_opcode_byte_table"],
    );
    let mut entries = gen_first_opcode_byte_table();
    entries.extend(gen_second_opcode_byte_table());
    let compiled = compile_table(&entries);
    assert_eq!(compiled.insns.len(), 512);
    let mut types_file = CEmitter::new();
    emit_types(&mut types_file, &compiled);
    assert_eq!(code.types_file.code(), types_file.code());

    let alone = generate_code();
    let tables = code.tables_file.code();
    let first_table = "const insn_info_t first_opcode_byte_table[] = {";
    let second_table = "const insn_info_t second_opcode_byte_table[] = {";
    assert_eq!(tables.matches("const op_info_t op_infos_table[] = {").count(), 1);
    assert_eq!(tables.matches(first_table).count(), 1);
    assert_eq!(tables.matches(second_table).count(), 1);
    let first_start = tables.find(first_table).unwrap();
    let second_start = tables.find(second_table).unwrap();
    assert!(first_start < second_start);
    assert_eq!(tables[first_start..second_start].matches("},\n},\n").count(), 256);
    assert_eq!(tables[second_start..].matches("},\n},\n").count(), 256);
    // the first table comes first in the sets, so its records are those of the table alone
    let alone_tables = alone.tables_file.code();
    let alone_start = alone_tables.find(first_table).unwrap();
    assert_eq!(&tables[first_start..second_start], &alone_tables[alone_start..]);
    assert!(tables[second_start..].contains(".mnemonic=MNEMONIC_CMOVCC,"));
    assert!(code.types_file.code().contains("MNEMONIC_CMOVCC,"));
}

#[test]
fn no_tables_compiled_together() {
    let code = generate_code_for_tables(&Vec::new(), &Vec::new());
    assert_eq!(
        code.tables_file.code(),
        "const op_size_info_t op_size_infos_table[] = {};\nconst op_info_t op_infos_table[] = {};\nconst uint8_t laid_out_ops_infos_table[] = {};\n"
    );
    assert!(code
        .types_file
        .code()
        .contains("typedef enum {MNEMONIC_MODRM_REG_OPCODE_EXT,}mnemonic_t;\n"));
}

#[test]
fn joined_tables_follow_each_other() {
    let first = OpcodeTable::new(gen_first_opcode_byte_table()).unwrap();
    let second = OpcodeTable::new(gen_second_opcode_byte_table()).unwrap();
    let entries = join_tables(&vec![first, second]);
    assert_eq!(entries.len(), 512);
    let expected_first = gen_first_opcode_byte_table();
    let expected_second = gen_second_opcode_byte_table();
    for opcode in 0..256 {
        assert!(same_entry(&entries[opcode], &expected_first[opcode]));
        assert!(same_entry(&entries[256 + opcode], &expected_second[opcode]));
    }
    let compiled = compile_table(&entries);
    assert_eq!(copy_records_of_table(&compiled.insns, 0), compiled.insns[..256].to_vec());
    assert_eq!(copy_records_of_table(&compiled.insns, 1), compiled.insns[256..].to_vec());
}

fn same_entry(first: &InsnInfo, second: &InsnInfo) -> bool {
    match (first, second) {
        (InsnInfo::Regular(a), InsnInfo::Regular(b)) => a == b,
        (InsnInfo::ModrmRegOpcodeExt(a), InsnInfo::ModrmRegOpcodeExt(b)) => a == b,
        _ => false,
    }
}
