use opcode_tables::names::{
    imm_ext_kind_to_c_variant_name, mnemonic_to_c_variant_name, mnemonics_to_c_variant_names,
    op_kind_to_c_variant_name, op_size_to_c_variant_name, op_sizes_to_c_variant_names,
    prefixed_name, reg_encoding_to_c_variant_name, specific_imm_to_c_variant_name,
    specific_reg_to_c_variant_name, variant_to_c_name, variants_to_c_variant_names,
};
use opcode_tables::table_types::{OpInfo, OpSize, MNEMONIC_UNSUPPORTED};

#[test]
fn mnemonic_names_are_upper_case() {
    assert_eq!(mnemonic_to_c_variant_name("mov"), "MNEMONIC_MOV");
    assert_eq!(mnemonic_to_c_variant_name(MNEMONIC_UNSUPPORTED), "MNEMONIC_UNSUPPORTED");
    assert_eq!(
        mnemonic_to_c_variant_name("modrm_reg_opcode_ext"),
        "MNEMONIC_MODRM_REG_OPCODE_EXT"
    );
}

#[test]
fn op_kind_names_are_upper_snake_case() {
    assert_eq!(op_kind_to_c_variant_name("Imm"), "OP_KIND_IMM");
    assert_eq!(op_kind_to_c_variant_name("SpecificImm"), "OP_KIND_SPECIFIC_IMM");
    assert_eq!(op_kind_to_c_variant_name("ZextSpecificReg"), "OP_KIND_ZEXT_SPECIFIC_REG");
    assert_eq!(op_kind_to_c_variant_name("MemOffset"), "OP_KIND_MEM_OFFSET");
}

#[test]
fn names_of_operand_properties() {
    assert_eq!(imm_ext_kind_to_c_variant_name("SignExtend"), "IMM_EXT_SIGN_EXTEND");
    assert_eq!(imm_ext_kind_to_c_variant_name("ZeroExtend"), "IMM_EXT_ZERO_EXTEND");
    assert_eq!(reg_encoding_to_c_variant_name("Modrm"), "REG_ENC_MODRM");
    assert_eq!(reg_encoding_to_c_variant_name("Opcode"), "REG_ENC_OPCODE");
    assert_eq!(specific_reg_to_c_variant_name("Rax"), "SPECIFIC_REG_RAX");
    assert_eq!(specific_imm_to_c_variant_name("Zero"), "SPECIFIC_IMM_ZERO");
    assert_eq!(specific_imm_to_c_variant_name("One"), "SPECIFIC_IMM_ONE");
}

#[test]
fn op_size_names_hold_the_width() {
    assert_eq!(op_size_to_c_variant_name(OpSize::S8), "OP_SIZE_8");
    assert_eq!(op_size_to_c_variant_name(OpSize::S16), "OP_SIZE_16");
    assert_eq!(op_size_to_c_variant_name(OpSize::S32), "OP_SIZE_32");
    assert_eq!(op_size_to_c_variant_name(OpSize::S64), "OP_SIZE_64");
    assert_eq!(
        op_sizes_to_c_variant_names(),
        vec!["OP_SIZE_8", "OP_SIZE_16", "OP_SIZE_32", "OP_SIZE_64"]
    );
}

#[test]
fn prefixed_name_joins_prefix_and_stem() {
    assert_eq!(prefixed_name("OP_KIND_", "RM"), "OP_KIND_RM");
    assert_eq!(prefixed_name("", "x"), "x");
    assert_eq!(prefixed_name("x", ""), "x");
}

#[test]
fn variant_name_with_any_prefix() {
    assert_eq!(variant_to_c_name("K_", "ToSnakeCase"), "K_TO_SNAKE_CASE");
    assert_eq!(variant_to_c_name("K_", "already_snake"), "K_ALREADY_SNAKE");
}

#[test]
fn names_of_lists_keep_the_order() {
    assert_eq!(
        mnemonics_to_c_variant_names(&vec!["add", "or", "unsupported"]),
        vec!["MNEMONIC_ADD", "MNEMONIC_OR", "MNEMONIC_UNSUPPORTED"]
    );
    assert_eq!(
        variants_to_c_variant_names("OP_KIND_", &OpInfo::variant_names()),
        vec![
            "OP_KIND_IMM",
            "OP_KIND_SPECIFIC_IMM",
            "OP_KIND_REG",
            "OP_KIND_RM",
            "OP_KIND_SPECIFIC_REG",
            "OP_KIND_ZEXT_SPECIFIC_REG",
            "OP_KIND_REL",
            "OP_KIND_MEM_OFFSET",
            "OP_KIND_IMPLICIT",
            "OP_KIND_COND",
        ]
    );
}
