//! The identifiers under which mnemonics, operand kinds and the other enumerated values appear
//! in the emitted C code.

use crate::decimal::{decimal, decimal_string};
use crate::table_types::{Mnemonic, OpSize};
use crate::unique_set::models;
use to_snake_case::ToSnakeCase;
use vstd::prelude::*;

verus! {

/// What `to_snake_case` makes of a text.
pub uninterp spec fn snake_case_of(text: Seq<char>) -> Seq<char>;

/// What `str::to_uppercase` makes of a text.
pub uninterp spec fn upper_case_of(text: Seq<char>) -> Seq<char>;

/// The enumerator of a mnemonic: the mnemonic in upper case behind `MNEMONIC_`.
pub open spec fn mnemonic_c_name(mnemonic: Seq<char>) -> Seq<char> {
    "MNEMONIC_"@ + upper_case_of(mnemonic)
}

/// The enumerator of a variant: the variant's name in upper-case snake case behind a prefix.
pub open spec fn variant_c_name(prefix: Seq<char>, variant_name: Seq<char>) -> Seq<char> {
    prefix + upper_case_of(snake_case_of(variant_name))
}

/// The enumerator of an operand size: its width in bits behind `OP_SIZE_`.
pub open spec fn op_size_c_name(op_size: OpSize) -> Seq<char> {
    "OP_SIZE_"@ + decimal(op_size.spec_bits())
}

/// The enumerators of a list of mnemonics.
pub open spec fn mnemonic_c_names(mnemonics: Seq<Seq<char>>) -> Seq<Seq<char>> {
    Seq::new(mnemonics.len(), |i: int| mnemonic_c_name(mnemonics[i]))
}

/// The enumerators of a list of variants.
pub open spec fn variant_c_names(prefix: Seq<char>, variant_names: Seq<Seq<char>>) -> Seq<
    Seq<char>,
> {
    Seq::new(variant_names.len(), |i: int| variant_c_name(prefix, variant_names[i]))
}

/// The enumerators of the four operand sizes, narrowest first.
pub open spec fn op_size_c_names() -> Seq<Seq<char>> {
    seq![
        op_size_c_name(OpSize::S8),
        op_size_c_name(OpSize::S16),
        op_size_c_name(OpSize::S32),
        op_size_c_name(OpSize::S64),
    ]
}

/// Calls `ToSnakeCase::to_snake_case` of the crate `to_snake_case`, which rewrites a camel-case
/// or Pascal-case text in snake case. The result depends on the text alone; the contract gives
/// it its name and claims nothing else of it.
#[verifier::external_body]
fn snake_case(text: &str) -> (result: String)
    ensures
        result@ == snake_case_of(text@),
{
    text.to_snake_case()
}

/// Calls `str::to_uppercase`, which returns the upper-case equivalent of a text. The result
/// depends on the text alone; the contract gives it its name and claims nothing else of it.
#[verifier::external_body]
fn upper_case(text: &str) -> (result: String)
    ensures
        result@ == upper_case_of(text@),
{
    text.to_uppercase()
}

/// An identifier made of a prefix and a stem.
pub fn prefixed_name(prefix: &str, stem: &str) -> (name: String)
    ensures
        name@ == prefix@ + stem@,
{
    let mut name = String::from_str(prefix);
    name.append(stem);
    name
}

/// The enumerator of a variant, from the variant's name.
pub fn variant_to_c_name(prefix: &str, variant_name: &str) -> (name: String)
    ensures
        name@ == variant_c_name(prefix@, variant_name@),
{
    let snake = snake_case(variant_name);
    let upper = upper_case(snake.as_str());
    prefixed_name(prefix, upper.as_str())
}

/// The enumerator of a mnemonic.
pub fn mnemonic_to_c_variant_name(mnemonic: Mnemonic) -> (name: String)
    ensures
        name@ == mnemonic_c_name(mnemonic@),
{
    let upper = upper_case(mnemonic);
    prefixed_name("MNEMONIC_", upper.as_str())
}

/// The enumerator of an operand kind, from the name of the kind's variant.
pub fn op_kind_to_c_variant_name(op_kind_variant_name: &str) -> (name: String)
    ensures
        name@ == variant_c_name("OP_KIND_"@, op_kind_variant_name@),
{
    variant_to_c_name("OP_KIND_", op_kind_variant_name)
}

/// The enumerator of a way to extend an immediate, from the name of its variant.
pub fn imm_ext_kind_to_c_variant_name(imm_ext_kind_variant_name: &str) -> (name: String)
    ensures
        name@ == variant_c_name("IMM_EXT_"@, imm_ext_kind_variant_name@),
{
    variant_to_c_name("IMM_EXT_", imm_ext_kind_variant_name)
}

/// The enumerator of a register encoding, from the name of its variant.
pub fn reg_encoding_to_c_variant_name(reg_encoding_variant_name: &str) -> (name: String)
    ensures
        name@ == variant_c_name("REG_ENC_"@, reg_encoding_variant_name@),
{
    variant_to_c_name("REG_ENC_", reg_encoding_variant_name)
}

/// The enumerator of an implied register, from the name of its variant.
pub fn specific_reg_to_c_variant_name(specific_reg_variant_name: &str) -> (name: String)
    ensures
        name@ == variant_c_name("SPECIFIC_REG_"@, specific_reg_variant_name@),
{
    variant_to_c_name("SPECIFIC_REG_", specific_reg_variant_name)
}

/// The enumerator of an implied immediate, from the name of its variant.
pub fn specific_imm_to_c_variant_name(specific_imm_value_variant_name: &str) -> (name: String)
    ensures
        name@ == variant_c_name("SPECIFIC_IMM_"@, specific_imm_value_variant_name@),
{
    variant_to_c_name("SPECIFIC_IMM_", specific_imm_value_variant_name)
}

/// The enumerator of an operand size: its width in bits behind `OP_SIZE_`.
pub fn op_size_to_c_variant_name(op_size: OpSize) -> (name: String)
    ensures
        name@ == op_size_c_name(op_size),
{
    let bits = decimal_string(op_size.bits());
    prefixed_name("OP_SIZE_", bits.as_str())
}

/// The enumerators of a list of mnemonics, in their order.
pub fn mnemonics_to_c_variant_names(mnemonics: &Vec<Mnemonic>) -> (names: Vec<String>)
    ensures
        models(names@) == mnemonic_c_names(models(mnemonics@)),
{
    let mut names: Vec<String> = Vec::new();
    let mut i: usize = 0;
    while i < mnemonics.len()
        invariant
            i <= mnemonics.len(),
            names@.len() == i,
            forall|k: int| 0 <= k < i ==> names@[k]@ == mnemonic_c_name(mnemonics@[k]@),
        decreases mnemonics.len() - i,
    {
        names.push(mnemonic_to_c_variant_name(mnemonics[i]));
        i += 1;
    }
    assert(models(names@) =~= mnemonic_c_names(models(mnemonics@)));
    names
}

/// The enumerators of a list of variants, in their order.
pub fn variants_to_c_variant_names(prefix: &str, variant_names: &Vec<&'static str>) -> (names: Vec<
    String,
>)
    ensures
        models(names@) == variant_c_names(prefix@, models(variant_names@)),
{
    let mut names: Vec<String> = Vec::new();
    let mut i: usize = 0;
    while i < variant_names.len()
        invariant
            i <= variant_names.len(),
            names@.len() == i,
            forall|k: int| 0 <= k < i ==> names@[k]@ == variant_c_name(prefix@, variant_names@[k]@),
        decreases variant_names.len() - i,
    {
        names.push(variant_to_c_name(prefix, variant_names[i]));
        i += 1;
    }
    assert(models(names@) =~= variant_c_names(prefix@, models(variant_names@)));
    names
}

/// The enumerators of the four operand sizes, narrowest first.
pub fn op_sizes_to_c_variant_names() -> (names: Vec<String>)
    ensures
        models(names@) == op_size_c_names(),
{
    let names = vec![
        op_size_to_c_variant_name(OpSize::S8),
        op_size_to_c_variant_name(OpSize::S16),
        op_size_to_c_variant_name(OpSize::S32),
        op_size_to_c_variant_name(OpSize::S64),
    ];
    assert(models(names@) =~= op_size_c_names());
    names
}

} // verus!
