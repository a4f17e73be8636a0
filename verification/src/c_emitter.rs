//! A text builder for C declarations: enums, packed structs and unions, and initialised tables.
//!
//! Every operation appends to the text of a [`CEmitter`]. A declaration that has a body is
//! opened by a `begin_*` call, which hands out a builder, and closed by that builder's `emit`.

use crate::decimal::{decimal, decimal_string};
use crate::unique_set::models;
use crate::width::{
    bit_length, int_type_name, lemma_bit_length_bounds, min_bits, storage_width,
    storage_width_for_bits,
};
use vstd::prelude::*;

verus! {

/// The line that opens a union declaration.
pub open spec fn union_opening(packed: bool) -> Seq<char> {
    if packed {
        "typedef union __attribute__((packed)) {\n"@
    } else {
        "typedef union {\n"@
    }
}

/// The text that opens a struct declaration.
pub open spec fn struct_opening(packed: bool) -> Seq<char> {
    if packed {
        "typedef struct __attribute__((packed)) {"@
    } else {
        "typedef struct {"@
    }
}

/// The line that opens a struct nested in another declaration.
pub open spec fn nested_struct_opening(packed: bool) -> Seq<char> {
    if packed {
        "struct __attribute__((packed)) {\n"@
    } else {
        "struct {\n"@
    }
}

/// The text that closes a declaration and names it.
pub open spec fn closing(name: Seq<char>) -> Seq<char> {
    "}"@ + name + ";\n"@
}

/// A member of full width.
pub open spec fn field_text(field_name: Seq<char>, field_type: Seq<char>) -> Seq<char> {
    field_type + " "@ + field_name + ";"@
}

/// A member that takes `bits_amount` bits of its storage type.
pub open spec fn bit_field_text(
    field_name: Seq<char>,
    field_type: Seq<char>,
    bits_amount: nat,
) -> Seq<char> {
    field_type + " "@ + field_name + ":"@ + decimal(bits_amount) + ";"@
}

/// A member just wide enough for an index into `values_amount` values.
pub open spec fn bit_field_min_size_text(field_name: Seq<char>, values_amount: nat) -> Seq<char> {
    bit_field_text(field_name, int_type_name(storage_width(values_amount)), min_bits(values_amount))
}

/// A member just wide enough for an index into `values_amount` values, on a line of its own.
pub open spec fn bit_field_min_size_line(field_name: Seq<char>, values_amount: nat) -> Seq<char> {
    int_type_name(storage_width(values_amount)) + " "@ + field_name + ": "@ + decimal(
        min_bits(values_amount),
    ) + ";\n"@
}

/// The enumerators of an enum, each followed by a comma.
pub open spec fn enum_variants_text(variants: Seq<Seq<char>>) -> Seq<char>
    decreases variants.len(),
{
    if variants.len() == 0 {
        Seq::empty()
    } else {
        enum_variants_text(variants.drop_last()) + variants.last() + ","@
    }
}

/// An enum declaration.
pub open spec fn enum_text(enum_name: Seq<char>, variants: Seq<Seq<char>>) -> Seq<char> {
    "typedef enum {"@ + enum_variants_text(variants) + closing(enum_name)
}

/// The text that opens an initialised array of `struct_name`.
pub open spec fn table_opening(struct_name: Seq<char>, table_name: Seq<char>) -> Seq<char> {
    "const "@ + struct_name + " "@ + table_name + "[] = {"@
}

/// An `#include` line for a system header.
pub open spec fn system_include_text(header_file_name: Seq<char>) -> Seq<char> {
    "#include <"@ + header_file_name + ">\n"@
}

/// The assignment of a value to a named member in a struct literal.
pub open spec fn value_field_text(field_name: Seq<char>, value: Seq<char>) -> Seq<char> {
    "."@ + field_name + "="@ + value + ","@
}

/// The text that opens a struct literal assigned to a named member.
pub open spec fn struct_field_opening(field_name: Seq<char>) -> Seq<char> {
    "."@ + field_name + "={"@
}

/// An array entry that is a plain number.
pub open spec fn int_entry_text(value: nat) -> Seq<char> {
    decimal(value) + ",\n"@
}

/// The number of bits that an index into `values_amount` values needs.
pub fn min_bits_required_for_field(values_amount: usize) -> (bits: usize)
    requires
        values_amount >= 1,
    ensures
        bits == min_bits(values_amount as nat),
{
    let mut rest: usize = values_amount - 1;
    let mut bits: usize = 0;
    proof {
        lemma_bit_length_bounds(rest as nat);
    }
    while rest > 0
        invariant
            bits + bit_length(rest as nat) == min_bits(values_amount as nat),
            min_bits(values_amount as nat) < values_amount,
        decreases rest,
    {
        rest = rest / 2;
        bits += 1;
    }
    bits
}

/// The width in bits of the smallest unsigned integer type that stores an index into
/// `values_amount` values: 8 for up to 2^8 values, 16 for up to 2^16, 32 for up to 2^32, else 64.
pub fn min_storage_width(values_amount: usize) -> (width: usize)
    ensures
        width == storage_width(values_amount as nat),
{
    let amount: u64 = values_amount as u64;
    if amount <= 0x100u64 {
        8
    } else if amount <= 0x1_0000u64 {
        16
    } else if amount <= 0x1_0000_0000u64 {
        32
    } else {
        64
    }
}

/// The C name of the unsigned integer type that is `width` bits wide.
fn int_type_of_width(width: usize) -> (name: &'static str)
    requires
        width == 8 || width == 16 || width == 32 || width == 64,
    ensures
        name@ == int_type_name(width as nat),
{
    if width == 8 {
        "uint8_t"
    } else if width == 16 {
        "uint16_t"
    } else if width == 32 {
        "uint32_t"
    } else {
        "uint64_t"
    }
}

/// The C type that stores an index into `values_amount` values.
pub fn min_int_type_required_for_field(values_amount: usize) -> (name: &'static str)
    ensures
        name@ == int_type_name(storage_width(values_amount as nat)),
{
    int_type_of_width(min_storage_width(values_amount))
}

/// The smallest C unsigned integer type that holds `bits_amount` bits.
pub fn min_int_type_required_for_bits_amount(bits_amount: usize) -> (name: &'static str)
    requires
        bits_amount <= 64,
    ensures
        name@ == int_type_name(storage_width_for_bits(bits_amount as nat)),
{
    if bits_amount <= 8 {
        "uint8_t"
    } else if bits_amount <= 16 {
        "uint16_t"
    } else if bits_amount <= 32 {
        "uint32_t"
    } else {
        "uint64_t"
    }
}

/// The declaration line of a bit-field that is just wide enough for an index into
/// `values_amount` values.
pub fn gen_bit_field_min_size(field_name: &str, values_amount: usize) -> (line: String)
    requires
        values_amount >= 1,
    ensures
        line@ == bit_field_min_size_line(field_name@, values_amount as nat),
{
    let int_type = min_int_type_required_for_field(values_amount);
    let bits_required = min_bits_required_for_field(values_amount);
    let mut line = String::from_str(int_type);
    line.append(" ");
    line.append(field_name);
    line.append(": ");
    line.append(decimal_string(bits_required).as_str());
    line.append(";\n");
    line
}

/// C code emitter
pub struct CEmitter {
    code: String,
}

impl View for CEmitter {
    type V = Seq<char>;

    closed spec fn view(&self) -> Seq<char> {
        self.code@
    }
}

impl CEmitter {
    pub fn new() -> (emitter: Self)
        ensures
            emitter@ == Seq::<char>::empty(),
    {
        Self { code: String::new() }
    }

    pub fn code(&self) -> (code: &str)
        ensures
            code@ == self@,
    {
        self.code.as_str()
    }

    pub fn emit_raw(&mut self, code: &str)
        ensures
            final(self)@ == old(self)@ + code@,
    {
        self.code.append(code)
    }

    /// Opens a union of struct variants that all start with the same `kind` bit-field, which
    /// is wide enough to tell `kinds_amount` variants apart.
    pub fn begin_tagged_union<'a>(
        &'a mut self,
        union_name: &'static str,
        kinds_amount: usize,
    ) -> (union_emitter: CTaggedUnionEmitter<'a>)
        requires
            kinds_amount >= 1,
        ensures
            union_emitter.emitter@ == old(self)@ + union_opening(false) + bit_field_min_size_line(
                "kind"@,
                kinds_amount as nat,
            ),
            union_emitter.union_name@ == union_name@,
            union_emitter.kind_field@ == bit_field_min_size_line("kind"@, kinds_amount as nat),
            final(self)@ == final(union_emitter.emitter)@,
    {
        self.code.append("typedef union {\n");

        let kind_field = gen_bit_field_min_size("kind", kinds_amount);
        self.code.append(kind_field.as_str());

        CTaggedUnionEmitter { emitter: self, union_name, kind_field }
    }

    pub fn begin_union<'a>(&'a mut self, union_name: &'static str, packed: bool) -> (union_emitter:
        CStructEmitter<'a>)
        ensures
            union_emitter.emitter@ == old(self)@ + union_opening(packed),
            union_emitter.struct_name@ == union_name@,
            final(self)@ == final(union_emitter.emitter)@,
    {
        if packed {
            self.code.append("typedef union __attribute__((packed)) {\n");
        } else {
            self.code.append("typedef union {\n");
        }
        CStructEmitter { emitter: self, struct_name: union_name }
    }

    pub fn emit_system_include(&mut self, header_file_name: &str)
        ensures
            final(self)@ == old(self)@ + system_include_text(header_file_name@),
    {
        self.code.append("#include <");
        self.code.append(header_file_name);
        self.code.append(">\n");
    }

    /// Declares an enum with the given enumerators, in their order. The names are taken as
    /// they are: a name given twice is declared twice.
    pub fn emit_enum(&mut self, enum_name: &str, variants: &Vec<String>)
        ensures
            final(self)@ == old(self)@ + enum_text(enum_name@, models(variants@)),
    {
        self.code.append("typedef enum {");
        let ghost names = models(variants@);
        let ghost start = self.code@;
        let mut i: usize = 0;
        while i < variants.len()
            invariant
                i <= variants.len(),
                names == models(variants@),
                self.code@ == start + enum_variants_text(names.take(i as int)),
            decreases variants.len() - i,
        {
            proof {
                assert(names.take(i + 1).drop_last() =~= names.take(i as int));
            }
            self.code.append(variants[i].as_str());
            self.code.append(",");
            i += 1;
        }
        proof {
            assert(names.take(i as int) =~= names);
        }
        self.code.append("}");
        self.code.append(enum_name);
        self.code.append(";\n");
    }

    pub fn begin_struct<'a>(
        &'a mut self,
        struct_name: &'static str,
        packed: bool,
    ) -> (struct_emitter: CStructEmitter<'a>)
        ensures
            struct_emitter.emitter@ == old(self)@ + struct_opening(packed),
            struct_emitter.struct_name@ == struct_name@,
            final(self)@ == final(struct_emitter.emitter)@,
    {
        if packed {
            self.code.append("typedef struct __attribute__((packed)) {");
        } else {
            self.code.append("typedef struct {");
        }
        CStructEmitter { emitter: self, struct_name }
    }

    pub fn begin_table<'a>(&'a mut self, struct_name: &str, table_name: &str) -> (table_emitter:
        CTableEmitter<'a>)
        ensures
            table_emitter.emitter@ == old(self)@ + table_opening(struct_name@, table_name@),
            final(self)@ == final(table_emitter.emitter)@,
    {
        self.code.append("const ");
        self.code.append(struct_name);
        self.code.append(" ");
        self.code.append(table_name);
        self.code.append("[] = {");
        CTableEmitter { emitter: self }
    }
}

/// An open union whose variants are structs that share a leading `kind` bit-field.
pub struct CTaggedUnionEmitter<'a> {
    pub emitter: &'a mut CEmitter,
    pub union_name: &'static str,
    pub kind_field: String,
}

impl<'a> CTaggedUnionEmitter<'a> {
    /// Opens the next variant; its first member is the `kind` bit-field.
    pub fn begin_struct_variant(&mut self, variant_name: &'static str, packed: bool) -> (variant:
        CStructEmitter<'_>)
        ensures
            variant.emitter@ == old(self).emitter@ + nested_struct_opening(packed) + old(
                self,
            ).kind_field@,
            variant.struct_name@ == variant_name@,
            final(self).emitter@ == final(variant.emitter)@,
            final(final(self).emitter)@ == final(old(self).emitter)@,
            final(self).union_name@ == old(self).union_name@,
            final(self).kind_field@ == old(self).kind_field@,
    {
        if packed {
            self.emitter.code.append("struct __attribute__((packed)) {\n");
        } else {
            self.emitter.code.append("struct {\n");
        }
        self.emitter.code.append(self.kind_field.as_str());
        CStructEmitter { emitter: self.emitter, struct_name: variant_name }
    }

    pub fn emit(self)
        ensures
            final(self.emitter)@ == old(self.emitter)@ + closing(self.union_name@),
    {
        self.emitter.code.append("}");
        self.emitter.code.append(self.union_name);
        self.emitter.code.append(";\n");
    }
}

/// An open struct variant of a union.
pub struct CUnionStructVariantEmitter<'a> {
    pub emitter: &'a mut CEmitter,
    pub variant_name: &'static str,
}

impl<'a> CUnionStructVariantEmitter<'a> {
    pub fn emit(self)
        ensures
            final(self.emitter)@ == old(self.emitter)@ + closing(self.variant_name@),
    {
        self.emitter.code.append("}");
        self.emitter.code.append(self.variant_name);
        self.emitter.code.append(";\n");
    }
}

/// An open struct or union, to which members are added one by one.
pub struct CStructEmitter<'a> {
    pub emitter: &'a mut CEmitter,
    pub struct_name: &'static str,
}

impl<'a> CStructEmitter<'a> {
    /// Opens a struct that is itself a member, under the name `field_name`.
    pub fn begin_embedded_struct(&mut self, field_name: &'static str, packed: bool) -> (embedded:
        CStructEmitter<'_>)
        ensures
            embedded.emitter@ == old(self).emitter@ + nested_struct_opening(packed),
            embedded.struct_name@ == field_name@,
            final(self).emitter@ == final(embedded.emitter)@,
            final(final(self).emitter)@ == final(old(self).emitter)@,
            final(self).struct_name@ == old(self).struct_name@,
    {
        if packed {
            self.emitter.code.append("struct __attribute__((packed)) {\n");
        } else {
            self.emitter.code.append("struct {\n");
        }
        CStructEmitter { emitter: self.emitter, struct_name: field_name }
    }

    pub fn field(self, field_name: &str, field_type: &str) -> (next: Self)
        ensures
            next.emitter@ == old(self.emitter)@ + field_text(field_name@, field_type@),
            next.struct_name@ == self.struct_name@,
            final(next.emitter)@ == final(self.emitter)@,
    {
        self.emitter.code.append(field_type);
        self.emitter.code.append(" ");
        self.emitter.code.append(field_name);
        self.emitter.code.append(";");
        self
    }

    pub fn bit_field(self, field_name: &str, field_type: &str, bits_amount: usize) -> (next: Self)
        ensures
            next.emitter@ == old(self.emitter)@ + bit_field_text(
                field_name@,
                field_type@,
                bits_amount as nat,
            ),
            next.struct_name@ == self.struct_name@,
            final(next.emitter)@ == final(self.emitter)@,
    {
        self.emitter.code.append(field_type);
        self.emitter.code.append(" ");
        self.emitter.code.append(field_name);
        self.emitter.code.append(":");
        self.emitter.code.append(decimal_string(bits_amount).as_str());
        self.emitter.code.append(";");
        self
    }

    /// Adds a bit-field that is just wide enough for an index into `values_amount` values.
    pub fn bit_field_min_size(self, field_name: &str, values_amount: usize) -> (next: Self)
        requires
            values_amount >= 1,
        ensures
            next.emitter@ == old(self.emitter)@ + bit_field_min_size_text(
                field_name@,
                values_amount as nat,
            ),
            next.struct_name@ == self.struct_name@,
            final(next.emitter)@ == final(self.emitter)@,
    {
        self.bit_field(
            field_name,
            min_int_type_required_for_field(values_amount),
            min_bits_required_for_field(values_amount),
        )
    }

    pub fn emit(self)
        ensures
            final(self.emitter)@ == old(self.emitter)@ + closing(self.struct_name@),
    {
        self.emitter.code.append("}");
        self.emitter.code.append(self.struct_name);
        self.emitter.code.append(";\n");
    }
}

/// An open initialised array, to which entries are added one by one.
pub struct CTableEmitter<'a> {
    pub emitter: &'a mut CEmitter,
}

impl<'a> CTableEmitter<'a> {
    pub fn begin_entry(&mut self) -> (entry: CStructValueEmitter<'_>)
        ensures
            entry.emitter@ == old(self).emitter@ + "{"@,
            final(self).emitter@ == final(entry.emitter)@,
            final(final(self).emitter)@ == final(old(self).emitter)@,
    {
        self.emitter.code.append("{");
        CStructValueEmitter { emitter: self.emitter }
    }

    pub fn emit_int_entry(&mut self, value: usize)
        ensures
            final(self).emitter@ == old(self).emitter@ + int_entry_text(value as nat),
            final(final(self).emitter)@ == final(old(self).emitter)@,
    {
        self.emitter.code.append(decimal_string(value).as_str());
        self.emitter.code.append(",\n");
    }

    pub fn emit(self)
        ensures
            final(self.emitter)@ == old(self.emitter)@ + "};\n"@,
    {
        self.emitter.code.append("};\n");
    }
}

/// An open struct literal, to which member values are added one by one.
pub struct CStructValueEmitter<'a> {
    pub emitter: &'a mut CEmitter,
}

impl<'a> CStructValueEmitter<'a> {
    pub fn field(self, field_name: &str, value: &str) -> (next: Self)
        ensures
            next.emitter@ == old(self.emitter)@ + value_field_text(field_name@, value@),
            final(next.emitter)@ == final(self.emitter)@,
    {
        self.emitter.code.append(".");
        self.emitter.code.append(field_name);
        self.emitter.code.append("=");
        self.emitter.code.append(value);
        self.emitter.code.append(",");
        self
    }

    pub fn field_int(self, field_name: &str, value: usize) -> (next: Self)
        ensures
            next.emitter@ == old(self.emitter)@ + value_field_text(
                field_name@,
                decimal(value as nat),
            ),
            final(next.emitter)@ == final(self.emitter)@,
    {
        self.emitter.code.append(".");
        self.emitter.code.append(field_name);
        self.emitter.code.append("=");
        self.emitter.code.append(decimal_string(value).as_str());
        self.emitter.code.append(",");
        self
    }

    pub fn begin_struct_field(&mut self, field_name: &str) -> (inner: CStructValueEmitter<'_>)
        ensures
            inner.emitter@ == old(self).emitter@ + struct_field_opening(field_name@),
            final(self).emitter@ == final(inner.emitter)@,
            final(final(self).emitter)@ == final(old(self).emitter)@,
    {
        self.emitter.code.append(".");
        self.emitter.code.append(field_name);
        self.emitter.code.append("={");
        CStructValueEmitter { emitter: self.emitter }
    }

    pub fn emit(self)
        ensures
            final(self.emitter)@ == old(self.emitter)@ + "},\n"@,
    {
        self.emitter.code.append("},\n");
    }
}

} // verus!
