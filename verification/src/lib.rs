//! Compiles instruction-decoding tables into deduplicated, bit-packed C declarations.

pub mod c_emitter;
pub mod code_gen;
pub mod decimal;
pub mod first_opcode_byte_table;
pub mod names;
pub mod opcode_table;
pub mod second_opcode_byte_table;
pub mod table_compiler;
pub mod table_gen_utils;
pub mod table_types;
pub mod unique_set;
pub mod width;
