//! The messages of the two links, one module per peripheral. Opcodes are scoped to a
//! peripheral and a direction: the same value may occur in unrelated tables.

pub mod pump;
pub mod temperature;
