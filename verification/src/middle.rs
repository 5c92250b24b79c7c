pub mod checker;
pub mod id_table;
pub mod stdenv;
pub mod visitor;
