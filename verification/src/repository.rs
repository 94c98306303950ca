pub mod memory;
pub mod relational;
