pub mod bits;
pub mod le;
pub mod ondisk;
pub mod struct_accessors;
pub mod types;
