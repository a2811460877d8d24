//! A virtual machine described as typed devices, compiled into the argument
//! list that launches QEMU with those devices attached.

pub mod devices;
pub mod errors;
pub mod machine;
pub mod text;
