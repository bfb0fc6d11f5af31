//! Memory and symbolic-addressing core of a stack-machine virtual machine:
//! a segmented, relocatable memory, a resolver that turns symbolic variable
//! references into concrete addresses, and typed accessors over both.

pub mod errors;
pub mod felt;
pub mod hint_reference;
pub mod hint_utils;
pub mod memory;
pub mod relocatable;
pub mod resolver;
pub mod vm_core;
