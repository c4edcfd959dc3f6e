//! Parsing and relocation of compiled kernel-bytecode object files.
//!
//! The library decodes ELF containers holding small bytecode programs, map
//! descriptors and embedded type-debug information, resolves
//! compile-once-run-everywhere relocations against a target type graph, and
//! patches the instruction streams in place, poisoning the accesses the
//! target cannot satisfy instead of failing the whole load.

pub mod access;
pub mod binder;
pub mod btf;
pub mod btf_codec;
pub mod cursor;
pub mod insn;
pub mod generated;
pub mod maps;
pub mod obj;
pub mod obj_maps;
pub mod pin;
pub mod relocate;
pub mod programs;
pub mod strutil;

use vstd::prelude::*;

verus! {

} // verus!
