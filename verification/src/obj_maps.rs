//! Map descriptors as they appear in a parsed object file.

use vstd::prelude::*;

verus! {

/// Fixed-layout descriptor read from a legacy map-definition section.
#[allow(non_camel_case_types)]
#[derive(Copy, Clone, Debug)]
pub struct bpf_map_def {
    /// Kernel map type code.
    pub map_type: u32,
    /// Size in bytes of a key.
    pub key_size: u32,
    /// Size in bytes of a value.
    pub value_size: u32,
    /// Maximum number of entries the kernel reserves.
    pub max_entries: u32,
    /// Creation flags handed to the kernel.
    pub map_flags: u32,
    /// Pinning behaviour code.
    pub pinning: u32,
    /// Numeric id assigned by the tooling, zero when unused.
    pub id: u32,
}

impl Default for bpf_map_def {
    /// An all-zero descriptor.
    fn default() -> (r: Self)
        ensures
            r.map_type == 0 && r.key_size == 0 && r.value_size == 0,
            r.max_entries == 0 && r.map_flags == 0 && r.pinning == 0 && r.id == 0,
    {
        bpf_map_def {
            map_type: 0,
            key_size: 0,
            value_size: 0,
            max_entries: 0,
            map_flags: 0,
            pinning: 0,
            id: 0,
        }
    }
}

/// How the section holding a map's backing data is classified.
#[derive(Copy, Clone, Debug)]
pub enum MapKind {
    /// Zero-initialised global data.
    Bss,
    /// Initialised mutable global data.
    Data,
    /// Initialised read-only global data.
    Rodata,
    /// An ordinary map definition.
    Other,
}

/// A map declared through a legacy fixed-layout record.
#[derive(Clone, Debug)]
pub struct LegacyMap {
    /// The fixed-layout descriptor.
    pub def: bpf_map_def,
    /// Index of the section the definition was read from.
    pub section_index: usize,
    /// Index of the symbol naming the map.
    pub symbol_index: usize,
    /// Initial data bytes for global-variable-backed maps.
    pub data: Vec<u8>,
    /// Classification of the backing section.
    pub kind: MapKind,
}

/// A map declared through the type-debug graph.
#[derive(Copy, Clone, Debug)]
pub struct BtfMapDef {
    /// Kernel map type code.
    pub map_type: u32,
    /// Type id of a key in the owning type graph.
    pub key_type_id: u32,
    /// Type id of a value in the owning type graph.
    pub value_type_id: u32,
    /// Creation flags handed to the kernel.
    pub map_flags: u32,
    /// Maximum number of entries the kernel reserves.
    pub max_entries: u32,
    /// Pinning behaviour code.
    pub pinning: u32,
}

/// A map declared through the type-debug graph, with its backing bytes.
#[derive(Clone, Debug)]
pub struct BtfMap {
    /// The type-graph-defined descriptor.
    pub def: BtfMapDef,
    /// Index of the section the definition was read from.
    pub section_index: usize,
    /// Index of the symbol naming the map.
    pub symbol_index: usize,
    /// Initial data bytes for global-variable-backed maps.
    pub data: Vec<u8>,
}

/// A map definition found in an object file, either layout.
#[derive(Clone, Debug)]
pub enum ObjMap {
    /// Declared by a fixed-layout record.
    Legacy(LegacyMap),
    /// Declared through the type-debug graph.
    Btf(BtfMap),
}

impl ObjMap {
    /// The kernel map type code of the definition.
    pub open spec fn spec_map_type(&self) -> u32 {
        match self {
            ObjMap::Legacy(m) => m.def.map_type,
            ObjMap::Btf(m) => m.def.map_type,
        }
    }

    /// The declared key size in bytes; type-graph maps leave it to the graph.
    pub open spec fn spec_key_size(&self) -> u32 {
        match self {
            ObjMap::Legacy(m) => m.def.key_size,
            ObjMap::Btf(_) => 0,
        }
    }

    /// The declared value size in bytes; type-graph maps leave it to the graph.
    pub open spec fn spec_value_size(&self) -> u32 {
        match self {
            ObjMap::Legacy(m) => m.def.value_size,
            ObjMap::Btf(_) => 0,
        }
    }

    /// Returns the kernel map type code.
    pub fn map_type(&self) -> (r: u32)
        ensures
            r == self.spec_map_type(),
    {
        match self {
            ObjMap::Legacy(m) => m.def.map_type,
            ObjMap::Btf(m) => m.def.map_type,
        }
    }

    /// Returns the declared key size in bytes.
    pub fn key_size(&self) -> (r: u32)
        ensures
            r == self.spec_key_size(),
    {
        match self {
            ObjMap::Legacy(m) => m.def.key_size,
            ObjMap::Btf(_) => 0,
        }
    }

    /// Returns the declared value size in bytes.
    pub fn value_size(&self) -> (r: u32)
        ensures
            r == self.spec_value_size(),
    {
        match self {
            ObjMap::Legacy(m) => m.def.value_size,
            ObjMap::Btf(_) => 0,
        }
    }
}

} // verus!
