//! The object decomposer: splits an ELF container into programs, map
//! definitions, the symbol table, raw relocation records, and the embedded
//! type-debug graph.

use vstd::prelude::*;

use crate::binder::{Symbol, SymbolRef};
use crate::btf::{str_bytes_at, TypeGraph};
use crate::btf_codec::{parse_btf, BtfError};
use crate::cursor::{read_u16, read_u32, read_u64, spec_u16_at, spec_u32_at, spec_u64_at, Endianness};
use crate::insn::{spec_decode_insn, decode_insn, Instruction};
use crate::obj_maps::{bpf_map_def, LegacyMap, MapKind, ObjMap};
use crate::relocate::{spec_relocate_from, relocate_insns, CoreRelocation, RelocResult, RelocationKind};

verus! {

/// Why an object file failed to decompose; fatal to the whole object.
#[derive(Copy, Clone, Debug, PartialEq, Eq, Structural)]
pub enum ObjError {
    /// The container is shorter than its fixed header.
    TruncatedHeader,
    /// The container does not open with the ELF magic.
    InvalidMagic,
    /// Only 64-bit containers are understood.
    UnsupportedClass,
    /// The byte-order mark is neither little nor big endian.
    InvalidEndianness,
    /// A section header lies outside the container.
    InvalidSectionHeader {
        /// Index of the offending section.
        section_index: u32,
    },
    /// A section's bytes lie outside the container.
    SectionOutOfRange {
        /// Index of the offending section.
        section_index: u32,
    },
    /// A program section's length is not a multiple of the instruction width.
    InvalidProgramSize {
        /// Index of the offending section.
        section_index: u32,
    },
    /// A relocation record references a missing section or instruction.
    InvalidRelocation {
        /// Index of the section the record belongs to.
        section_index: u32,
    },
    /// A relocation record carries an unknown kind code.
    InvalidRelocationKind {
        /// The code found.
        kind: u32,
    },
    /// The embedded type-debug blob is malformed.
    Btf(BtfError),
    /// The extended type-debug section is malformed.
    BtfExt,
}

/// One section header, with its name already resolved.
pub struct SectionHeader {
    /// The section's name bytes.
    pub name: Vec<u8>,
    /// The section type code.
    pub sh_type: u32,
    /// The section flags.
    pub flags: u64,
    /// Byte offset of the section's data inside the container.
    pub offset: u64,
    /// Byte length of the section's data.
    pub size: u64,
    /// The linked section's index, as the type code interprets it.
    pub link: u32,
    /// Extra type-dependent information, for relocations the target section.
    pub info: u32,
}

/// One bytecode program cut out of an executable section.
pub struct Program {
    /// Name of the section the program was read from.
    pub section_name: Vec<u8>,
    /// The program's function name.
    pub name: Vec<u8>,
    /// Index of the section the program was read from.
    pub section_index: u32,
    /// Byte offset of the program inside its section.
    pub section_offset: u64,
    /// The decoded instruction stream.
    pub insns: Vec<Instruction>,
    /// The relocations that apply to this program's instructions.
    pub core_relocations: Vec<CoreRelocation>,
    /// The symbolic map and call references into this program.
    pub symbol_refs: Vec<SymbolRef>,
}

/// The parsed container, ready for relocation and binding.
pub struct Object {
    /// The byte order the container was written in.
    pub endianness: Endianness,
    /// The license string, without its terminator.
    pub license: Vec<u8>,
    /// The embedded local type graph, when the container carries one.
    pub btf: Option<TypeGraph>,
    /// The programs, one per function symbol of an executable section.
    pub programs: Vec<Program>,
    /// The map definitions by name.
    pub maps: Vec<(Vec<u8>, ObjMap)>,
    /// The symbol table.
    pub symbols: Vec<Symbol>,
}

/// Decodes `size` bytes starting at `start` into instructions.
///
/// Every instruction is decoded exactly; a length that is not a multiple of
/// the eight-byte instruction width is refused.
#[verifier::loop_isolation(false)]
pub fn decode_insns(bytes: &Vec<u8>, start: usize, size: usize, e: Endianness, section_index: u32) -> (r:
    Result<Vec<Instruction>, ObjError>)
    ensures
        size % 8 != 0 ==> r == Err::<Vec<Instruction>, ObjError>(
            ObjError::InvalidProgramSize { section_index },
        ),
        start + size > bytes@.len() ==> r is Err,
        size % 8 == 0 && start + size <= bytes@.len() ==> r is Ok,
        r matches Ok(v) ==> {
            &&& size % 8 == 0
            &&& start + size <= bytes@.len()
            &&& v@.len() == size as int / 8
            &&& forall|j: int|
                0 <= j < v@.len() ==> #[trigger] v@[j] == spec_decode_insn(
                    bytes@.subrange(start + 8 * j, start + 8 * j + 8),
                    e,
                )
        },
{
    if size % 8 != 0 {
        return Err(ObjError::InvalidProgramSize { section_index });
    }
    if start > bytes.len() || size > bytes.len() - start {
        return Err(ObjError::SectionOutOfRange { section_index });
    }
    let count = size / 8;
    let mut out: Vec<Instruction> = Vec::new();
    let mut j: usize = 0;
    while j < count
        invariant
            j <= count,
            count == size as int / 8,
            size % 8 == 0,
            start + size <= bytes@.len(),
            out@.len() == j,
            forall|k: int|
                0 <= k < j ==> #[trigger] out@[k] == spec_decode_insn(
                    bytes@.subrange(start + 8 * k, start + 8 * k + 8),
                    e,
                ),
        decreases count - j,
    {
        proof {
            assert(8 * (j + 1) <= 8 * count) by (nonlinear_arith)
                requires
                    j + 1 <= count,
            ;
            assert(8 * count <= size);
        }
        let insn = decode_insn(bytes, start + 8 * j, e);
        out.push(insn);
        j = j + 1;
    }
    Ok(out)
}

/// The relocation kind a record's code names.
pub open spec fn spec_reloc_kind(code: u32) -> Option<RelocationKind> {
    match code {
        0u32 => Some(RelocationKind::FieldByteOffset),
        1u32 => Some(RelocationKind::FieldByteSize),
        2u32 => Some(RelocationKind::FieldExists),
        3u32 => Some(RelocationKind::FieldSigned),
        4u32 => Some(RelocationKind::FieldLeftShift),
        5u32 => Some(RelocationKind::FieldRightShift),
        6u32 => Some(RelocationKind::TypeIdLocal),
        7u32 => Some(RelocationKind::TypeIdTarget),
        8u32 => Some(RelocationKind::TypeExists),
        9u32 => Some(RelocationKind::TypeSize),
        10u32 => Some(RelocationKind::EnumExists),
        11u32 => Some(RelocationKind::EnumValue),
        _ => None,
    }
}

/// Decodes a relocation kind code.
pub fn reloc_kind(code: u32) -> (r: Option<RelocationKind>)
    ensures
        r == spec_reloc_kind(code),
{
    match code {
        0u32 => Some(RelocationKind::FieldByteOffset),
        1u32 => Some(RelocationKind::FieldByteSize),
        2u32 => Some(RelocationKind::FieldExists),
        3u32 => Some(RelocationKind::FieldSigned),
        4u32 => Some(RelocationKind::FieldLeftShift),
        5u32 => Some(RelocationKind::FieldRightShift),
        6u32 => Some(RelocationKind::TypeIdLocal),
        7u32 => Some(RelocationKind::TypeIdTarget),
        8u32 => Some(RelocationKind::TypeExists),
        9u32 => Some(RelocationKind::TypeSize),
        10u32 => Some(RelocationKind::EnumExists),
        11u32 => Some(RelocationKind::EnumValue),
        _ => None,
    }
}

/// Reads the NUL-terminated name at `off` of a string-table section.
#[verifier::loop_isolation(false)]
fn cstr_at(bytes: &Vec<u8>, off: usize) -> (r: Vec<u8>)
    ensures
        r@ == str_bytes_at(bytes@, off as int),
{
    let n = bytes.len();
    if off > n {
        return Vec::new();
    }
    let mut end = off;
    while end < n && bytes[end] != 0
        invariant
            off <= end <= n,
            n == bytes@.len(),
            crate::btf::str_end(bytes@, off as int) == crate::btf::str_end(bytes@, end as int),
        decreases n - end,
    {
        end = end + 1;
    }
    let mut out: Vec<u8> = Vec::new();
    let mut i = off;
    while i < end
        invariant
            off <= i <= end <= n,
            n == bytes@.len(),
            out@ == bytes@.subrange(off as int, i as int),
        decreases end - i,
    {
        out.push(bytes[i]);
        proof {
            assert(out@ =~= bytes@.subrange(off as int, i + 1 as int));
        }
        i = i + 1;
    }
    proof {
        assert(out@ =~= str_bytes_at(bytes@, off as int));
    }
    out
}

/// Reads a section's bytes out of the container.
#[verifier::loop_isolation(false)]
fn section_bytes(bytes: &Vec<u8>, offset: u64, size: u64, section_index: u32) -> (r: Result<
    Vec<u8>,
    ObjError,
>)
    ensures
        r is Ok <==> offset + size <= bytes@.len(),
        r is Err ==> r == Err::<Vec<u8>, ObjError>(ObjError::SectionOutOfRange { section_index }),
        r matches Ok(v) ==> v@ == bytes@.subrange(offset as int, offset as int + size as int),
{
    if offset > bytes.len() as u64 || size > bytes.len() as u64 - offset {
        return Err(ObjError::SectionOutOfRange { section_index });
    }
    let start = offset as usize;
    let end = (offset + size) as usize;
    let mut out: Vec<u8> = Vec::new();
    let mut i = start;
    while i < end
        invariant
            start <= i <= end <= bytes@.len(),
            out@ == bytes@.subrange(start as int, i as int),
        decreases end - i,
    {
        out.push(bytes[i]);
        proof {
            assert(out@ =~= bytes@.subrange(start as int, i + 1 as int));
        }
        i = i + 1;
    }
    Ok(out)
}

/// Whether the section header table checks out: the fixed entry width, a
/// name table index inside the table, and the table and the name section
/// inside the container.
pub open spec fn spec_section_headers_ok(data: Seq<u8>, e: Endianness) -> bool {
    let shoff = spec_u64_at(data, 0x28, e) as int;
    let shnum = spec_u16_at(data, 0x3C, e) as int;
    let shstrndx = spec_u16_at(data, 0x3E, e) as int;
    let str_hdr = shoff + shstrndx * 64;
    &&& spec_u16_at(data, 0x3A, e) == 64
    &&& shstrndx < shnum
    &&& shoff + shnum * 64 <= data.len()
    &&& spec_u64_at(data, str_hdr + 0x18, e) + spec_u64_at(data, str_hdr + 0x20, e) <= data.len()
}

/// Whether `h` holds exactly the fields of section header `i`, its name
/// resolved through the name table at `names_off`.
pub open spec fn spec_section_header_fields(
    data: Seq<u8>,
    e: Endianness,
    i: int,
    h: SectionHeader,
) -> bool {
    let shoff = spec_u64_at(data, 0x28, e) as int;
    let base = shoff + i * 64;
    &&& h.sh_type == spec_u32_at(data, base + 4, e)
    &&& h.flags == spec_u64_at(data, base + 8, e)
    &&& h.offset == spec_u64_at(data, base + 0x18, e)
    &&& h.size == spec_u64_at(data, base + 0x20, e)
    &&& h.link == spec_u32_at(data, base + 0x28, e)
    &&& h.info == spec_u32_at(data, base + 0x2C, e)
}

/// Parses the section header table, resolving each name; every header's
/// fields are decoded exactly, and a table meeting the format is owed
/// success.
#[verifier::loop_isolation(false)]
fn parse_section_headers(bytes: &Vec<u8>, e: Endianness) -> (r: Result<Vec<SectionHeader>, ObjError>)
    requires
        bytes.len() >= 0x40,
    ensures
        r is Ok <==> spec_section_headers_ok(bytes@, e),
        r matches Ok(v) ==> v@.len() == spec_u16_at(bytes@, 0x3C, e) as int && forall|i: int|
            0 <= i < v@.len() ==> spec_section_header_fields(bytes@, e, i, #[trigger] v@[i]),
{
    let shoff = read_u64(bytes, 0x28, e);
    let shentsize = read_u16(bytes, 0x3A, e);
    let shnum = read_u16(bytes, 0x3C, e);
    let shstrndx = read_u16(bytes, 0x3E, e);
    if shentsize != 64 {
        return Err(ObjError::InvalidSectionHeader { section_index: 0 });
    }
    if shstrndx >= shnum {
        return Err(ObjError::InvalidSectionHeader { section_index: shstrndx as u32 });
    }
    if shoff > bytes.len() as u64 || shnum as u64 * 64 > bytes.len() as u64 - shoff {
        return Err(ObjError::InvalidSectionHeader { section_index: 0 });
    }
    // The name table section's own header, then the names themselves.
    proof {
        assert((shstrndx as int + 1) * 64 <= shnum as int * 64) by (nonlinear_arith)
            requires
                shstrndx as int + 1 <= shnum as int,
        ;
    }
    let str_hdr = shoff as usize + shstrndx as usize * 64;
    let names_off = read_u64(bytes, str_hdr + 0x18, e);
    let names_size = read_u64(bytes, str_hdr + 0x20, e);
    if names_off > bytes.len() as u64 || names_size > bytes.len() as u64 - names_off {
        return Err(ObjError::SectionOutOfRange { section_index: shstrndx as u32 });
    }
    let names = match section_bytes(bytes, names_off, names_size, shstrndx as u32) {
        Ok(v) => v,
        Err(err) => {
            return Err(err);
        },
    };
    let mut out: Vec<SectionHeader> = Vec::new();
    let mut i: usize = 0;
    while i < shnum as usize
        invariant
            shoff + shnum * 64 <= bytes@.len(),
            i <= shnum,
            out@.len() == i,
            forall|j: int|
                0 <= j < i ==> spec_section_header_fields(bytes@, e, j, #[trigger] out@[j]),
        decreases shnum as int - i,
    {
        proof {
            assert((i as int + 1) * 64 <= shnum as int * 64) by (nonlinear_arith)
                requires
                    i as int + 1 <= shnum as int,
            ;
        }
        let h = shoff as usize + i * 64;
        let sh_name = read_u32(bytes, h, e);
        let sh_type = read_u32(bytes, h + 4, e);
        let flags = read_u64(bytes, h + 8, e);
        let offset = read_u64(bytes, h + 0x18, e);
        let size = read_u64(bytes, h + 0x20, e);
        let link = read_u32(bytes, h + 0x28, e);
        let info = read_u32(bytes, h + 0x2C, e);
        let name = cstr_at(&names, sh_name as usize);
        out.push(SectionHeader { name, sh_type, flags, offset, size, link, info });
        i = i + 1;
    }
    Ok(out)
}

/// Parses the symbol table section against its string table.
#[verifier::loop_isolation(false)]
fn parse_symbols(symtab: &Vec<u8>, strtab: &Vec<u8>, e: Endianness) -> (r: Result<
    Vec<Symbol>,
    ObjError,
>) {
    if symtab.len() % 24 != 0 {
        return Err(ObjError::InvalidSectionHeader { section_index: 0 });
    }
    let count = symtab.len() / 24;
    let mut out: Vec<Symbol> = Vec::new();
    let mut i: usize = 0;
    while i < count
        invariant
            i <= count,
            count * 24 <= symtab@.len(),
        decreases count - i,
    {
        proof {
            assert((i as int + 1) * 24 <= count as int * 24) by (nonlinear_arith)
                requires
                    i as int + 1 <= count as int,
            ;
        }
        let h = i * 24;
        let st_name = read_u32(symtab, h, e);
        let st_shndx = read_u16(symtab, h + 6, e);
        let st_value = read_u64(symtab, h + 8, e);
        let st_size = read_u64(symtab, h + 16, e);
        let name = cstr_at(strtab, st_name as usize);
        out.push(Symbol { name, section_index: st_shndx as u32, value: st_value, size: st_size });
        i = i + 1;
    }
    Ok(out)
}

/// Parses a legacy map-definition section: a packed array of fixed records.
#[verifier::loop_isolation(false)]
fn parse_legacy_maps(
    data: &Vec<u8>,
    section_index: u32,
    symbols: &Vec<Symbol>,
    e: Endianness,
) -> (r: Result<Vec<(Vec<u8>, ObjMap)>, ObjError>) {
    if data.len() % 28 != 0 {
        return Err(ObjError::SectionOutOfRange { section_index });
    }
    let count = data.len() / 28;
    let mut out: Vec<(Vec<u8>, ObjMap)> = Vec::new();
    let mut i: usize = 0;
    while i < count
        invariant
            i <= count,
            count * 28 <= data@.len(),
        decreases count - i,
    {
        proof {
            assert((i as int + 1) * 28 <= count as int * 28) by (nonlinear_arith)
                requires
                    i as int + 1 <= count as int,
            ;
        }
        let h = i * 28;
        let def = bpf_map_def {
            map_type: read_u32(data, h, e),
            key_size: read_u32(data, h + 4, e),
            value_size: read_u32(data, h + 8, e),
            max_entries: read_u32(data, h + 12, e),
            map_flags: read_u32(data, h + 16, e),
            pinning: read_u32(data, h + 20, e),
            id: read_u32(data, h + 24, e),
        };
        // The map's name comes from the symbol placed at its record.
        let mut name: Vec<u8> = Vec::new();
        let mut s: usize = 0;
        while s < symbols.len()
            invariant
                s <= symbols@.len(),
            decreases symbols@.len() - s,
        {
            let sym = &symbols[s];
            if sym.section_index == section_index && sym.value == (h as u64) && sym.name.len()
                > 0 {
                name = cstr_owned(&sym.name);
                break ;
            }
            s = s + 1;
        }
        out.push(
            (
                name,
                ObjMap::Legacy(
                    LegacyMap {
                        def,
                        section_index: section_index as usize,
                        symbol_index: s,
                        data: Vec::new(),
                        kind: MapKind::Other,
                    },
                ),
            ),
        );
        i = i + 1;
    }
    Ok(out)
}

/// Copies a name buffer.
#[verifier::loop_isolation(false)]
fn cstr_owned(v: &Vec<u8>) -> (r: Vec<u8>)
    ensures
        r@ == v@,
{
    let mut out: Vec<u8> = Vec::new();
    let mut i: usize = 0;
    while i < v.len()
        invariant
            i <= v@.len(),
            out@ == v@.subrange(0, i as int),
        decreases v@.len() - i,
    {
        out.push(v[i]);
        proof {
            assert(out@ =~= v@.subrange(0, i + 1 as int));
        }
        i = i + 1;
    }
    proof {
        assert(out@ =~= v@);
    }
    out
}

/// Splits an ELF container into license, type graph, map definitions,
/// symbols and programs. Program sections are the executable ones; each
/// function symbol inside one delimits a program, and a section without
/// function symbols is one whole program.
#[verifier::loop_isolation(false)]
pub fn parse_object(bytes: &Vec<u8>) -> (r: Result<Object, ObjError>)
    ensures
        bytes@.len() < 0x40 ==> r == Err::<Object, ObjError>(ObjError::TruncatedHeader),
        bytes@.len() >= 0x40 && !(bytes@[0] == 0x7F && bytes@[1] == 0x45 && bytes@[2] == 0x4C
            && bytes@[3] == 0x46) ==> r == Err::<Object, ObjError>(ObjError::InvalidMagic),
        bytes@.len() >= 0x40 && bytes@[0] == 0x7F && bytes@[1] == 0x45 && bytes@[2] == 0x4C
            && bytes@[3] == 0x46 && bytes@[4] != 2 ==> r == Err::<Object, ObjError>(
            ObjError::UnsupportedClass,
        ),
        bytes@.len() >= 0x40 && bytes@[0] == 0x7F && bytes@[1] == 0x45 && bytes@[2] == 0x4C
            && bytes@[3] == 0x46 && bytes@[4] == 2 && bytes@[5] != 1 && bytes@[5] != 2 ==> r
            == Err::<Object, ObjError>(ObjError::InvalidEndianness),
        r matches Ok(o) ==> (o.btf matches Some(g) ==> g.wf()) && (o.endianness is Little
            <==> bytes@[5] == 1),
{
    if bytes.len() < 0x40 {
        return Err(ObjError::TruncatedHeader);
    }
    if bytes[0] != 0x7F || bytes[1] != 0x45 || bytes[2] != 0x4C || bytes[3] != 0x46 {
        return Err(ObjError::InvalidMagic);
    }
    if bytes[4] != 2 {
        return Err(ObjError::UnsupportedClass);
    }
    let e = if bytes[5] == 1 {
        Endianness::Little
    } else if bytes[5] == 2 {
        Endianness::Big
    } else {
        return Err(ObjError::InvalidEndianness);
    };
    let sections = match parse_section_headers(bytes, e) {
        Ok(v) => v,
        Err(err) => {
            return Err(err);
        },
    };

    // The symbol table first: programs and map names hang off it.
    let mut symbols: Vec<Symbol> = Vec::new();
    let mut si: usize = 0;
    while si < sections.len()
        invariant
            si <= sections@.len(),
        decreases sections@.len() - si,
    {
        if sections[si].sh_type == 2 {
            let symtab = match section_bytes(
                bytes,
                sections[si].offset,
                sections[si].size,
                si as u32,
            ) {
                Ok(v) => v,
                Err(err) => {
                    return Err(err);
                },
            };
            let link = sections[si].link as usize;
            if link >= sections.len() {
                return Err(ObjError::InvalidSectionHeader { section_index: si as u32 });
            }
            let strtab = match section_bytes(
                bytes,
                sections[link].offset,
                sections[link].size,
                link as u32,
            ) {
                Ok(v) => v,
                Err(err) => {
                    return Err(err);
                },
            };
            symbols = match parse_symbols(&symtab, &strtab, e) {
                Ok(v) => v,
                Err(err) => {
                    return Err(err);
                },
            };
        }
        si = si + 1;
    }

    let mut license: Vec<u8> = Vec::new();
    let mut btf: Option<TypeGraph> = None;
    let mut maps: Vec<(Vec<u8>, ObjMap)> = Vec::new();
    let mut programs: Vec<Program> = Vec::new();
    let mut btf_ext_data: Option<Vec<u8>> = None;

    let mut si: usize = 0;
    while si < sections.len()
        invariant
            si <= sections@.len(),
            btf matches Some(g) ==> g.wf(),
        decreases sections@.len() - si,
    {
        let sec = &sections[si];
        if crate::btf::bytes_eq(&sec.name, &lit_license()) {
            license = match section_bytes(bytes, sec.offset, sec.size, si as u32) {
                Ok(v) => v,
                Err(err) => {
                    return Err(err);
                },
            };
        } else if crate::btf::bytes_eq(&sec.name, &lit_btf()) {
            let blob = match section_bytes(bytes, sec.offset, sec.size, si as u32) {
                Ok(v) => v,
                Err(err) => {
                    return Err(err);
                },
            };
            match parse_btf(&blob, e) {
                Ok(g) => {
                    btf = Some(g);
                },
                Err(err) => {
                    return Err(ObjError::Btf(err));
                },
            }
        } else if crate::btf::bytes_eq(&sec.name, &lit_btf_ext()) {
            let blob = match section_bytes(bytes, sec.offset, sec.size, si as u32) {
                Ok(v) => v,
                Err(err) => {
                    return Err(err);
                },
            };
            btf_ext_data = Some(blob);
        } else if crate::btf::bytes_eq(&sec.name, &lit_maps()) {
            let data = match section_bytes(bytes, sec.offset, sec.size, si as u32) {
                Ok(v) => v,
                Err(err) => {
                    return Err(err);
                },
            };
            maps = match parse_legacy_maps(&data, si as u32, &symbols, e) {
                Ok(v) => v,
                Err(err) => {
                    return Err(err);
                },
            };
        } else if sec.flags & 4 == 4 && sec.sh_type == 1 && sec.size > 0 {
            // An executable section: cut it into programs at its function
            // symbols, or take it whole when none name it.
            let mut found_fn = false;
            let mut sy: usize = 0;
            while sy < symbols.len()
                invariant
                    sy <= symbols@.len(),
                    si < sections@.len(),
                    btf matches Some(g) ==> g.wf(),
                decreases symbols@.len() - sy,
            {
                let sym = &symbols[sy];
                if sym.section_index as usize == si && sym.size > 0 {
                    found_fn = true;
                    if sym.value > sec.size || sym.size > sec.size - sym.value {
                        return Err(ObjError::SectionOutOfRange { section_index: si as u32 });
                    }
                    let insns = match decode_prog(bytes, sec, sym.value, sym.size, si as u32, e) {
                        Ok(v) => v,
                        Err(err) => {
                            return Err(err);
                        },
                    };
                    programs.push(
                        Program {
                            section_name: cstr_owned(&sec.name),
                            name: cstr_owned(&sym.name),
                            section_index: si as u32,
                            section_offset: sym.value,
                            insns,
                            core_relocations: Vec::new(),
                            symbol_refs: Vec::new(),
                        },
                    );
                }
                sy = sy + 1;
            }
            if !found_fn {
                let insns = match decode_prog(bytes, sec, 0, sec.size, si as u32, e) {
                    Ok(v) => v,
                    Err(err) => {
                        return Err(err);
                    },
                };
                programs.push(
                    Program {
                        section_name: cstr_owned(&sec.name),
                        name: cstr_owned(&sec.name),
                        section_index: si as u32,
                        section_offset: 0,
                        insns,
                        core_relocations: Vec::new(),
                        symbol_refs: Vec::new(),
                    },
                );
            }
        }
        si = si + 1;
    }

    // The extended type-debug info hands each program its relocations.
    match (&btf_ext_data, &btf) {
        (Some(ext), Some(graph)) => {
            let groups = match parse_btf_ext(ext, graph, e) {
                Ok(v) => v,
                Err(err) => {
                    return Err(err);
                },
            };
            let ghost nprogs: int = programs@.len() as int;
            let mut gi: usize = 0;
            while gi < groups.len()
                invariant
                    gi <= groups@.len(),
                    programs@.len() == nprogs,
                    btf matches Some(g) ==> g.wf(),
                decreases groups@.len() - gi,
            {
                let (sec_name, rels) = &groups[gi];
                let mut pi: usize = 0;
                while pi < programs.len()
                    invariant
                        pi <= programs@.len(),
                        programs@.len() == nprogs,
                        gi < groups@.len(),
                        btf matches Some(g) ==> g.wf(),
                    decreases programs@.len() - pi,
                {
                    if crate::btf::bytes_eq(&programs[pi].section_name, sec_name) {
                        let prog_start = programs[pi].section_offset;
                        let prog_len: u128 = programs[pi].insns.len() as u128 * 8;
                        let mut ri: usize = 0;
                        while ri < rels.len()
                            invariant
                                ri <= rels@.len(),
                                pi < programs@.len(),
                                programs@.len() == nprogs,
                                gi < groups@.len(),
                                btf matches Some(g) ==> g.wf(),
                            decreases rels@.len() - ri,
                        {
                            let rel = &rels[ri];
                            if rel.insn_offset as u64 >= prog_start && (rel.insn_offset as u128)
                                < prog_start as u128 + prog_len {
                                let adjusted = CoreRelocation {
                                    insn_offset: (rel.insn_offset as u64 - prog_start) as u32,
                                    type_id: rel.type_id,
                                    access: cstr_owned(&rel.access),
                                    kind: rel.kind,
                                };
                                let p = &mut programs[pi];
                                p.core_relocations.push(adjusted);
                            }
                            ri = ri + 1;
                        }
                    }
                    pi = pi + 1;
                }
                gi = gi + 1;
            }
        },
        _ => {},
    }

    // Raw relocation sections hand each program its symbol references.
    let mut si: usize = 0;
    while si < sections.len()
        invariant
            si <= sections@.len(),
            btf matches Some(g) ==> g.wf(),
        decreases sections@.len() - si,
    {
        if sections[si].sh_type == 9 {
            let data = match section_bytes(bytes, sections[si].offset, sections[si].size, si as u32) {
                Ok(v) => v,
                Err(err) => {
                    return Err(err);
                },
            };
            let refs = match parse_rel_section(&data, si as u32, e) {
                Ok(v) => v,
                Err(err) => {
                    return Err(err);
                },
            };
            let target = sections[si].info;
            let ghost nprogs: int = programs@.len() as int;
            let mut pi: usize = 0;
            while pi < programs.len()
                invariant
                    pi <= programs@.len(),
                    programs@.len() == nprogs,
                    si < sections@.len(),
                    btf matches Some(g) ==> g.wf(),
                decreases programs@.len() - pi,
            {
                if programs[pi].section_index == target {
                    let prog_first = programs[pi].section_offset / 8;
                    let prog_count: u128 = programs[pi].insns.len() as u128;
                    let mut ri: usize = 0;
                    while ri < refs.len()
                        invariant
                            ri <= refs@.len(),
                            pi < programs@.len(),
                            programs@.len() == nprogs,
                            si < sections@.len(),
                            btf matches Some(g) ==> g.wf(),
                        decreases refs@.len() - ri,
                    {
                        let re = refs[ri];
                        if re.insn_index as u64 >= prog_first && (re.insn_index as u128)
                            < prog_first as u128 + prog_count {
                            let adjusted = SymbolRef {
                                insn_index: (re.insn_index as u64 - prog_first) as u32,
                                symbol_index: re.symbol_index,
                            };
                            let p = &mut programs[pi];
                            p.symbol_refs.push(adjusted);
                        }
                        ri = ri + 1;
                    }
                }
                pi = pi + 1;
            }
        }
        si = si + 1;
    }

    Ok(Object { endianness: e, license, btf, programs, maps, symbols })
}

/// Decodes the instructions of one program slice of a section.
fn decode_prog(
    bytes: &Vec<u8>,
    sec: &SectionHeader,
    value: u64,
    size: u64,
    section_index: u32,
    e: Endianness,
) -> (r: Result<Vec<Instruction>, ObjError>)
    requires
        value + size <= sec.size,
{
    if sec.offset > bytes.len() as u64 || sec.size > bytes.len() as u64 - sec.offset {
        return Err(ObjError::SectionOutOfRange { section_index });
    }
    if size % 8 != 0 {
        return Err(ObjError::InvalidProgramSize { section_index });
    }
    decode_insns(bytes, (sec.offset + value) as usize, size as usize, e, section_index)
}


/// Whether the relocation groups from `pos` to `end` are well formed:
/// each opens with a group header naming at least one record, its records
/// fit before `end`, and every record carries a known kind code.
pub open spec fn spec_ext_groups_ok(data: Seq<u8>, e: Endianness, pos: int, end: int) -> bool
    decreases end - pos,
{
    if pos >= end {
        true
    } else if end - pos < 8 {
        false
    } else {
        let num = crate::cursor::spec_u32_at(data, pos + 4, e) as int;
        if num < 1 {
            false
        } else if end - pos - 8 < 16 * num {
            false
        } else {
            &&& forall|j: int|
                0 <= j < num ==> spec_reloc_kind(
                    #[trigger] crate::cursor::spec_u32_at(data, pos + 8 + 16 * j + 12, e),
                ) is Some
            &&& spec_ext_groups_ok(data, e, pos + 8 + 16 * num, end)
        }
    }
}

/// Whether a whole extended type-debug blob is well formed: the fixed
/// header checks out and the relocation groups cover their section exactly.
pub open spec fn spec_btf_ext_ok(data: Seq<u8>, e: Endianness) -> bool {
    &&& data.len() >= 32
    &&& crate::cursor::spec_u16_at(data, 0, e) == crate::btf_codec::BTF_MAGIC
    &&& crate::cursor::spec_u32_at(data, 4, e) == 32
    &&& {
        let core_off = crate::cursor::spec_u32_at(data, 24, e) as int;
        let core_len = crate::cursor::spec_u32_at(data, 28, e) as int;
        core_len == 0 || {
            &&& core_len >= 4
            &&& core_len % 4 == 0
            &&& core_off + core_len + 32 <= data.len()
            &&& crate::cursor::spec_u32_at(data, 32 + core_off, e) == 16
            &&& spec_ext_groups_ok(data, e, 32 + core_off + 4, 32 + core_off + core_len)
        }
    }
}

/// Parses the extended type-debug section: per program section, the raw
/// relocation records, with each access-spec string resolved through the
/// graph's string table. A blob meeting the format is owed success.
#[verifier::loop_isolation(false)]
pub fn parse_btf_ext(data: &Vec<u8>, btf: &TypeGraph, e: Endianness) -> (r: Result<
    Vec<(Vec<u8>, Vec<CoreRelocation>)>,
    ObjError,
>)
    ensures
        r is Ok <==> spec_btf_ext_ok(data@, e),
{
    if data.len() < 32 {
        return Err(ObjError::BtfExt);
    }
    let magic = read_u16(data, 0, e);
    if magic != crate::btf_codec::BTF_MAGIC {
        return Err(ObjError::BtfExt);
    }
    let hdr_len = read_u32(data, 4, e);
    if hdr_len != 32 {
        return Err(ObjError::BtfExt);
    }
    let core_off = read_u32(data, 24, e);
    let core_len = read_u32(data, 28, e);
    if core_len == 0 {
        return Ok(Vec::new());
    }
    if core_len < 4 || core_len % 4 != 0 {
        return Err(ObjError::BtfExt);
    }
    if core_off as u64 + core_len as u64 + 32 > data.len() as u64 {
        return Err(ObjError::BtfExt);
    }
    let start = 32 + core_off as usize;
    let end = start + core_len as usize;
    let rec_size = read_u32(data, start, e);
    if rec_size != 16 {
        return Err(ObjError::BtfExt);
    }
    let mut out: Vec<(Vec<u8>, Vec<CoreRelocation>)> = Vec::new();
    let mut pos = start + 4;
    while pos < end
        invariant
            start + 4 <= pos <= end <= data@.len(),
            spec_ext_groups_ok(data@, e, start + 4, end as int) == spec_ext_groups_ok(
                data@,
                e,
                pos as int,
                end as int,
            ),
        decreases end - pos,
    {
        let ghost pos0: int = pos as int;
        if end - pos < 8 {
            return Err(ObjError::BtfExt);
        }
        let sec_name_off = read_u32(data, pos, e);
        let num_info = read_u32(data, pos + 4, e);
        pos = pos + 8;
        if num_info == 0 {
            return Err(ObjError::BtfExt);
        }
        let ghost group_start: int = pos as int;
        let sec_name = btf.string_at(sec_name_off);
        let mut rels: Vec<CoreRelocation> = Vec::new();
        let mut k: u32 = 0;
        while k < num_info
            invariant
                start + 4 <= pos <= end <= data@.len(),
                group_start <= pos,
                pos == group_start + 16 * k,
                k <= num_info,
                num_info == crate::cursor::spec_u32_at(data@, pos0 + 4, e),
                group_start == pos0 + 8,
                forall|j: int|
                    0 <= j < k ==> spec_reloc_kind(
                        #[trigger] crate::cursor::spec_u32_at(data@, group_start + 16 * j + 12, e),
                    ) is Some,
            decreases num_info - k,
        {
            if end - pos < 16 {
                proof {
                    assert(16 * (k as int) + 16 <= 16 * (num_info as int)) by (nonlinear_arith)
                        requires
                            k as int + 1 <= num_info as int,
                    ;
                    assert(end - pos0 - 8 < 16 * (num_info as int));
                    assert(!spec_ext_groups_ok(data@, e, pos0, end as int));
                }
                return Err(ObjError::BtfExt);
            }
            let insn_off = read_u32(data, pos, e);
            let type_id = read_u32(data, pos + 4, e);
            let access_off = read_u32(data, pos + 8, e);
            let kind_code = read_u32(data, pos + 12, e);
            let kind = match reloc_kind(kind_code) {
                Some(kind) => kind,
                None => {
                    proof {
                        assert(kind_code == crate::cursor::spec_u32_at(
                            data@,
                            group_start + 16 * (k as int) + 12,
                            e,
                        ));
                        assert(!spec_ext_groups_ok(data@, e, pos0, end as int));
                    }
                    return Err(ObjError::InvalidRelocationKind { kind: kind_code });
                },
            };
            pos = pos + 16;
            let access = btf.string_at(access_off);
            rels.push(CoreRelocation { insn_offset: insn_off, type_id, access, kind });
            k = k + 1;
        }
        proof {
            assert(pos == group_start + 16 * (num_info as int));
            assert(end as int - pos0 - 8 >= 16 * (num_info as int));
            assert(spec_ext_groups_ok(data@, e, pos0, end as int) == spec_ext_groups_ok(
                data@,
                e,
                pos as int,
                end as int,
            ));
        }
        out.push((sec_name, rels));
    }
    proof {
        assert(pos == end);
        assert(spec_ext_groups_ok(data@, e, pos as int, end as int));
    }
    Ok(out)
}

/// Whether the record at position `i` of a raw relocation section is
/// well formed: its byte offset falls on an instruction boundary and the
/// instruction index fits the record type.
pub open spec fn spec_rel_record_ok(data: Seq<u8>, e: Endianness, i: int) -> bool {
    let off = crate::cursor::spec_u64_at(data, 16 * i, e);
    off % 8 == 0 && off / 8 <= 0xFFFF_FFFF
}

/// The symbol reference stored at position `i` of a raw relocation section.
pub open spec fn spec_rel_record(data: Seq<u8>, e: Endianness, i: int) -> SymbolRef {
    SymbolRef {
        insn_index: (crate::cursor::spec_u64_at(data, 16 * i, e) / 8) as u32,
        symbol_index: (crate::cursor::spec_u64_at(data, 16 * i + 8, e) >> 32) as u32,
    }
}

/// Parses one raw relocation section into symbol references, each record
/// decoded exactly; a ragged length or a record off the instruction grid is
/// refused.
#[verifier::loop_isolation(false)]
pub fn parse_rel_section(data: &Vec<u8>, section_index: u32, e: Endianness) -> (r: Result<
    Vec<SymbolRef>,
    ObjError,
>)
    ensures
        r is Ok <==> data@.len() % 16 == 0 && forall|i: int|
            0 <= i < data@.len() / 16 ==> spec_rel_record_ok(data@, e, i),
        r is Err ==> r == Err::<Vec<SymbolRef>, ObjError>(
            ObjError::InvalidRelocation { section_index },
        ),
        r matches Ok(v) ==> v@.len() == data@.len() / 16 && forall|i: int|
            0 <= i < v@.len() ==> #[trigger] v@[i] == spec_rel_record(data@, e, i),
{
    if data.len() % 16 != 0 {
        return Err(ObjError::InvalidRelocation { section_index });
    }
    let count = data.len() / 16;
    let mut out: Vec<SymbolRef> = Vec::new();
    let mut i: usize = 0;
    while i < count
        invariant
            i <= count,
            count * 16 <= data@.len(),
            out@.len() == i,
            forall|j: int| 0 <= j < i ==> spec_rel_record_ok(data@, e, j),
            forall|j: int| 0 <= j < i ==> #[trigger] out@[j] == spec_rel_record(data@, e, j),
        decreases count - i,
    {
        proof {
            assert((i as int + 1) * 16 <= count as int * 16) by (nonlinear_arith)
                requires
                    i as int + 1 <= count as int,
            ;
        }
        let h = i * 16;
        let r_offset = read_u64(data, h, e);
        let r_info = read_u64(data, h + 8, e);
        proof {
            assert(r_offset == crate::cursor::spec_u64_at(data@, 16 * (i as int), e));
        }
        if r_offset % 8 != 0 {
            proof {
                assert(!spec_rel_record_ok(data@, e, i as int));
            }
            return Err(ObjError::InvalidRelocation { section_index });
        }
        let insn = r_offset / 8;
        if insn > 0xFFFF_FFFF {
            proof {
                assert(!spec_rel_record_ok(data@, e, i as int));
            }
            return Err(ObjError::InvalidRelocation { section_index });
        }
        let symbol = r_info >> 32;
        out.push(SymbolRef { insn_index: insn as u32, symbol_index: symbol as u32 });
        i = i + 1;
    }
    Ok(out)
}


/// Asking for work the object cannot support: a distinct kind, so a caller
/// can tell a broken object from a wrong request.
#[derive(Copy, Clone, Debug, PartialEq, Eq, Structural)]
pub enum RequestError {
    /// Relocation was requested but the object embeds no local type graph.
    NoLocalGraph,
    /// The combined type graphs exceed what this machine can walk.
    GraphTooLarge,
}

impl Object {
    /// Resolves every program's relocations against the target graph,
    /// patching or poisoning each program's own instruction buffer and
    /// returning one report per program. Without a local graph the request
    /// is refused outright and nothing changes.
    pub fn relocate_core(&mut self, target: &TypeGraph) -> (r: Result<
        Vec<Vec<RelocResult>>,
        RequestError,
    >)
        ensures
            old(self).btf is None <==> r == Err::<Vec<Vec<RelocResult>>, RequestError>(
                RequestError::NoLocalGraph,
            ),
            old(self).btf matches Some(local) && local.types@.len() <= 0x7FFF_FFFF
                && target.types@.len() <= 0x7FFF_FFFF ==> r is Ok,
            r is Err ==> *final(self) == *old(self),
            final(self).btf == old(self).btf,
            final(self).programs@.len() == old(self).programs@.len(),
            r matches Ok(reports) ==> {
                &&& reports@.len() == old(self).programs@.len()
                &&& old(self).btf matches Some(local) ==> forall|pi: int|
                    0 <= pi < old(self).programs@.len()
                        ==> (#[trigger] final(self).programs@[pi]).insns@ == spec_relocate_from(
                        local,
                        *target,
                        old(self).programs@[pi].insns@,
                        old(self).programs@[pi].core_relocations@,
                        0,
                        old(self).endianness,
                    )
            },
    {
        let local = match &self.btf {
            Some(g) => g,
            None => {
                return Err(RequestError::NoLocalGraph);
            },
        };
        if local.types.len() > 0x7FFF_FFFF || target.types.len() > 0x7FFF_FFFF {
            // Graphs of such size cannot come out of the 32-bit format.
            return Err(RequestError::GraphTooLarge);
        }
        let e = self.endianness;
        let mut reports: Vec<Vec<RelocResult>> = Vec::new();
        let n = self.programs.len();
        let mut pi: usize = 0;
        while pi < n
            invariant
                pi <= n,
                n == self.programs@.len(),
                reports@.len() == pi,
                self.btf == old(self).btf,
                self.endianness == old(self).endianness,
                e == old(self).endianness,
                old(self).btf matches Some(g) && g == *local,
                (local.types@.len() + target.types@.len() <= usize::MAX),
                forall|j: int|
                    0 <= j < n ==> (#[trigger] self.programs@[j]).core_relocations@ == old(
                        self,
                    ).programs@[j].core_relocations@,
                forall|j: int|
                    pi <= j < n ==> (#[trigger] self.programs@[j]).insns@ == old(
                        self,
                    ).programs@[j].insns@,
                forall|j: int|
                    0 <= j < pi ==> (#[trigger] self.programs@[j]).insns@ == spec_relocate_from(
                        *local,
                        *target,
                        old(self).programs@[j].insns@,
                        old(self).programs@[j].core_relocations@,
                        0,
                        e,
                    ),
            decreases n - pi,
        {
            let p = &mut self.programs[pi];
            let report = relocate_insns(&mut p.insns, local, target, &p.core_relocations, e);
            reports.push(report);
            pi = pi + 1;
        }
        Ok(reports)
    }
}

/// The name of the license section.
fn lit_license() -> Vec<u8> {
    let mut v: Vec<u8> = Vec::new();
    v.push(0x6C);
    v.push(0x69);
    v.push(0x63);
    v.push(0x65);
    v.push(0x6E);
    v.push(0x73);
    v.push(0x65);
    v
}

/// The name of the type-debug section.
fn lit_btf() -> Vec<u8> {
    let mut v: Vec<u8> = Vec::new();
    v.push(0x2E);
    v.push(0x42);
    v.push(0x54);
    v.push(0x46);
    v
}

/// The name of the extended type-debug section.
fn lit_btf_ext() -> Vec<u8> {
    let mut v: Vec<u8> = Vec::new();
    v.push(0x2E);
    v.push(0x42);
    v.push(0x54);
    v.push(0x46);
    v.push(0x2E);
    v.push(0x65);
    v.push(0x78);
    v.push(0x74);
    v
}

/// The name of the legacy map-definition section.
fn lit_maps() -> Vec<u8> {
    let mut v: Vec<u8> = Vec::new();
    v.push(0x6D);
    v.push(0x61);
    v.push(0x70);
    v.push(0x73);
    v
}

} // verus!
