use aya::btf::{EnumEntry, Member, TypeGraph, TypeNode};
use aya::btf_codec::{encode_btf, parse_btf, BtfError};
use aya::cursor::Endianness;
use aya::obj::{parse_object, ObjError, RequestError};
use aya::relocate::RelocOutcome;

fn add_str(strings: &mut Vec<u8>, s: &str) -> u32 {
    let off = strings.len() as u32;
    strings.extend_from_slice(s.as_bytes());
    strings.push(0);
    off
}

fn sample_graph() -> TypeGraph {
    let mut strings = vec![0u8];
    let int_name = add_str(&mut strings, "int");
    let foo = add_str(&mut strings, "foo");
    let a = add_str(&mut strings, "a");
    let b = add_str(&mut strings, "b");
    let state = add_str(&mut strings, "state");
    let on = add_str(&mut strings, "ON");
    let off = add_str(&mut strings, "OFF");
    let alias = add_str(&mut strings, "foo_t");
    TypeGraph {
        types: vec![
            TypeNode::Void,
            TypeNode::Integer { name_off: int_name, size: 4, signed: true, bits: 32 },
            TypeNode::Pointer { type_id: 1 },
            TypeNode::Array { elem_type_id: 1, index_type_id: 1, count: 3 },
            TypeNode::Struct {
                name_off: foo,
                size: 16,
                members: vec![
                    Member { name_off: a, type_id: 1, offset: 0 },
                    Member { name_off: b, type_id: 3, offset: 32 },
                ],
                kind_flag: false,
            },
            TypeNode::Enum {
                name_off: state,
                size: 4,
                signed: false,
                entries: vec![
                    EnumEntry { name_off: on, value: 1 },
                    EnumEntry { name_off: off, value: 0 },
                ],
            },
            TypeNode::Typedef { name_off: alias, type_id: 4 },
            TypeNode::Enum64 {
                name_off: state,
                size: 8,
                signed: true,
                entries: vec![EnumEntry { name_off: on, value: -5 }],
            },
        ],
        strings,
    }
}

/// Decoding a blob and re-encoding the graph gives back the identical
/// bytes, in either byte order.
#[test]
fn btf_reencoding_is_byte_identical() {
    for e in [Endianness::Little, Endianness::Big] {
        let g = sample_graph();
        let blob = encode_btf(&g, e).unwrap();
        let decoded = parse_btf(&blob, e).unwrap();
        let blob2 = encode_btf(&decoded, e).unwrap();
        assert_eq!(blob, blob2);
    }
}

#[test]
fn btf_parse_rejects_bad_blobs() {
    let g = sample_graph();
    let blob = encode_btf(&g, Endianness::Little).unwrap();

    assert!(matches!(
        parse_btf(&blob[..10].to_vec(), Endianness::Little),
        Err(BtfError::TruncatedHeader)
    ));

    let mut bad_magic = blob.clone();
    bad_magic[0] = 0;
    assert!(matches!(
        parse_btf(&bad_magic, Endianness::Little),
        Err(BtfError::InvalidMagic { .. })
    ));

    let mut bad_version = blob.clone();
    bad_version[2] = 9;
    assert!(matches!(
        parse_btf(&bad_version, Endianness::Little),
        Err(BtfError::InvalidVersion { version: 9 })
    ));

    // A record whose tail runs past the declared type-section length.
    let mut truncated = blob.clone();
    truncated[12] = 4; // shrink type_len to one quarter of a record
    assert!(parse_btf(&truncated, Endianness::Little).is_err());
}

/// A pointer may reference a later id only through a forward declaration;
/// a bare forward reference is rejected.
#[test]
fn btf_parse_rejects_forward_references() {
    let mut strings = vec![0u8];
    let _ = add_str(&mut strings, "x");
    let g = TypeGraph {
        types: vec![TypeNode::Void, TypeNode::Pointer { type_id: 2 }],
        strings,
    };
    // The encoder refuses the graph outright: it is not well formed.
    assert!(encode_btf(&g, Endianness::Little).is_none());
}

// --- a minimal container for the decomposer ---------------------------------

struct ElfBuilder {
    /// (name, sh_type, flags, link, info, data)
    sections: Vec<(String, u32, u64, u32, u32, Vec<u8>)>,
}

impl ElfBuilder {
    fn build(self) -> Vec<u8> {
        let mut shstrtab = vec![0u8];
        let mut name_offs = Vec::new();
        for (name, ..) in &self.sections {
            name_offs.push(shstrtab.len() as u32);
            shstrtab.extend_from_slice(name.as_bytes());
            shstrtab.push(0);
        }
        let shstr_name = shstrtab.len() as u32;
        shstrtab.extend_from_slice(b".shstrtab\0");

        let shnum = self.sections.len() + 2; // null + shstrtab
        let mut data_off = 64usize;
        let mut offsets = Vec::new();
        let mut bodies: Vec<Vec<u8>> = Vec::new();
        for (_, _, _, _, _, data) in &self.sections {
            offsets.push(data_off);
            bodies.push(data.clone());
            data_off += data.len();
        }
        let shstr_off = data_off;
        data_off += shstrtab.len();
        let shoff = data_off;

        let mut out = vec![0u8; 64];
        out[0] = 0x7F;
        out[1] = 0x45;
        out[2] = 0x4C;
        out[3] = 0x46;
        out[4] = 2; // 64-bit
        out[5] = 1; // little endian
        out[0x28..0x30].copy_from_slice(&(shoff as u64).to_le_bytes());
        out[0x3A..0x3C].copy_from_slice(&64u16.to_le_bytes());
        out[0x3C..0x3E].copy_from_slice(&(shnum as u16).to_le_bytes());
        out[0x3E..0x40].copy_from_slice(&((shnum - 1) as u16).to_le_bytes());
        for body in bodies {
            out.extend_from_slice(&body);
        }
        out.extend_from_slice(&shstrtab);

        // Section header table: the null entry first.
        out.extend_from_slice(&[0u8; 64]);
        for (i, (_, sh_type, flags, link, info, data)) in self.sections.iter().enumerate() {
            out.extend_from_slice(&sh_header(
                name_offs[i],
                *sh_type,
                *flags,
                offsets[i] as u64,
                data.len() as u64,
                *link,
                *info,
            ));
        }
        out.extend_from_slice(&sh_header(
            shstr_name,
            3,
            0,
            shstr_off as u64,
            shstrtab.len() as u64,
            0,
            0,
        ));
        out
    }
}

fn sh_header(name: u32, sh_type: u32, flags: u64, offset: u64, size: u64, link: u32, info: u32) -> [u8; 64] {
    let mut h = [0u8; 64];
    h[0..4].copy_from_slice(&name.to_le_bytes());
    h[4..8].copy_from_slice(&sh_type.to_le_bytes());
    h[8..16].copy_from_slice(&flags.to_le_bytes());
    h[0x18..0x20].copy_from_slice(&offset.to_le_bytes());
    h[0x20..0x28].copy_from_slice(&size.to_le_bytes());
    h[0x28..0x2C].copy_from_slice(&link.to_le_bytes());
    h[0x2C..0x30].copy_from_slice(&info.to_le_bytes());
    h[0x38..0x40].copy_from_slice(&8u64.to_le_bytes());
    h
}

fn symbol(name: u32, shndx: u16, value: u64, size: u64) -> Vec<u8> {
    let mut s = vec![0u8; 24];
    s[0..4].copy_from_slice(&name.to_le_bytes());
    s[6..8].copy_from_slice(&shndx.to_le_bytes());
    s[8..16].copy_from_slice(&value.to_le_bytes());
    s[16..24].copy_from_slice(&size.to_le_bytes());
    s
}

#[test]
fn object_decomposition() {
    // A mov-immediate and an exit instruction.
    let prog_bytes: Vec<u8> = [
        [0xB7u8, 0, 0, 0, 42, 0, 0, 0],
        [0x95u8, 0, 0, 0, 0, 0, 0, 0],
    ]
    .concat();
    let mut strtab = vec![0u8];
    let fn_name_off = strtab.len() as u32;
    strtab.extend_from_slice(b"bpf_prog\0");
    let mut symtab = symbol(0, 0, 0, 0);
    symtab.extend_from_slice(&symbol(fn_name_off, 2, 0, 16));

    let bytes = ElfBuilder {
        sections: vec![
            ("license".to_string(), 1, 0, 0, 0, b"GPL\0".to_vec()),
            ("tracepoint/prog".to_string(), 1, 6, 0, 0, prog_bytes),
            (".symtab".to_string(), 2, 0, 4, 0, symtab),
            (".strtab".to_string(), 3, 0, 0, 0, strtab),
        ],
    }
    .build();

    let obj = parse_object(&bytes).unwrap();
    assert_eq!(obj.license, b"GPL\0".to_vec());
    assert_eq!(obj.programs.len(), 1);
    let prog = &obj.programs[0];
    assert_eq!(prog.name, b"bpf_prog".to_vec());
    assert_eq!(prog.section_name, b"tracepoint/prog".to_vec());
    assert_eq!(prog.insns.len(), 2);
    assert_eq!(prog.insns[0].opcode, 0xB7);
    assert_eq!(prog.insns[0].imm, 42);
    assert_eq!(prog.insns[1].opcode, 0x95);
    assert!(obj.btf.is_none());
}

#[test]
fn object_rejects_bad_containers() {
    assert!(matches!(
        parse_object(&vec![0u8; 10]),
        Err(ObjError::TruncatedHeader)
    ));
    let mut junk = vec![0u8; 100];
    junk[0] = 0x7F;
    junk[1] = 0x45;
    junk[2] = 0x4C;
    junk[3] = 0x46;
    junk[4] = 1; // 32-bit: refused
    assert!(matches!(parse_object(&junk), Err(ObjError::UnsupportedClass)));
}

/// A program section whose byte length is not a multiple of the
/// instruction width is refused.
#[test]
fn object_rejects_ragged_program_sections() {
    let bytes = ElfBuilder {
        sections: vec![("uprobe/p".to_string(), 1, 6, 0, 0, vec![0u8; 12])],
    }
    .build();
    assert!(matches!(
        parse_object(&bytes),
        Err(ObjError::InvalidProgramSize { .. })
    ));
}

fn btf_ext_blob(sec_name_off: u32, insn_off: u32, type_id: u32, access_off: u32, kind: u32) -> Vec<u8> {
    let mut ext = Vec::new();
    ext.extend_from_slice(&0xEB9Fu16.to_le_bytes());
    ext.push(1); // version
    ext.push(0); // flags
    ext.extend_from_slice(&32u32.to_le_bytes()); // hdr_len
    ext.extend_from_slice(&0u32.to_le_bytes()); // func_info_off
    ext.extend_from_slice(&0u32.to_le_bytes()); // func_info_len
    ext.extend_from_slice(&0u32.to_le_bytes()); // line_info_off
    ext.extend_from_slice(&0u32.to_le_bytes()); // line_info_len
    ext.extend_from_slice(&0u32.to_le_bytes()); // core_relo_off
    ext.extend_from_slice(&28u32.to_le_bytes()); // core_relo_len
    ext.extend_from_slice(&16u32.to_le_bytes()); // record size
    ext.extend_from_slice(&sec_name_off.to_le_bytes());
    ext.extend_from_slice(&1u32.to_le_bytes()); // one record
    ext.extend_from_slice(&insn_off.to_le_bytes());
    ext.extend_from_slice(&type_id.to_le_bytes());
    ext.extend_from_slice(&access_off.to_le_bytes());
    ext.extend_from_slice(&kind.to_le_bytes());
    ext
}

/// The whole pipeline: decompose the container, then resolve its one
/// relocation against a target whose members are reordered.
#[test]
fn end_to_end_relocation() {
    // Local: struct foo { a: int, b: int } — b at byte 4.
    let mut strings = vec![0u8];
    let int_name = add_str(&mut strings, "int");
    let foo = add_str(&mut strings, "foo");
    let a = add_str(&mut strings, "a");
    let b = add_str(&mut strings, "b");
    let sec = add_str(&mut strings, "tracepoint/prog");
    let access = add_str(&mut strings, "0:1");
    let local = TypeGraph {
        types: vec![
            TypeNode::Void,
            TypeNode::Integer { name_off: int_name, size: 4, signed: true, bits: 32 },
            TypeNode::Struct {
                name_off: foo,
                size: 8,
                members: vec![
                    Member { name_off: a, type_id: 1, offset: 0 },
                    Member { name_off: b, type_id: 1, offset: 32 },
                ],
                kind_flag: false,
            },
        ],
        strings,
    };
    let btf_blob = encode_btf(&local, Endianness::Little).unwrap();
    let ext_blob = btf_ext_blob(sec, 0, 2, access, 0);

    let prog_bytes: Vec<u8> = [
        [0xB7u8, 0, 0, 0, 4, 0, 0, 0], // compiled with the local offset of b
        [0x95u8, 0, 0, 0, 0, 0, 0, 0],
    ]
    .concat();
    let mut strtab = vec![0u8];
    let fn_name_off = strtab.len() as u32;
    strtab.extend_from_slice(b"bpf_prog\0");
    let mut symtab = symbol(0, 0, 0, 0);
    symtab.extend_from_slice(&symbol(fn_name_off, 2, 0, 16));

    let bytes = ElfBuilder {
        sections: vec![
            ("license".to_string(), 1, 0, 0, 0, b"GPL\0".to_vec()),
            ("tracepoint/prog".to_string(), 1, 6, 0, 0, prog_bytes),
            (".symtab".to_string(), 2, 0, 4, 0, symtab),
            (".strtab".to_string(), 3, 0, 0, 0, strtab),
            (".BTF".to_string(), 1, 0, 0, 0, btf_blob),
            (".BTF.ext".to_string(), 1, 0, 0, 0, ext_blob),
        ],
    }
    .build();

    let mut obj = parse_object(&bytes).unwrap();
    assert!(obj.btf.is_some());
    assert_eq!(obj.programs.len(), 1);
    assert_eq!(obj.programs[0].core_relocations.len(), 1);
    assert_eq!(obj.programs[0].core_relocations[0].access, b"0:1".to_vec());

    // Target: struct foo { b: int, a: int } — b moved to byte 0.
    let mut tstrings = vec![0u8];
    let t_int = add_str(&mut tstrings, "int");
    let t_foo = add_str(&mut tstrings, "foo");
    let t_b = add_str(&mut tstrings, "b");
    let t_a = add_str(&mut tstrings, "a");
    let target = TypeGraph {
        types: vec![
            TypeNode::Void,
            TypeNode::Integer { name_off: t_int, size: 4, signed: true, bits: 32 },
            TypeNode::Struct {
                name_off: t_foo,
                size: 8,
                members: vec![
                    Member { name_off: t_b, type_id: 1, offset: 0 },
                    Member { name_off: t_a, type_id: 1, offset: 32 },
                ],
                kind_flag: false,
            },
        ],
        strings: tstrings,
    };

    let reports = obj.relocate_core(&target).unwrap();
    assert_eq!(reports.len(), 1);
    assert!(matches!(reports[0][0].outcome, RelocOutcome::Patched { value: 0 }));
    assert_eq!(obj.programs[0].insns[0].imm, 0);
    assert_eq!(obj.programs[0].insns[1].opcode, 0x95);

    // Without a local graph the request is refused with a distinct kind.
    obj.btf = None;
    assert!(matches!(
        obj.relocate_core(&target),
        Err(RequestError::NoLocalGraph)
    ));
}
