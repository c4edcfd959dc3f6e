use aya::access::AccessError;
use aya::btf::{EnumEntry, Member, TypeGraph, TypeNode};
use aya::cursor::Endianness;
use aya::insn::Instruction;
use aya::relocate::{relocate_insns, CoreRelocation, RelocOutcome, RelocationKind};

fn add_str(strings: &mut Vec<u8>, s: &str) -> u32 {
    let off = strings.len() as u32;
    strings.extend_from_slice(s.as_bytes());
    strings.push(0);
    off
}

fn mov_imm(imm: i32) -> Instruction {
    Instruction { opcode: 0xB7, dst_reg: 0, src_reg: 0, offset: 0, imm }
}

/// struct pkt { flags: u16 (bits 0..16), tiny: u16:3 (bits 16..19), wide: u64 }
fn bitfield_graph() -> TypeGraph {
    let mut strings = vec![0u8];
    let u16n = add_str(&mut strings, "__u16");
    let u64n = add_str(&mut strings, "__u64");
    let pkt = add_str(&mut strings, "pkt");
    let flags = add_str(&mut strings, "flags");
    let tiny = add_str(&mut strings, "tiny");
    let wide = add_str(&mut strings, "wide");
    TypeGraph {
        types: vec![
            TypeNode::Void,
            TypeNode::Integer { name_off: u16n, size: 2, signed: false, bits: 16 },
            TypeNode::Integer { name_off: u64n, size: 8, signed: true, bits: 64 },
            TypeNode::Struct {
                name_off: pkt,
                size: 16,
                members: vec![
                    Member { name_off: flags, type_id: 1, offset: 0 },
                    // kind_flag encoding: bitfield width 3 in the high byte.
                    Member { name_off: tiny, type_id: 1, offset: (3 << 24) | 16 },
                    Member { name_off: wide, type_id: 2, offset: 64 },
                ],
                kind_flag: true,
            },
        ],
        strings,
    }
}

fn run_one(local: &TypeGraph, target: &TypeGraph, access: &str, kind: RelocationKind) -> RelocOutcome {
    let mut insns = vec![mov_imm(0)];
    let rels = vec![CoreRelocation {
        insn_offset: 0,
        type_id: 3,
        access: access.as_bytes().to_vec(),
        kind,
    }];
    let report = relocate_insns(&mut insns, local, target, &rels, Endianness::Little);
    report[0].outcome
}

#[test]
fn field_kind_values() {
    let g = bitfield_graph();

    // Plain field: byte offset, size and signedness of `wide`.
    assert!(matches!(
        run_one(&g, &g, "0:2", RelocationKind::FieldByteOffset),
        RelocOutcome::Patched { value: 8 }
    ));
    assert!(matches!(
        run_one(&g, &g, "0:2", RelocationKind::FieldByteSize),
        RelocOutcome::Patched { value: 8 }
    ));
    assert!(matches!(
        run_one(&g, &g, "0:2", RelocationKind::FieldSigned),
        RelocOutcome::Patched { value: 1 }
    ));
    assert!(matches!(
        run_one(&g, &g, "0:0", RelocationKind::FieldSigned),
        RelocOutcome::Patched { value: 0 }
    ));

    // Plain field shifts: a two-byte load of `flags` at bit 0 of its
    // container gives a left shift of 48 and a right shift of 48.
    assert!(matches!(
        run_one(&g, &g, "0:0", RelocationKind::FieldLeftShift),
        RelocOutcome::Patched { value: 48 }
    ));
    assert!(matches!(
        run_one(&g, &g, "0:0", RelocationKind::FieldRightShift),
        RelocOutcome::Patched { value: 48 }
    ));

    // Bitfield `tiny`: three bits at bit 16 of a two-byte container that
    // starts at byte 2; isolating them in 64 bits needs 64-(16+3-16)=61
    // left and 64-3=61 right.
    assert!(matches!(
        run_one(&g, &g, "0:1", RelocationKind::FieldLeftShift),
        RelocOutcome::Patched { value: 61 }
    ));
    assert!(matches!(
        run_one(&g, &g, "0:1", RelocationKind::FieldRightShift),
        RelocOutcome::Patched { value: 61 }
    ));
    // The bitfield's byte offset is its container's start.
    assert!(matches!(
        run_one(&g, &g, "0:1", RelocationKind::FieldByteOffset),
        RelocOutcome::Patched { value: 2 }
    ));
}

#[test]
fn type_kind_values() {
    let g = bitfield_graph();

    // A target with the struct pushed to a higher id.
    let mut strings = vec![0u8];
    let u16n = add_str(&mut strings, "__u16");
    let u64n = add_str(&mut strings, "__u64");
    let pad = add_str(&mut strings, "padding");
    let pkt = add_str(&mut strings, "pkt");
    let flags = add_str(&mut strings, "flags");
    let target = TypeGraph {
        types: vec![
            TypeNode::Void,
            TypeNode::Integer { name_off: pad, size: 4, signed: false, bits: 32 },
            TypeNode::Integer { name_off: u16n, size: 2, signed: false, bits: 16 },
            TypeNode::Integer { name_off: u64n, size: 8, signed: true, bits: 64 },
            TypeNode::Struct {
                name_off: pkt,
                size: 24,
                members: vec![Member { name_off: flags, type_id: 2, offset: 0 }],
                kind_flag: false,
            },
        ],
        strings,
    };

    assert!(matches!(
        run_one(&g, &target, "0", RelocationKind::TypeIdLocal),
        RelocOutcome::Patched { value: 3 }
    ));
    assert!(matches!(
        run_one(&g, &target, "0", RelocationKind::TypeIdTarget),
        RelocOutcome::Patched { value: 4 }
    ));
    assert!(matches!(
        run_one(&g, &target, "0", RelocationKind::TypeSize),
        RelocOutcome::Patched { value: 24 }
    ));
    assert!(matches!(
        run_one(&g, &target, "0", RelocationKind::TypeExists),
        RelocOutcome::Patched { value: 1 }
    ));

    // A target without the type: exists says 0, the id query poisons.
    let empty = TypeGraph { types: vec![TypeNode::Void], strings: vec![0u8] };
    assert!(matches!(
        run_one(&g, &empty, "0", RelocationKind::TypeExists),
        RelocOutcome::Patched { value: 0 }
    ));
    assert!(matches!(
        run_one(&g, &empty, "0", RelocationKind::TypeIdTarget),
        RelocOutcome::Poisoned
    ));
}

fn enum_graph(name: &str, value: i64) -> TypeGraph {
    let mut strings = vec![0u8];
    let foo = add_str(&mut strings, "foo");
    let d = add_str(&mut strings, name);
    TypeGraph {
        types: vec![
            TypeNode::Void,
            TypeNode::Enum {
                name_off: foo,
                size: 4,
                signed: false,
                entries: vec![EnumEntry { name_off: d, value }],
            },
        ],
        strings,
    }
}

#[test]
fn enum_kind_values() {
    let local = enum_graph("D", 1);
    let target = enum_graph("D", 9);
    let missing = enum_graph("OTHER", 9);

    let mut insns = vec![mov_imm(1), mov_imm(0)];
    let rels = vec![CoreRelocation {
        insn_offset: 0,
        type_id: 1,
        access: b"0".to_vec(),
        kind: RelocationKind::EnumExists,
    }];
    let report = relocate_insns(&mut insns, &local, &target, &rels, Endianness::Little);
    assert!(matches!(report[0].outcome, RelocOutcome::Patched { value: 1 }));

    let mut insns = vec![mov_imm(1), mov_imm(0)];
    let rels = vec![CoreRelocation {
        insn_offset: 0,
        type_id: 1,
        access: b"0".to_vec(),
        kind: RelocationKind::EnumExists,
    }];
    let report = relocate_insns(&mut insns, &local, &missing, &rels, Endianness::Little);
    assert!(matches!(report[0].outcome, RelocOutcome::Patched { value: 0 }));
    // Existence queries never poison: the instruction stays an ordinary move.
    assert_eq!(insns[0].opcode, 0xB7);

    // The value query against the entry-less enum poisons instead.
    let mut insns = vec![mov_imm(1), mov_imm(0)];
    let rels = vec![CoreRelocation {
        insn_offset: 0,
        type_id: 1,
        access: b"0".to_vec(),
        kind: RelocationKind::EnumValue,
    }];
    let report = relocate_insns(&mut insns, &local, &missing, &rels, Endianness::Little);
    assert!(matches!(report[0].outcome, RelocOutcome::Poisoned));
}

#[test]
fn failed_relocations_write_nothing() {
    let g = bitfield_graph();

    // An unparsable access string fails only that relocation.
    let mut insns = vec![mov_imm(7)];
    let rels = vec![CoreRelocation {
        insn_offset: 0,
        type_id: 3,
        access: b"0:x".to_vec(),
        kind: RelocationKind::FieldByteOffset,
    }];
    let report = relocate_insns(&mut insns, &g, &g, &rels, Endianness::Little);
    assert!(matches!(
        report[0].outcome,
        RelocOutcome::Failed { err: AccessError::InvalidAccessString }
    ));
    assert_eq!(insns[0], mov_imm(7));

    // A step into a scalar type fails with the unsuitable type named.
    let mut insns = vec![mov_imm(7)];
    let rels = vec![CoreRelocation {
        insn_offset: 0,
        type_id: 3,
        access: b"0:0:1".to_vec(),
        kind: RelocationKind::FieldByteOffset,
    }];
    let report = relocate_insns(&mut insns, &g, &g, &rels, Endianness::Little);
    assert!(matches!(
        report[0].outcome,
        RelocOutcome::Failed { err: AccessError::NotComposite { type_id: 1 } }
    ));

    // A relocation pointing past the buffer cannot patch or poison.
    let mut insns = vec![mov_imm(7)];
    let rels = vec![CoreRelocation {
        insn_offset: 8,
        type_id: 3,
        access: b"0:0".to_vec(),
        kind: RelocationKind::FieldByteOffset,
    }];
    let report = relocate_insns(&mut insns, &g, &g, &rels, Endianness::Little);
    assert!(matches!(
        report[0].outcome,
        RelocOutcome::Failed { err: AccessError::MissingInstruction { index: 1 } }
    ));
    assert_eq!(insns[0], mov_imm(7));

    // So does one whose byte offset splits an instruction.
    let mut insns = vec![mov_imm(7)];
    let rels = vec![CoreRelocation {
        insn_offset: 4,
        type_id: 3,
        access: b"0:0".to_vec(),
        kind: RelocationKind::FieldByteOffset,
    }];
    let report = relocate_insns(&mut insns, &g, &g, &rels, Endianness::Little);
    assert!(matches!(
        report[0].outcome,
        RelocOutcome::Failed { err: AccessError::MissingInstruction { .. } }
    ));
    assert_eq!(insns[0], mov_imm(7));

    // An invalid root id names itself in the failure.
    let mut insns = vec![mov_imm(7)];
    let rels = vec![CoreRelocation {
        insn_offset: 0,
        type_id: 77,
        access: b"0:0".to_vec(),
        kind: RelocationKind::FieldByteOffset,
    }];
    let report = relocate_insns(&mut insns, &g, &g, &rels, Endianness::Little);
    assert!(matches!(
        report[0].outcome,
        RelocOutcome::Failed { err: AccessError::InvalidTypeId { type_id: 77 } }
    ));
}

/// An anonymous union member is matched positionally by structural
/// equality, and the walk continues inside it by name, even when the
/// target graph numbers its types differently.
#[test]
fn anonymous_member_matching() {
    fn graph(with_padding: bool) -> TypeGraph {
        let mut strings = vec![0u8];
        let pad_name = add_str(&mut strings, "pad");
        let u32n = add_str(&mut strings, "__u32");
        let outer = add_str(&mut strings, "outer");
        let x = add_str(&mut strings, "x");
        let y = add_str(&mut strings, "y");
        let lead = add_str(&mut strings, "lead");
        let mut types = vec![TypeNode::Void];
        let base: u32 = if with_padding {
            types.push(TypeNode::Integer { name_off: pad_name, size: 8, signed: true, bits: 64 });
            2
        } else {
            1
        };
        types.push(TypeNode::Integer { name_off: u32n, size: 4, signed: false, bits: 32 });
        types.push(TypeNode::Union {
            name_off: 0,
            size: 4,
            members: vec![
                Member { name_off: x, type_id: base, offset: 0 },
                Member { name_off: y, type_id: base, offset: 0 },
            ],
            kind_flag: false,
        });
        types.push(TypeNode::Struct {
            name_off: outer,
            size: 8,
            members: vec![
                Member { name_off: lead, type_id: base, offset: 0 },
                Member { name_off: 0, type_id: base + 1, offset: 32 },
            ],
            kind_flag: false,
        });
        TypeGraph { types, strings }
    }
    let local = graph(false);
    let target = graph(true);
    let mut insns = vec![mov_imm(0)];
    let rels = vec![CoreRelocation {
        insn_offset: 0,
        type_id: 3,
        access: b"0:1:1".to_vec(),
        kind: RelocationKind::FieldByteOffset,
    }];
    let report = relocate_insns(&mut insns, &local, &target, &rels, Endianness::Little);
    assert!(matches!(report[0].outcome, RelocOutcome::Patched { value: 4 }));
}
