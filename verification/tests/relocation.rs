use aya::access::{parse_access, resolve_access, AccessError};
use aya::btf::{EnumEntry, Member, TypeGraph, TypeNode};
use aya::cursor::Endianness;
use aya::insn::{Instruction, CALL_OPCODE, POISON_CALL_IMM};
use aya::relocate::{relocate_insns, CoreRelocation, RelocOutcome, RelocationKind};

fn add_str(strings: &mut Vec<u8>, s: &str) -> u32 {
    let off = strings.len() as u32;
    strings.extend_from_slice(s.as_bytes());
    strings.push(0);
    off
}

fn u8_type(name_off: u32) -> TypeNode {
    TypeNode::Integer {
        name_off,
        size: 1,
        signed: false,
        bits: 8,
    }
}

fn member(name_off: u32, type_id: u32, bit_offset: u32) -> Member {
    Member {
        name_off,
        type_id,
        offset: bit_offset,
    }
}

fn mov_imm(imm: i32) -> Instruction {
    Instruction {
        opcode: 0xB7,
        dst_reg: 0,
        src_reg: 0,
        offset: 0,
        imm,
    }
}

/// Local `struct foo { a, b, c, d }` of four one-byte members.
fn local_foo() -> TypeGraph {
    let mut strings = vec![0u8];
    let foo = add_str(&mut strings, "foo");
    let u8n = add_str(&mut strings, "__u8");
    let a = add_str(&mut strings, "a");
    let b = add_str(&mut strings, "b");
    let c = add_str(&mut strings, "c");
    let d = add_str(&mut strings, "d");
    TypeGraph {
        types: vec![
            TypeNode::Void,
            u8_type(u8n),
            TypeNode::Struct {
                name_off: foo,
                size: 4,
                members: vec![
                    member(a, 1, 0),
                    member(b, 1, 8),
                    member(c, 1, 16),
                    member(d, 1, 24),
                ],
                kind_flag: false,
            },
        ],
        strings,
    }
}

/// Target `struct foo { a, c, b, d }`: members b and c swapped.
fn target_foo_swapped() -> TypeGraph {
    let mut strings = vec![0u8];
    let foo = add_str(&mut strings, "foo");
    let u8n = add_str(&mut strings, "__u8");
    let a = add_str(&mut strings, "a");
    let c = add_str(&mut strings, "c");
    let b = add_str(&mut strings, "b");
    let d = add_str(&mut strings, "d");
    TypeGraph {
        types: vec![
            TypeNode::Void,
            u8_type(u8n),
            TypeNode::Struct {
                name_off: foo,
                size: 4,
                members: vec![
                    member(a, 1, 0),
                    member(c, 1, 8),
                    member(b, 1, 16),
                    member(d, 1, 24),
                ],
                kind_flag: false,
            },
        ],
        strings,
    }
}

fn offset_reloc(access: &str, kind: RelocationKind) -> CoreRelocation {
    CoreRelocation {
        insn_offset: 0,
        type_id: 2,
        access: access.as_bytes().to_vec(),
        kind,
    }
}

#[test]
fn relocate_field() {
    let local = local_foo();
    let target = target_foo_swapped();

    // Member c sits at byte 2 locally but at byte 1 in the reordered target.
    let mut insns = vec![mov_imm(2)];
    let rels = vec![offset_reloc("0:2", RelocationKind::FieldByteOffset)];
    let report = relocate_insns(&mut insns, &local, &target, &rels, Endianness::Little);
    assert_eq!(insns[0].imm, 1);
    assert!(matches!(report[0].outcome, RelocOutcome::Patched { value: 1 }));

    // Member b sits at byte 1 locally but at byte 2 in the reordered target.
    let mut insns = vec![mov_imm(1)];
    let rels = vec![offset_reloc("0:1", RelocationKind::FieldByteOffset)];
    relocate_insns(&mut insns, &local, &target, &rels, Endianness::Little);
    assert_eq!(insns[0].imm, 2);

    // Against an identical layout the compiled offsets stay.
    let mut insns = vec![mov_imm(2)];
    let rels = vec![offset_reloc("0:2", RelocationKind::FieldByteOffset)];
    relocate_insns(&mut insns, &local, &local, &rels, Endianness::Little);
    assert_eq!(insns[0].imm, 2);
}

fn enum_graph(value: i64) -> TypeGraph {
    let mut strings = vec![0u8];
    let foo = add_str(&mut strings, "foo");
    let d = add_str(&mut strings, "D");
    TypeGraph {
        types: vec![
            TypeNode::Void,
            TypeNode::Enum {
                name_off: foo,
                size: 4,
                signed: false,
                entries: vec![EnumEntry { name_off: d, value }],
            },
        ],
        strings,
    }
}

#[test]
fn relocate_enum() {
    let local = enum_graph(1);
    let target = enum_graph(4);

    // The enum-value kind patches a two-instruction wide immediate load.
    let mut insns = vec![mov_imm(1), mov_imm(0)];
    let rels = vec![CoreRelocation {
        insn_offset: 0,
        type_id: 1,
        access: b"0".to_vec(),
        kind: RelocationKind::EnumValue,
    }];
    let report = relocate_insns(&mut insns, &local, &target, &rels, Endianness::Little);
    assert_eq!(insns[0].imm, 4);
    assert_eq!(insns[1].imm, 0);
    assert!(matches!(report[0].outcome, RelocOutcome::Patched { value: 4 }));

    // With no target graph supplied no relocation is performed: the
    // compiled local value stays in place.
    let insns = vec![mov_imm(1), mov_imm(0)];
    assert_eq!(insns[0].imm, 1);
}

#[test]
fn relocate_pointer() {
    // struct bar { struct foo *f; }: the pointer member resolves at byte 0
    // whether or not a target graph differs, and matching stops at the
    // pointer so the self-shaped graphs agree.
    let mut strings = vec![0u8];
    let foo = add_str(&mut strings, "foo");
    let bar = add_str(&mut strings, "bar");
    let f = add_str(&mut strings, "f");
    let graph = TypeGraph {
        types: vec![
            TypeNode::Void,
            TypeNode::Struct {
                name_off: foo,
                size: 0,
                members: vec![],
                kind_flag: false,
            },
            TypeNode::Pointer { type_id: 1 },
            TypeNode::Struct {
                name_off: bar,
                size: 8,
                members: vec![member(f, 2, 0)],
                kind_flag: false,
            },
        ],
        strings,
    };
    let mut insns = vec![mov_imm(0)];
    let rels = vec![CoreRelocation {
        insn_offset: 0,
        type_id: 3,
        access: b"0:0".to_vec(),
        kind: RelocationKind::FieldByteOffset,
    }];
    let report = relocate_insns(&mut insns, &graph, &graph, &rels, Endianness::Little);
    assert_eq!(insns[0].imm, 0);
    assert!(matches!(report[0].outcome, RelocOutcome::Patched { value: 0 }));
}

/// A target lacking the member poisons exactly the relocation's own
/// instruction; every other instruction stays untouched.
#[test]
fn poison_only_the_missing_access() {
    let local = local_foo();
    // Target struct foo has member a only: b, c, d are gone.
    let mut strings = vec![0u8];
    let foo = add_str(&mut strings, "foo");
    let u8n = add_str(&mut strings, "__u8");
    let a = add_str(&mut strings, "a");
    let target = TypeGraph {
        types: vec![
            TypeNode::Void,
            u8_type(u8n),
            TypeNode::Struct {
                name_off: foo,
                size: 1,
                members: vec![member(a, 1, 0)],
                kind_flag: false,
            },
        ],
        strings,
    };

    let mut insns = vec![mov_imm(7), mov_imm(1), mov_imm(9)];
    let rels = vec![CoreRelocation {
        insn_offset: 8,
        type_id: 2,
        access: b"0:1".to_vec(),
        kind: RelocationKind::FieldByteOffset,
    }];
    let report = relocate_insns(&mut insns, &local, &target, &rels, Endianness::Little);
    assert!(matches!(report[0].outcome, RelocOutcome::Poisoned));
    assert_eq!(insns[0], mov_imm(7));
    assert_eq!(insns[2], mov_imm(9));
    assert_eq!(insns[1].opcode, CALL_OPCODE);
    assert_eq!(insns[1].imm, POISON_CALL_IMM);
}

/// Existence queries always patch 0 or 1 and never poison.
#[test]
fn exists_kinds_never_poison() {
    let local = local_foo();
    let mut strings = vec![0u8];
    let _ = add_str(&mut strings, "unrelated");
    let empty_target = TypeGraph {
        types: vec![TypeNode::Void],
        strings,
    };

    let mut insns = vec![mov_imm(1)];
    let rels = vec![offset_reloc("0:1", RelocationKind::FieldExists)];
    let report = relocate_insns(&mut insns, &local, &empty_target, &rels, Endianness::Little);
    assert!(matches!(report[0].outcome, RelocOutcome::Patched { value: 0 }));
    assert_eq!(insns[0].imm, 0);
    assert_eq!(insns[0].opcode, 0xB7);

    let mut insns = vec![mov_imm(0)];
    let rels = vec![offset_reloc("0:1", RelocationKind::FieldExists)];
    let report = relocate_insns(&mut insns, &local, &local_foo(), &rels, Endianness::Little);
    assert!(matches!(report[0].outcome, RelocOutcome::Patched { value: 1 }));
    assert_eq!(insns[0].imm, 1);
}

/// Running the same relocations twice leaves a bit-identical buffer.
#[test]
fn relocation_is_idempotent() {
    let local = local_foo();
    let target = target_foo_swapped();
    let rels = vec![
        offset_reloc("0:1", RelocationKind::FieldByteOffset),
        CoreRelocation {
            insn_offset: 8,
            type_id: 2,
            access: b"0:9".to_vec(),
            kind: RelocationKind::FieldByteOffset,
        },
    ];
    let mut once = vec![mov_imm(1), mov_imm(5), mov_imm(3)];
    relocate_insns(&mut once, &local, &target, &rels, Endianness::Little);
    let mut twice = once.clone();
    relocate_insns(&mut twice, &local, &target, &rels, Endianness::Little);
    assert_eq!(once, twice);
}

/// Renumbering the target's type ids while keeping names and shapes does
/// not change what a relocation resolves to.
#[test]
fn renumbered_target_resolves_alike() {
    let local = local_foo();
    let target = target_foo_swapped();

    // The same target shapes, pushed to higher ids behind padding types.
    let mut strings = vec![0u8];
    let foo = add_str(&mut strings, "foo");
    let u8n = add_str(&mut strings, "__u8");
    let pad = add_str(&mut strings, "pad");
    let a = add_str(&mut strings, "a");
    let c = add_str(&mut strings, "c");
    let b = add_str(&mut strings, "b");
    let d = add_str(&mut strings, "d");
    let renumbered = TypeGraph {
        types: vec![
            TypeNode::Void,
            TypeNode::Integer {
                name_off: pad,
                size: 4,
                signed: true,
                bits: 32,
            },
            TypeNode::Pointer { type_id: 1 },
            u8_type(u8n),
            TypeNode::Struct {
                name_off: foo,
                size: 4,
                members: vec![
                    member(a, 3, 0),
                    member(c, 3, 8),
                    member(b, 3, 16),
                    member(d, 3, 24),
                ],
                kind_flag: false,
            },
        ],
        strings,
    };

    let mut v1 = vec![mov_imm(1)];
    let rels = vec![offset_reloc("0:1", RelocationKind::FieldByteOffset)];
    relocate_insns(&mut v1, &local, &target, &rels, Endianness::Little);

    let mut v2 = vec![mov_imm(1)];
    let rels = vec![offset_reloc("0:1", RelocationKind::FieldByteOffset)];
    relocate_insns(&mut v2, &local, &renumbered, &rels, Endianness::Little);

    assert_eq!(v1[0].imm, 2);
    assert_eq!(v2[0].imm, 2);
}

#[test]
fn access_spec_parsing() {
    assert_eq!(parse_access(&b"0:1:2".to_vec()).unwrap(), vec![0, 1, 2]);
    assert_eq!(parse_access(&b"7".to_vec()).unwrap(), vec![7]);
    assert_eq!(
        parse_access(&b"".to_vec()),
        Err(AccessError::InvalidAccessString)
    );
    assert_eq!(
        parse_access(&b"0:".to_vec()),
        Err(AccessError::InvalidAccessString)
    );
    assert_eq!(
        parse_access(&b"0:x".to_vec()),
        Err(AccessError::InvalidAccessString)
    );
}

#[test]
fn access_resolution_annotates_the_final_field() {
    let local = local_foo();
    let ra = resolve_access(&local, 2, &b"0:2".to_vec()).unwrap();
    assert_eq!(ra.root_id, 2);
    assert_eq!(ra.bit_offset, 16);
    assert_eq!(ra.final_id, 1);
    assert_eq!(ra.bitfield_size, 0);

    // Indexing past the members fails only this access.
    assert!(matches!(
        resolve_access(&local, 2, &b"0:4".to_vec()),
        Err(AccessError::IndexOutOfBounds { type_id: 2, index: 4 })
    ));
}
