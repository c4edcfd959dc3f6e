//! The post-relocation binder: symbolic map references become pseudo-handle
//! operands, intra-object calls become relative displacements.
//!
//! Unlike a relocation mismatch, an unresolved map or call symbol means the
//! object itself is malformed: binding that program fails hard, other
//! programs are untouched.

use vstd::prelude::*;

use crate::insn::{i32_from_bits, Instruction};

verus! {

/// The source-register marker for an immediate that carries a map handle.
pub const PSEUDO_MAP_MARKER: u8 = 1;

/// A symbol as read from the object's symbol table.
#[derive(Clone, Debug)]
pub struct Symbol {
    /// The symbol's name bytes.
    pub name: Vec<u8>,
    /// Index of the section the symbol points into.
    pub section_index: u32,
    /// Byte offset of the symbol inside its section.
    pub value: u64,
    /// Byte size of the symbol's object.
    pub size: u64,
}

/// One raw relocation record of a program section: the instruction at
/// `insn_index` refers to the symbol at `symbol_index`.
#[derive(Copy, Clone, Debug, PartialEq, Eq, Structural)]
pub struct SymbolRef {
    /// Index of the referring instruction.
    pub insn_index: u32,
    /// Index of the referenced symbol.
    pub symbol_index: u32,
}

/// Why binding a program failed; the object is malformed.
#[derive(Copy, Clone, Debug, PartialEq, Eq, Structural)]
pub enum BindError {
    /// A record names a symbol the table does not hold.
    UnknownSymbol {
        /// The offending symbol index.
        symbol_index: u32,
    },
    /// A map symbol's name matches no map definition.
    UnknownMap {
        /// The offending symbol index.
        symbol_index: u32,
    },
    /// A call target matches no program start.
    UnknownCallTarget {
        /// The offending symbol index.
        symbol_index: u32,
    },
    /// A record points at no instruction of the program.
    MissingInstruction {
        /// The offending instruction index.
        index: u32,
    },
    /// A call displacement does not fit the immediate field.
    DisplacementTooLarge {
        /// The offending instruction index.
        index: u32,
    },
}

/// One line of the map-binding report.
#[derive(Clone, Debug)]
pub struct MapBinding {
    /// The bound map's name.
    pub name: Vec<u8>,
    /// The handle index written into the instruction.
    pub handle: u32,
}

/// The first position of `name` in the handle table at or after `k`.
pub open spec fn spec_table_lookup(table: Seq<Seq<u8>>, name: Seq<u8>, k: int) -> Option<int>
    decreases table.len() - k,
{
    if k < 0 || k >= table.len() {
        None
    } else if table[k] == name {
        Some(k)
    } else {
        spec_table_lookup(table, name, k + 1)
    }
}

/// No two entries of the handle table carry one name.
pub open spec fn spec_table_unique(table: Seq<Seq<u8>>) -> bool {
    forall|a: int, b: int| 0 <= a < b < table.len() ==> table[a] != table[b]
}

/// Looks `name` up in the handle table.
fn table_lookup(table: &Vec<Vec<u8>>, name: &Vec<u8>, k: usize) -> (r: Option<usize>)
    requires
        k <= table@.len(),
    ensures
        (match spec_table_lookup(table.deep_view(), name@, k as int) {
            Some(j) => r matches Some(x) && x == j && j < table@.len(),
            None => r is None,
        }),
    decreases table@.len() - k,
{
    if k >= table.len() {
        return None;
    }
    proof {
        assert(table.deep_view()[k as int] == table@[k as int]@);
    }
    if crate::btf::bytes_eq(&table[k], name) {
        Some(k)
    } else {
        table_lookup(table, name, k + 1)
    }
}

/// Returns the handle for `name`, appending a fresh entry when it is new.
/// A name keeps its handle for the lifetime of the table.
pub fn intern_handle(table: &mut Vec<Vec<u8>>, name: &Vec<u8>) -> (h: usize)
    requires
        spec_table_unique(old(table).deep_view()),
        old(table)@.len() < 0xFFFF_FFFF,
    ensures
        spec_table_unique(final(table).deep_view()),
        h < final(table)@.len() <= old(table)@.len() + 1,
        final(table).deep_view()[h as int] == name@,
        old(table).deep_view().is_prefix_of(final(table).deep_view()),
        spec_table_lookup(old(table).deep_view(), name@, 0) matches Some(j) ==> h == j
            && final(table)@ == old(table)@,
{
    match table_lookup(table, name, 0) {
        Some(h) => {
            proof {
                lemma_lookup_found(table.deep_view(), name@, 0);
                assert(table.deep_view().is_prefix_of(table.deep_view()));
            }
            h
        },
        None => {
            let h = table.len();
            table.push(name.clone());
            proof {
                let tv = table.deep_view();
                let ov = old(table).deep_view();
                assert(tv[h as int] == name@);
                assert forall|a: int| 0 <= a < h implies tv[a] == ov[a] by {}
                lemma_lookup_none_absent(ov, name@, 0);
                assert forall|a: int, b: int| 0 <= a < b < tv.len() implies tv[a] != tv[b] by {
                    if b < h {
                        assert(ov[a] != ov[b]);
                    }
                }
                assert(ov.is_prefix_of(tv));
            }
            h
        },
    }
}

/// A successful lookup returns a position holding the name.
proof fn lemma_lookup_found(table: Seq<Seq<u8>>, name: Seq<u8>, k: int)
    requires
        0 <= k,
        spec_table_lookup(table, name, k) is Some,
    ensures
        (match spec_table_lookup(table, name, k) {
            Some(j) => k <= j < table.len() && table[j] == name,
            None => false,
        }),
    decreases table.len() - k,
{
    if k < table.len() && table[k] != name {
        lemma_lookup_found(table, name, k + 1);
    }
}

/// A failed lookup means no entry holds the name.
proof fn lemma_lookup_none_absent(table: Seq<Seq<u8>>, name: Seq<u8>, k: int)
    requires
        0 <= k,
        spec_table_lookup(table, name, k) is None,
    ensures
        forall|a: int| k <= a < table.len() ==> table[a] != name,
    decreases table.len() - k,
{
    if k < table.len() {
        lemma_lookup_none_absent(table, name, k + 1);
    }
}

/// Whether some record in `refs` targets instruction `j`.
pub open spec fn spec_refs_target(refs: Seq<SymbolRef>, j: int) -> bool {
    exists|k: int| 0 <= k < refs.len() && refs[k].insn_index == j
}

/// Whether one record can be bound: its symbol exists, its instruction
/// exists, and the symbol's name names a map.
pub open spec fn spec_ref_ok(
    re: SymbolRef,
    symbols: Seq<Symbol>,
    map_names: Seq<Vec<u8>>,
    insns_len: int,
) -> bool {
    &&& re.symbol_index < symbols.len()
    &&& re.insn_index < insns_len
    &&& exists|m: int|
        0 <= m < map_names.len() && (#[trigger] map_names[m])@
            == symbols[re.symbol_index as int].name@
}

/// Whether a record strictly between `k` and `upto` targets the same
/// instruction as record `k`.
pub open spec fn spec_written_later(refs: Seq<SymbolRef>, k: int, upto: int) -> bool {
    exists|m: int| k < m < upto && refs[m].insn_index == refs[k].insn_index
}

/// Whether a later record than `k` targets the same instruction; the last
/// writer decides what an instruction finally holds.
pub open spec fn spec_overwritten_after(refs: Seq<SymbolRef>, k: int) -> bool {
    spec_written_later(refs, k, refs.len() as int)
}

/// Binding rewrites only the marker and the immediate; the other operand
/// fields keep their values.
pub open spec fn spec_same_fields(a: Instruction, b: Instruction) -> bool {
    a.opcode == b.opcode && a.dst_reg == b.dst_reg && a.offset == b.offset
}

/// Whether any entry of `map_names` holds exactly the bytes of `name`.
fn contains_name(map_names: &Vec<Vec<u8>>, name: &Vec<u8>) -> (r: bool)
    ensures
        r == exists|m: int|
            0 <= m < map_names@.len() && (#[trigger] map_names@[m])@ == name@,
{
    let n = map_names.len();
    let mut m: usize = 0;
    while m < n
        invariant
            m <= n,
            n == map_names@.len(),
            forall|mm: int| 0 <= mm < m ==> (#[trigger] map_names@[mm])@ != name@,
        decreases n - m,
    {
        if crate::btf::bytes_eq(&map_names[m], name) {
            return true;
        }
        m = m + 1;
    }
    false
}

/// Binds every symbolic map reference of one program: the named map gets a
/// process-wide handle from the table, and the instruction is rewritten to
/// carry the pseudo-handle marker and the handle index. References to one
/// name always yield one handle, within and across programs.
pub fn bind_maps(
    insns: &mut Vec<Instruction>,
    refs: &Vec<SymbolRef>,
    symbols: &Vec<Symbol>,
    map_names: &Vec<Vec<u8>>,
    table: &mut Vec<Vec<u8>>,
) -> (r: Result<Vec<MapBinding>, BindError>)
    requires
        spec_table_unique(old(table).deep_view()),
        old(table)@.len() + refs@.len() < 0xFFFF_FFFF,
    ensures
        spec_table_unique(final(table).deep_view()),
        old(table).deep_view().is_prefix_of(final(table).deep_view()),
        final(insns)@.len() == old(insns)@.len(),
        r is Ok <==> forall|k: int|
            0 <= k < refs@.len() ==> spec_ref_ok(#[trigger] refs@[k], symbols@, map_names@, old(
                insns,
            )@.len() as int),
        r matches Ok(report) ==> {
            &&& report@.len() == refs@.len()
            &&& forall|j: int|
                0 <= j < report@.len() ==> (#[trigger] report@[j]).handle < final(table)@.len()
                    && final(table).deep_view()[report@[j].handle as int] == report@[j].name@
            &&& forall|j: int, k: int|
                0 <= j < k < report@.len() && report@[j].name@ == report@[k].name@
                    ==> report@[j].handle == report@[k].handle
            &&& forall|k: int|
                0 <= k < refs@.len() && !spec_overwritten_after(refs@, k)
                    ==> final(insns)@[(#[trigger] refs@[k]).insn_index as int] == (Instruction {
                    opcode: old(insns)@[refs@[k].insn_index as int].opcode,
                    dst_reg: old(insns)@[refs@[k].insn_index as int].dst_reg,
                    src_reg: PSEUDO_MAP_MARKER,
                    offset: old(insns)@[refs@[k].insn_index as int].offset,
                    imm: crate::insn::i32_of_bits(report@[k].handle),
                })
        },
        r is Err ==> final(insns)@ == old(insns)@ && final(table)@ == old(table)@,
        forall|j: int|
            0 <= j < old(insns)@.len() && !spec_refs_target(refs@, j) ==> final(insns)@[j]
                == old(insns)@[j],
{
    let n = refs.len();
    // Validate every record before writing anything: a malformed object
    // leaves the program untouched.
    let mut i: usize = 0;
    while i < n
        invariant
            i <= n,
            n == refs@.len(),
            table@ == old(table)@,
            insns@ == old(insns)@,
            spec_table_unique(old(table).deep_view()),
            forall|k: int|
                0 <= k < i ==> spec_ref_ok(#[trigger] refs@[k], symbols@, map_names@,
                insns@.len() as int),
        decreases n - i,
    {
        let re = refs[i];
        if (re.symbol_index as usize) >= symbols.len() {
            proof {
                assert(!spec_ref_ok(refs@[i as int], symbols@, map_names@, insns@.len() as int));
                assert(table.deep_view().is_prefix_of(table.deep_view()));
            }
            return Err(BindError::UnknownSymbol { symbol_index: re.symbol_index });
        }
        if (re.insn_index as usize) >= insns.len() {
            proof {
                assert(!spec_ref_ok(refs@[i as int], symbols@, map_names@, insns@.len() as int));
                assert(table.deep_view() =~= old(table).deep_view());
                assert(table.deep_view().is_prefix_of(table.deep_view()));
            }
            return Err(BindError::MissingInstruction { index: re.insn_index });
        }
        let sym = &symbols[re.symbol_index as usize];
        let found = contains_name(map_names, &sym.name);
        if !found {
            proof {
                assert(!spec_ref_ok(refs@[i as int], symbols@, map_names@, insns@.len() as int));
                assert(table.deep_view() =~= old(table).deep_view());
                assert(table.deep_view().is_prefix_of(table.deep_view()));
            }
            return Err(BindError::UnknownMap { symbol_index: re.symbol_index });
        }
        proof {
            assert(spec_ref_ok(refs@[i as int], symbols@, map_names@, insns@.len() as int));
        }
        i = i + 1;
    }
    let ghost olen = insns@.len();
    let mut report: Vec<MapBinding> = Vec::new();
    let mut i: usize = 0;
    while i < n
        invariant
            i <= n,
            n == refs@.len(),
            insns@.len() == olen,
            report@.len() == i,
            table@.len() + (n - i) < 0xFFFF_FFFF,
            spec_table_unique(table.deep_view()),
            old(table).deep_view().is_prefix_of(table.deep_view()),
            forall|k: int|
                0 <= k < n ==> spec_ref_ok(#[trigger] refs@[k], symbols@, map_names@,
                olen as int),
            forall|j: int|
                0 <= j < i ==> (#[trigger] report@[j]).handle < table@.len()
                    && table.deep_view()[report@[j].handle as int] == report@[j].name@,
            forall|j: int|
                0 <= j < olen && !spec_refs_target(refs@, j) ==> insns@[j] == old(insns)@[j],
            forall|j: int|
                0 <= j < olen ==> spec_same_fields(#[trigger] insns@[j], old(insns)@[j]),
            forall|k: int|
                0 <= k < i && !spec_written_later(refs@, k, i as int) ==> insns@[(
                #[trigger] refs@[k]).insn_index as int] == (Instruction {
                    opcode: old(insns)@[refs@[k].insn_index as int].opcode,
                    dst_reg: old(insns)@[refs@[k].insn_index as int].dst_reg,
                    src_reg: PSEUDO_MAP_MARKER,
                    offset: old(insns)@[refs@[k].insn_index as int].offset,
                    imm: crate::insn::i32_of_bits(report@[k].handle),
                }),
        decreases n - i,
    {
        let re = refs[i];
        let sym = &symbols[re.symbol_index as usize];
        let h = intern_handle(table, &sym.name);
        proof {
            assert(spec_refs_target(refs@, re.insn_index as int));
            assert forall|j: int|
                0 <= j < report@.len() implies (#[trigger] report@[j]).handle < table@.len()
                && table.deep_view()[report@[j].handle as int] == report@[j].name@ by {}
        }
        let ghost pre = insns@;
        let idx = re.insn_index as usize;
        let cur = insns[idx];
        insns.set(
            idx,
            Instruction {
                opcode: cur.opcode,
                dst_reg: cur.dst_reg,
                src_reg: PSEUDO_MAP_MARKER,
                offset: cur.offset,
                imm: i32_from_bits(h as u32),
            },
        );
        report.push(MapBinding { name: sym.name.clone(), handle: h as u32 });
        proof {
            assert forall|j: int| 0 <= j < olen implies spec_same_fields(
                #[trigger] insns@[j],
                old(insns)@[j],
            ) by {
                assert(spec_same_fields(pre[j], old(insns)@[j]));
            }
            assert forall|k: int|
                0 <= k < i + 1 && !spec_written_later(refs@, k, i + 1) implies insns@[(
                #[trigger] refs@[k]).insn_index as int] == (Instruction {
                    opcode: old(insns)@[refs@[k].insn_index as int].opcode,
                    dst_reg: old(insns)@[refs@[k].insn_index as int].dst_reg,
                    src_reg: PSEUDO_MAP_MARKER,
                    offset: old(insns)@[refs@[k].insn_index as int].offset,
                    imm: crate::insn::i32_of_bits(report@[k].handle),
                }) by {
                if k < i {
                    assert(refs@[k].insn_index != refs@[i as int].insn_index);
                    assert(!spec_written_later(refs@, k, i as int));
                    assert(insns@[refs@[k].insn_index as int] == pre[refs@[k].insn_index as int]);
                } else {
                    assert(spec_same_fields(pre[idx as int], old(insns)@[idx as int]));
                    assert(report@[k].handle == h as u32);
                }
            }
        }
        i = i + 1;
    }
    proof {
        assert forall|k: int|
            0 <= k < refs@.len() && !spec_overwritten_after(refs@, k) implies insns@[(
        #[trigger] refs@[k]).insn_index as int] == (Instruction {
            opcode: old(insns)@[refs@[k].insn_index as int].opcode,
            dst_reg: old(insns)@[refs@[k].insn_index as int].dst_reg,
            src_reg: PSEUDO_MAP_MARKER,
            offset: old(insns)@[refs@[k].insn_index as int].offset,
            imm: crate::insn::i32_of_bits(report@[k].handle),
        }) by {
            assert(!spec_written_later(refs@, k, n as int));
        }
        assert forall|j: int, k: int|
            0 <= j < k < report@.len() && report@[j].name@ == report@[k].name@ implies (report@[j].handle
            == report@[k].handle) by {
            let a = report@[j].handle as int;
            let b = report@[k].handle as int;
            assert(table.deep_view()[a] == report@[j].name@);
            assert(table.deep_view()[b] == report@[k].name@);
            if a != b {
                assert(table.deep_view()[a] != table.deep_view()[b]);
            }
        }
    }
    Ok(report)
}

/// Rewrites one intra-object call: the immediate becomes the relative
/// instruction displacement from the call site to the callee's first
/// instruction.
pub fn bind_call(
    insns: &mut Vec<Instruction>,
    call_index: u32,
    target_start: u32,
) -> (r: Result<(), BindError>)
    ensures
        final(insns)@.len() == old(insns)@.len(),
        r is Ok <==> call_index < old(insns)@.len() && -0x8000_0000 <= target_start - call_index
            - 1 <= 0x7FFF_FFFF,
        call_index >= old(insns)@.len() ==> r == Err::<(), BindError>(
            BindError::MissingInstruction { index: call_index },
        ) && final(insns)@ == old(insns)@,
        r matches Err(BindError::DisplacementTooLarge { index }) ==> index == call_index
            && call_index < old(insns)@.len(),
        r is Ok ==> call_index < old(insns)@.len() && final(insns)@ == old(insns)@.update(
            call_index as int,
            (Instruction {
                opcode: old(insns)@[call_index as int].opcode,
                dst_reg: old(insns)@[call_index as int].dst_reg,
                src_reg: old(insns)@[call_index as int].src_reg,
                offset: old(insns)@[call_index as int].offset,
                imm: (target_start - call_index - 1) as i32,
            }),
        ),
        r is Err ==> final(insns)@ == old(insns)@,
{
    if (call_index as usize) >= insns.len() {
        return Err(BindError::MissingInstruction { index: call_index });
    }
    let disp: i64 = target_start as i64 - call_index as i64 - 1;
    if disp > 0x7FFF_FFFF || disp < -0x8000_0000i64 {
        return Err(BindError::DisplacementTooLarge { index: call_index });
    }
    let idx = call_index as usize;
    let cur = insns[idx];
    insns.set(
        idx,
        Instruction {
            opcode: cur.opcode,
            dst_reg: cur.dst_reg,
            src_reg: cur.src_reg,
            offset: cur.offset,
            imm: disp as i32,
        },
    );
    Ok(())
}

} // verus!
