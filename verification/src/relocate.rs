//! The relocation engine: matching a local type against the target graph,
//! re-walking the access path there, computing the replacement value, and
//! patching or poisoning the instruction stream.
//!
//! Matching is name-and-shape driven, never id driven. When more than one
//! target type qualifies equally, the first in target-graph id order wins;
//! that tie-break is a documented contract, not a heuristic. When a
//! non-existence query cannot be satisfied the affected instructions are
//! overwritten with a trapping sentinel instead of failing the whole pass.

use vstd::prelude::*;

use crate::access::{
    spec_resolve_access, resolve_access, spec_strip_mods, strip_mods, spec_type_size, type_size,
    spec_member_bit_offset, spec_member_bitfield_size, AccessError, AccessStep, ResolvedAccess,
};
use crate::btf::{str_bytes_at, Member, EnumEntry, TypeGraph, TypeNode};
use crate::cursor::Endianness;
use crate::insn::{i32_of_bits, i32_from_bits, spec_poison_insn, poison_insn, Instruction};

verus! {

/// What a relocation asks to be computed.
#[derive(Copy, Clone, Debug, PartialEq, Eq, Structural)]
pub enum RelocationKind {
    /// Byte offset of the accessed field in the target layout.
    FieldByteOffset,
    /// Byte size of the accessed field in the target layout.
    FieldByteSize,
    /// 1 when the accessed field exists in the target, else 0.
    FieldExists,
    /// 1 when the accessed field is a signed integer in the target, else 0.
    FieldSigned,
    /// Left-shift amount isolating the field inside a 64-bit load.
    FieldLeftShift,
    /// Right-shift amount isolating the field inside a 64-bit load.
    FieldRightShift,
    /// The id the root type has in the local graph.
    TypeIdLocal,
    /// The id the matching type has in the target graph.
    TypeIdTarget,
    /// 1 when a matching type exists in the target graph, else 0.
    TypeExists,
    /// Byte size of the matching target type.
    TypeSize,
    /// The target value of the named enumeration constant.
    EnumValue,
    /// 1 when the named enumeration constant exists in the target, else 0.
    EnumExists,
}

/// Whether the kind is an existence query; those never poison.
pub open spec fn spec_is_exists_kind(k: RelocationKind) -> bool {
    k is FieldExists || k is TypeExists || k is EnumExists
}

/// Whether the kind patches a 64-bit immediate spread over two instructions.
pub open spec fn spec_is_wide_kind(k: RelocationKind) -> bool {
    k is EnumValue
}

/// One relocation record attached to a program.
#[derive(Clone, Debug)]
pub struct CoreRelocation {
    /// Byte offset of the patched instruction inside the program.
    pub insn_offset: u32,
    /// Id of the root type in the local graph.
    pub type_id: u32,
    /// The access-spec string.
    pub access: Vec<u8>,
    /// What to compute.
    pub kind: RelocationKind,
}

/// The unsigned 64-bit value with the same bit pattern as `v`.
pub open spec fn bits_of_i64(v: i64) -> u64 {
    if v >= 0 {
        v as u64
    } else {
        (v + 0x1_0000_0000_0000_0000) as u64
    }
}

/// Returns the unsigned value with the same bit pattern as `v`.
pub fn i64_to_bits(v: i64) -> (r: u64)
    ensures
        r == bits_of_i64(v),
{
    if v >= 0 {
        v as u64
    } else {
        (v as i128 + 0x1_0000_0000_0000_0000i128) as u64
    }
}

// --- structural equivalence ----------------------------------------------

/// Whether two member sequences pair up by name, type shape and bit offset.
pub open spec fn spec_members_equiv(
    lg: TypeGraph,
    lm: Seq<Member>,
    lkf: bool,
    tg: TypeGraph,
    tm: Seq<Member>,
    tkf: bool,
    fuel: nat,
) -> bool
    decreases fuel, 1nat,
{
    &&& lm.len() == tm.len()
    &&& forall|k: int|
        0 <= k < lm.len() ==> {
            &&& str_bytes_at(lg.strings@, (#[trigger] lm[k]).name_off as int) == str_bytes_at(
                tg.strings@,
                tm[k].name_off as int,
            )
            &&& spec_member_bit_offset(lkf, lm[k].offset) == spec_member_bit_offset(
                tkf,
                tm[k].offset,
            )
            &&& spec_member_bitfield_size(lkf, lm[k].offset) == spec_member_bitfield_size(
                tkf,
                tm[k].offset,
            )
            &&& spec_types_equiv(lg, lm[k].type_id, tg, tm[k].type_id, fuel)
        }
}

/// Whether two enumeration entry sequences pair up by name and value.
pub open spec fn spec_entries_equiv(
    lg: TypeGraph,
    le: Seq<EnumEntry>,
    tg: TypeGraph,
    te: Seq<EnumEntry>,
) -> bool {
    &&& le.len() == te.len()
    &&& forall|k: int|
        0 <= k < le.len() ==> {
            &&& str_bytes_at(lg.strings@, (#[trigger] le[k]).name_off as int) == str_bytes_at(
                tg.strings@,
                te[k].name_off as int,
            )
            &&& le[k].value == te[k].value
        }
}

/// Structural equality of two types, one from each graph: same kind, same
/// name, and recursively identical shape. The recursion stops at pointers,
/// so self-referencing types through pointer indirection terminate.
pub open spec fn spec_types_equiv(lg: TypeGraph, lid: u32, tg: TypeGraph, tid: u32, fuel: nat) -> bool
    decreases fuel, 0nat,
{
    if fuel == 0 {
        false
    } else {
        match (spec_strip_mods(lg, lid, lg.types@.len()), spec_strip_mods(
            tg,
            tid,
            tg.types@.len(),
        )) {
            (Some(l), Some(t)) => {
                let ln = lg.types@[l as int];
                let tn = tg.types@[t as int];
                match (ln, tn) {
                    (TypeNode::Void, TypeNode::Void) => true,
                    (
                        TypeNode::Integer { name_off: lno, size: ls, signed: lsg, .. },
                        TypeNode::Integer { name_off: tno, size: ts, signed: tsg, .. },
                    ) => str_bytes_at(lg.strings@, lno as int) == str_bytes_at(
                        tg.strings@,
                        tno as int,
                    ) && ls == ts && lsg == tsg,
                    (TypeNode::Pointer { .. }, TypeNode::Pointer { .. }) => true,
                    (
                        TypeNode::Array { elem_type_id: le, count: lc, .. },
                        TypeNode::Array { elem_type_id: te, count: tc, .. },
                    ) => lc == tc && spec_types_equiv(lg, le, tg, te, (fuel - 1) as nat),
                    (
                        TypeNode::Struct { name_off: lno, members: lm, kind_flag: lkf, .. },
                        TypeNode::Struct { name_off: tno, members: tm, kind_flag: tkf, .. },
                    ) => str_bytes_at(lg.strings@, lno as int) == str_bytes_at(
                        tg.strings@,
                        tno as int,
                    ) && spec_members_equiv(lg, lm@, lkf, tg, tm@, tkf, (fuel - 1) as nat),
                    (
                        TypeNode::Union { name_off: lno, members: lm, kind_flag: lkf, .. },
                        TypeNode::Union { name_off: tno, members: tm, kind_flag: tkf, .. },
                    ) => str_bytes_at(lg.strings@, lno as int) == str_bytes_at(
                        tg.strings@,
                        tno as int,
                    ) && spec_members_equiv(lg, lm@, lkf, tg, tm@, tkf, (fuel - 1) as nat),
                    (
                        TypeNode::Enum { name_off: lno, entries: le, .. },
                        TypeNode::Enum { name_off: tno, entries: te, .. },
                    ) => str_bytes_at(lg.strings@, lno as int) == str_bytes_at(
                        tg.strings@,
                        tno as int,
                    ) && spec_entries_equiv(lg, le@, tg, te@),
                    (
                        TypeNode::Enum64 { name_off: lno, entries: le, .. },
                        TypeNode::Enum64 { name_off: tno, entries: te, .. },
                    ) => str_bytes_at(lg.strings@, lno as int) == str_bytes_at(
                        tg.strings@,
                        tno as int,
                    ) && spec_entries_equiv(lg, le@, tg, te@),
                    (
                        TypeNode::ForwardDecl { name_off: lno, is_union: lu },
                        TypeNode::ForwardDecl { name_off: tno, is_union: tu },
                    ) => str_bytes_at(lg.strings@, lno as int) == str_bytes_at(
                        tg.strings@,
                        tno as int,
                    ) && lu == tu,
                    (
                        TypeNode::Float { name_off: lno, size: ls },
                        TypeNode::Float { name_off: tno, size: ts },
                    ) => str_bytes_at(lg.strings@, lno as int) == str_bytes_at(
                        tg.strings@,
                        tno as int,
                    ) && ls == ts,
                    _ => false,
                }
            },
            _ => false,
        }
    }
}

/// Mirrors [`spec_types_equiv`].
pub fn types_equiv(lg: &TypeGraph, lid: u32, tg: &TypeGraph, tid: u32, fuel: usize) -> (r: bool)
    ensures
        r == spec_types_equiv(*lg, lid, *tg, tid, fuel as nat),
    decreases fuel, 0nat,
{
    if fuel == 0 {
        return false;
    }
    let l = match strip_mods(lg, lid, lg.types.len()) {
        Some(l) => l,
        None => {
            return false;
        },
    };
    let t = match strip_mods(tg, tid, tg.types.len()) {
        Some(t) => t,
        None => {
            return false;
        },
    };
    match (&lg.types[l as usize], &tg.types[t as usize]) {
        (TypeNode::Void, TypeNode::Void) => true,
        (
            TypeNode::Integer { name_off: lno, size: ls, signed: lsg, .. },
            TypeNode::Integer { name_off: tno, size: ts, signed: tsg, .. },
        ) => crate::btf::names_eq(lg, *lno, tg, *tno) && *ls == *ts && *lsg == *tsg,
        (TypeNode::Pointer { .. }, TypeNode::Pointer { .. }) => true,
        (
            TypeNode::Array { elem_type_id: le, count: lc, .. },
            TypeNode::Array { elem_type_id: te, count: tc, .. },
        ) => *lc == *tc && types_equiv(lg, *le, tg, *te, fuel - 1),
        (
            TypeNode::Struct { name_off: lno, members: lm, kind_flag: lkf, .. },
            TypeNode::Struct { name_off: tno, members: tm, kind_flag: tkf, .. },
        ) => {
            if !crate::btf::names_eq(lg, *lno, tg, *tno) {
                return false;
            }
            members_equiv(lg, lm, *lkf, tg, tm, *tkf, fuel - 1)
        },
        (
            TypeNode::Union { name_off: lno, members: lm, kind_flag: lkf, .. },
            TypeNode::Union { name_off: tno, members: tm, kind_flag: tkf, .. },
        ) => {
            if !crate::btf::names_eq(lg, *lno, tg, *tno) {
                return false;
            }
            members_equiv(lg, lm, *lkf, tg, tm, *tkf, fuel - 1)
        },
        (
            TypeNode::Enum { name_off: lno, entries: le, .. },
            TypeNode::Enum { name_off: tno, entries: te, .. },
        ) => crate::btf::names_eq(lg, *lno, tg, *tno) && entries_equiv(lg, le, tg, te),
        (
            TypeNode::Enum64 { name_off: lno, entries: le, .. },
            TypeNode::Enum64 { name_off: tno, entries: te, .. },
        ) => crate::btf::names_eq(lg, *lno, tg, *tno) && entries_equiv(lg, le, tg, te),
        (
            TypeNode::ForwardDecl { name_off: lno, is_union: lu },
            TypeNode::ForwardDecl { name_off: tno, is_union: tu },
        ) => crate::btf::names_eq(lg, *lno, tg, *tno) && *lu == *tu,
        (
            TypeNode::Float { name_off: lno, size: ls },
            TypeNode::Float { name_off: tno, size: ts },
        ) => crate::btf::names_eq(lg, *lno, tg, *tno) && *ls == *ts,
        _ => false,
    }
}

/// Mirrors [`spec_members_equiv`].
fn members_equiv(
    lg: &TypeGraph,
    lm: &Vec<Member>,
    lkf: bool,
    tg: &TypeGraph,
    tm: &Vec<Member>,
    tkf: bool,
    fuel: usize,
) -> (r: bool)
    ensures
        r == spec_members_equiv(*lg, lm@, lkf, *tg, tm@, tkf, fuel as nat),
    decreases fuel, 1nat,
{
    if lm.len() != tm.len() {
        return false;
    }
    let n = lm.len();
    let mut k: usize = 0;
    while k < n
        invariant
            k <= n,
            n == lm@.len(),
            n == tm@.len(),
            forall|j: int|
                0 <= j < k ==> {
                    &&& str_bytes_at(lg.strings@, (#[trigger] lm@[j]).name_off as int)
                        == str_bytes_at(tg.strings@, tm@[j].name_off as int)
                    &&& spec_member_bit_offset(lkf, lm@[j].offset) == spec_member_bit_offset(
                        tkf,
                        tm@[j].offset,
                    )
                    &&& spec_member_bitfield_size(lkf, lm@[j].offset) == spec_member_bitfield_size(
                        tkf,
                        tm@[j].offset,
                    )
                    &&& spec_types_equiv(*lg, lm@[j].type_id, *tg, tm@[j].type_id, fuel as nat)
                },
        decreases n - k,
    {
        let a = lm[k];
        let b = tm[k];
        if !crate::btf::names_eq(lg, a.name_off, tg, b.name_off) {
            return false;
        }
        let aoff = if lkf {
            a.offset & 0x00FF_FFFF
        } else {
            a.offset
        };
        let boff = if tkf {
            b.offset & 0x00FF_FFFF
        } else {
            b.offset
        };
        if aoff != boff {
            return false;
        }
        let abf = if lkf {
            a.offset >> 24
        } else {
            0
        };
        let bbf = if tkf {
            b.offset >> 24
        } else {
            0
        };
        if abf != bbf {
            return false;
        }
        if !types_equiv(lg, a.type_id, tg, b.type_id, fuel) {
            return false;
        }
        k = k + 1;
    }
    true
}

/// Mirrors [`spec_entries_equiv`].
fn entries_equiv(lg: &TypeGraph, le: &Vec<EnumEntry>, tg: &TypeGraph, te: &Vec<EnumEntry>) -> (r:
    bool)
    ensures
        r == spec_entries_equiv(*lg, le@, *tg, te@),
{
    if le.len() != te.len() {
        return false;
    }
    let n = le.len();
    let mut k: usize = 0;
    while k < n
        invariant
            k <= n,
            n == le@.len(),
            n == te@.len(),
            forall|j: int|
                0 <= j < k ==> {
                    &&& str_bytes_at(lg.strings@, (#[trigger] le@[j]).name_off as int)
                        == str_bytes_at(tg.strings@, te@[j].name_off as int)
                    &&& le@[j].value == te@[j].value
                },
        decreases n - k,
    {
        let a = le[k];
        let b = te[k];
        if !crate::btf::names_eq(lg, a.name_off, tg, b.name_off) {
            return false;
        }
        if a.value != b.value {
            return false;
        }
        k = k + 1;
    }
    true
}


// --- re-walking the path in the target graph ------------------------------

/// The placement of the accessed field in the target layout.
#[derive(Copy, Clone, Debug, PartialEq, Eq, Structural)]
pub struct TargetField {
    /// Bit offset of the field from the start of the matched root.
    pub bit_offset: u32,
    /// Id of the field's type in the target graph, wrappers stripped.
    pub final_id: u32,
    /// Bit width of the bitfield, or 0 for a plain field.
    pub bitfield_size: u32,
}

/// The first member of `members` at or after `k` whose name equals `name`.
pub open spec fn spec_find_member(
    tg: TypeGraph,
    members: Seq<Member>,
    name: Seq<u8>,
    k: int,
) -> Option<int>
    decreases members.len() - k,
{
    if k < 0 || k >= members.len() {
        None
    } else if str_bytes_at(tg.strings@, members[k].name_off as int) == name {
        Some(k)
    } else {
        spec_find_member(tg, members, name, k + 1)
    }
}

/// Mirrors [`spec_find_member`].
fn find_member(tg: &TypeGraph, members: &Vec<Member>, name: &Vec<u8>, k: usize) -> (r: Option<
    usize,
>)
    requires
        k <= members@.len(),
    ensures
        (match spec_find_member(*tg, members@, name@, k as int) {
            Some(j) => r matches Some(x) && x == j && j < members@.len(),
            None => r is None,
        }),
    decreases members@.len() - k,
{
    if k >= members.len() {
        return None;
    }
    let mname = tg.string_at(members[k].name_off);
    if crate::btf::bytes_eq(&mname, name) {
        Some(k)
    } else {
        find_member(tg, members, name, k + 1)
    }
}

/// The fuel handed to structural-equality checks: deep enough for any
/// acyclic shape of either graph.
pub open spec fn spec_equiv_fuel(lg: TypeGraph, tg: TypeGraph) -> nat {
    (lg.types@.len() + tg.types@.len()) as nat
}

/// Returns the structural-equality fuel for the two graphs.
fn equiv_fuel(lg: &TypeGraph, tg: &TypeGraph) -> (r: usize)
    requires
        (lg.types@.len() + tg.types@.len() <= usize::MAX),
    ensures
        r as nat == spec_equiv_fuel(*lg, *tg),
{
    lg.types.len() + tg.types.len()
}

/// Re-walks the local step path inside the target graph: members are looked
/// up by name, anonymous members positionally by structural equality, and
/// element steps by the same index. `None` means the target lacks the path.
pub open spec fn spec_target_walk(
    lg: TypeGraph,
    tg: TypeGraph,
    tid: u32,
    steps: Seq<AccessStep>,
    i: int,
    bit: u32,
    bitfield: u32,
) -> Option<TargetField>
    decreases steps.len() - i,
{
    match spec_strip_mods(tg, tid, tg.types@.len()) {
        None => None,
        Some(sid) => {
            if i < 0 || i >= steps.len() {
                Some(TargetField { bit_offset: bit, final_id: sid, bitfield_size: bitfield })
            } else {
                match steps[i] {
                    AccessStep::Member { composite_id, index, name_off } => {
                        let name = str_bytes_at(lg.strings@, name_off as int);
                        let com: Option<(Seq<Member>, bool)> = match tg.types@[sid as int] {
                            TypeNode::Struct { members, kind_flag, .. } => Some((members@, kind_flag)),
                            TypeNode::Union { members, kind_flag, .. } => Some((members@, kind_flag)),
                            _ => None,
                        };
                        match com {
                            None => None,
                            Some((tm, tkf)) => {
                                let picked: Option<int> = if name.len() > 0 {
                                    spec_find_member(tg, tm, name, 0)
                                } else {
                                    if index < tm.len() && str_bytes_at(
                                        tg.strings@,
                                        tm[index as int].name_off as int,
                                    ).len() == 0 && lg.spec_valid_id(composite_id)
                                        && spec_anon_member_equiv(
                                        lg,
                                        tg,
                                        composite_id,
                                        index,
                                        tm[index as int].type_id,
                                    ) {
                                        Some(index as int)
                                    } else {
                                        None
                                    }
                                };
                                match picked {
                                    None => None,
                                    Some(k) => {
                                        let m = tm[k];
                                        let moff = spec_member_bit_offset(tkf, m.offset);
                                        if bit + moff > 0xFFFF_FFFF {
                                            None
                                        } else {
                                            spec_target_walk(
                                                lg,
                                                tg,
                                                m.type_id,
                                                steps,
                                                i + 1,
                                                (bit + moff) as u32,
                                                spec_member_bitfield_size(tkf, m.offset),
                                            )
                                        }
                                    },
                                }
                            },
                        }
                    },
                    AccessStep::Element { index } => {
                        let elem = match tg.types@[sid as int] {
                            TypeNode::Array { elem_type_id, .. } => Some(elem_type_id),
                            TypeNode::Pointer { type_id } => Some(type_id),
                            _ => None,
                        };
                        match elem {
                            None => None,
                            Some(el) => {
                                match spec_type_size(tg, el, tg.types@.len()) {
                                    None => None,
                                    Some(es) => {
                                        let add = index * es * 8;
                                        if bit + add > 0xFFFF_FFFF {
                                            None
                                        } else {
                                            spec_target_walk(
                                                lg,
                                                tg,
                                                el,
                                                steps,
                                                i + 1,
                                                (bit + add) as u32,
                                                0,
                                            )
                                        }
                                    },
                                }
                            },
                        }
                    },
                }
            }
        },
    }
}

/// Whether the local member at `index` of `composite_id` and the target
/// member type `tt` are structurally equal anonymous shapes.
pub open spec fn spec_anon_member_equiv(
    lg: TypeGraph,
    tg: TypeGraph,
    composite_id: u32,
    index: u32,
    tt: u32,
) -> bool {
    match lg.types@[composite_id as int] {
        TypeNode::Struct { members: lm, .. } => index < lm@.len() && spec_types_equiv(
            lg,
            lm@[index as int].type_id,
            tg,
            tt,
            spec_equiv_fuel(lg, tg),
        ),
        TypeNode::Union { members: lm, .. } => index < lm@.len() && spec_types_equiv(
            lg,
            lm@[index as int].type_id,
            tg,
            tt,
            spec_equiv_fuel(lg, tg),
        ),
        _ => false,
    }
}

/// Mirrors [`spec_target_walk`].
pub fn target_walk(
    lg: &TypeGraph,
    tg: &TypeGraph,
    tid: u32,
    steps: &Vec<AccessStep>,
    i: usize,
    bit: u32,
    bitfield: u32,
) -> (r: Option<TargetField>)
    requires
        i <= steps@.len(),
        (lg.types@.len() + tg.types@.len() <= usize::MAX),
    ensures
        r == spec_target_walk(*lg, *tg, tid, steps@, i as int, bit, bitfield),
    decreases steps@.len() - i,
{
    let sid = match strip_mods(tg, tid, tg.types.len()) {
        Some(sid) => sid,
        None => {
            return None;
        },
    };
    if i >= steps.len() {
        return Some(TargetField { bit_offset: bit, final_id: sid, bitfield_size: bitfield });
    }
    match steps[i] {
        AccessStep::Member { composite_id, index, name_off } => {
            let name = lg.string_at(name_off);
            let (tm, tkf): (&Vec<Member>, bool) = match &tg.types[sid as usize] {
                TypeNode::Struct { members, kind_flag, .. } => (members, *kind_flag),
                TypeNode::Union { members, kind_flag, .. } => (members, *kind_flag),
                _ => {
                    return None;
                },
            };
            let picked: Option<usize> = if name.len() > 0 {
                find_member(tg, tm, &name, 0)
            } else {
                if (index as usize) < tm.len() {
                    let tmname = tg.string_at(tm[index as usize].name_off);
                    if tmname.len() == 0 && (composite_id as usize) < lg.types.len()
                        && anon_member_equiv(lg, tg, composite_id, index, tm[index as usize].type_id) {
                        Some(index as usize)
                    } else {
                        None
                    }
                } else {
                    None
                }
            };
            let k = match picked {
                Some(k) => k,
                None => {
                    return None;
                },
            };
            let m = tm[k];
            let moff = if tkf {
                m.offset & 0x00FF_FFFF
            } else {
                m.offset
            };
            let nb = bit as u64 + moff as u64;
            if nb > 0xFFFF_FFFF {
                return None;
            }
            let bf = if tkf {
                m.offset >> 24
            } else {
                0
            };
            target_walk(lg, tg, m.type_id, steps, i + 1, nb as u32, bf)
        },
        AccessStep::Element { index } => {
            let el = match &tg.types[sid as usize] {
                TypeNode::Array { elem_type_id, .. } => *elem_type_id,
                TypeNode::Pointer { type_id } => *type_id,
                _ => {
                    return None;
                },
            };
            match type_size(tg, el, tg.types.len()) {
                None => None,
                Some(es) => {
                    proof {
                        assert(index as u64 * es <= 0xFFFF_FFFFu64 * 0xFFFF_FFFFu64)
                            by (nonlinear_arith)
                            requires
                                es <= 0xFFFF_FFFF,
                                index <= 0xFFFF_FFFF,
                        ;
                    }
                    let pe = index as u64 * es;
                    if pe >= 0x2000_0000 {
                        return None;
                    }
                    let nb = bit as u64 + pe * 8;
                    if nb > 0xFFFF_FFFF {
                        return None;
                    }
                    target_walk(lg, tg, el, steps, i + 1, nb as u32, 0)
                },
            }
        },
    }
}


/// Mirrors [`spec_anon_member_equiv`].
fn anon_member_equiv(lg: &TypeGraph, tg: &TypeGraph, composite_id: u32, pos: u32, tt: u32) -> (r: bool)
    requires
        lg.spec_valid_id(composite_id),
        (lg.types@.len() + tg.types@.len() <= usize::MAX),
    ensures
        r == spec_anon_member_equiv(*lg, *tg, composite_id, pos, tt),
{
    let fuel = equiv_fuel(lg, tg);
    match &lg.types[composite_id as usize] {
        TypeNode::Struct { members, .. } => {
            if (pos as usize) < members.len() {
                types_equiv(lg, members[pos as usize].type_id, tg, tt, fuel)
            } else {
                false
            }
        },
        TypeNode::Union { members, .. } => {
            if (pos as usize) < members.len() {
                types_equiv(lg, members[pos as usize].type_id, tg, tt, fuel)
            } else {
                false
            }
        },
        _ => false,
    }
}


// --- picking the matching target type --------------------------------------

/// Whether target id `t` is a qualifying candidate for the stripped local
/// root `lroot`: same kind and, for named types, the same name; anonymous
/// types must be structurally equal, integers of one signedness and size.
pub open spec fn spec_root_matches(lg: TypeGraph, lroot: u32, tg: TypeGraph, t: u32) -> bool {
    match spec_strip_mods(tg, t, tg.types@.len()) {
        None => false,
        Some(st) => {
            match (lg.types@[lroot as int], tg.types@[st as int]) {
                (TypeNode::Void, TypeNode::Void) => true,
                (
                    TypeNode::Integer { name_off: lno, size: ls, signed: lsg, .. },
                    TypeNode::Integer { name_off: tno, size: ts, signed: tsg, .. },
                ) => {
                    let lname = str_bytes_at(lg.strings@, lno as int);
                    if lname.len() > 0 {
                        lname == str_bytes_at(tg.strings@, tno as int)
                    } else {
                        str_bytes_at(tg.strings@, tno as int).len() == 0 && ls == ts && lsg == tsg
                    }
                },
                (TypeNode::Pointer { .. }, TypeNode::Pointer { .. }) => true,
                (TypeNode::Array { .. }, TypeNode::Array { .. }) => spec_types_equiv(
                    lg,
                    lroot,
                    tg,
                    st,
                    spec_equiv_fuel(lg, tg),
                ),
                (
                    TypeNode::Struct { name_off: lno, .. },
                    TypeNode::Struct { name_off: tno, .. },
                ) => spec_composite_root_matches(lg, lroot, lno, tg, st, tno),
                (
                    TypeNode::Union { name_off: lno, .. },
                    TypeNode::Union { name_off: tno, .. },
                ) => spec_composite_root_matches(lg, lroot, lno, tg, st, tno),
                (
                    TypeNode::Enum { name_off: lno, .. },
                    TypeNode::Enum { name_off: tno, .. },
                ) => spec_composite_root_matches(lg, lroot, lno, tg, st, tno),
                (
                    TypeNode::Enum64 { name_off: lno, .. },
                    TypeNode::Enum64 { name_off: tno, .. },
                ) => spec_composite_root_matches(lg, lroot, lno, tg, st, tno),
                (
                    TypeNode::ForwardDecl { name_off: lno, is_union: lu },
                    TypeNode::ForwardDecl { name_off: tno, is_union: tu },
                ) => lu == tu && str_bytes_at(lg.strings@, lno as int) == str_bytes_at(
                    tg.strings@,
                    tno as int,
                ),
                (
                    TypeNode::Float { name_off: lno, size: ls },
                    TypeNode::Float { name_off: tno, size: ts },
                ) => ls == ts && str_bytes_at(lg.strings@, lno as int) == str_bytes_at(
                    tg.strings@,
                    tno as int,
                ),
                _ => false,
            }
        },
    }
}

/// A named composite or enum candidate matches by name alone; an anonymous
/// one by structural equality.
pub open spec fn spec_composite_root_matches(
    lg: TypeGraph,
    lroot: u32,
    lno: u32,
    tg: TypeGraph,
    st: u32,
    tno: u32,
) -> bool {
    let lname = str_bytes_at(lg.strings@, lno as int);
    if lname.len() > 0 {
        lname == str_bytes_at(tg.strings@, tno as int)
    } else {
        spec_types_equiv(lg, lroot, tg, st, spec_equiv_fuel(lg, tg))
    }
}

/// Mirrors [`spec_root_matches`].
pub fn root_matches(lg: &TypeGraph, lroot: u32, tg: &TypeGraph, t: u32) -> (r: bool)
    requires
        lg.spec_valid_id(lroot),
        (lg.types@.len() + tg.types@.len() <= usize::MAX),
    ensures
        r == spec_root_matches(*lg, lroot, *tg, t),
{
    let st = match strip_mods(tg, t, tg.types.len()) {
        Some(st) => st,
        None => {
            return false;
        },
    };
    match (&lg.types[lroot as usize], &tg.types[st as usize]) {
        (TypeNode::Void, TypeNode::Void) => true,
        (
            TypeNode::Integer { name_off: lno, size: ls, signed: lsg, .. },
            TypeNode::Integer { name_off: tno, size: ts, signed: tsg, .. },
        ) => {
            let lname = lg.string_at(*lno);
            if lname.len() > 0 {
                crate::btf::names_eq(lg, *lno, tg, *tno)
            } else {
                let tname = tg.string_at(*tno);
                tname.len() == 0 && *ls == *ts && *lsg == *tsg
            }
        },
        (TypeNode::Pointer { .. }, TypeNode::Pointer { .. }) => true,
        (TypeNode::Array { .. }, TypeNode::Array { .. }) => {
            let fuel = equiv_fuel(lg, tg);
            types_equiv(lg, lroot, tg, st, fuel)
        },
        (TypeNode::Struct { name_off: lno, .. }, TypeNode::Struct { name_off: tno, .. }) => {
            composite_root_matches(lg, lroot, *lno, tg, st, *tno)
        },
        (TypeNode::Union { name_off: lno, .. }, TypeNode::Union { name_off: tno, .. }) => {
            composite_root_matches(lg, lroot, *lno, tg, st, *tno)
        },
        (TypeNode::Enum { name_off: lno, .. }, TypeNode::Enum { name_off: tno, .. }) => {
            composite_root_matches(lg, lroot, *lno, tg, st, *tno)
        },
        (TypeNode::Enum64 { name_off: lno, .. }, TypeNode::Enum64 { name_off: tno, .. }) => {
            composite_root_matches(lg, lroot, *lno, tg, st, *tno)
        },
        (
            TypeNode::ForwardDecl { name_off: lno, is_union: lu },
            TypeNode::ForwardDecl { name_off: tno, is_union: tu },
        ) => *lu == *tu && crate::btf::names_eq(lg, *lno, tg, *tno),
        (
            TypeNode::Float { name_off: lno, size: ls },
            TypeNode::Float { name_off: tno, size: ts },
        ) => *ls == *ts && crate::btf::names_eq(lg, *lno, tg, *tno),
        _ => false,
    }
}

/// Mirrors [`spec_composite_root_matches`].
fn composite_root_matches(
    lg: &TypeGraph,
    lroot: u32,
    lno: u32,
    tg: &TypeGraph,
    st: u32,
    tno: u32,
) -> (r: bool)
    requires
        (lg.types@.len() + tg.types@.len() <= usize::MAX),
    ensures
        r == spec_composite_root_matches(*lg, lroot, lno, *tg, st, tno),
{
    let lname = lg.string_at(lno);
    if lname.len() > 0 {
        crate::btf::names_eq(lg, lno, tg, tno)
    } else {
        let fuel = equiv_fuel(lg, tg);
        types_equiv(lg, lroot, tg, st, fuel)
    }
}

/// The first target id at or after `t` whose type matches the local root and
/// admits the whole access path, together with the field it resolves to.
/// The first hit in id order wins: the documented tie-break.
pub open spec fn spec_find_field_target(
    lg: TypeGraph,
    tg: TypeGraph,
    lroot: u32,
    parts0: u32,
    steps: Seq<AccessStep>,
    t: int,
) -> Option<(u32, TargetField)>
    decreases tg.types@.len() - t,
{
    if t < 1 || t >= tg.types@.len() {
        None
    } else {
        let cand = if spec_root_matches(lg, lroot, tg, t as u32) {
            spec_field_walk_from(lg, tg, t as u32, parts0, steps)
        } else {
            None
        };
        match cand {
            Some(tf) => Some((t as u32, tf)),
            None => spec_find_field_target(lg, tg, lroot, parts0, steps, t + 1),
        }
    }
}

/// Walks the access path inside candidate `t`, starting from the root
/// selector `parts0` scaled by the candidate's own size.
pub open spec fn spec_field_walk_from(
    lg: TypeGraph,
    tg: TypeGraph,
    t: u32,
    parts0: u32,
    steps: Seq<AccessStep>,
) -> Option<TargetField> {
    match spec_strip_mods(tg, t, tg.types@.len()) {
        None => None,
        Some(st) => {
            match spec_type_size(tg, st, tg.types@.len()) {
                None => None,
                Some(rs) => {
                    let bit0 = parts0 * rs * 8;
                    if bit0 > 0xFFFF_FFFF {
                        None
                    } else {
                        spec_target_walk(lg, tg, st, steps, 0, bit0 as u32, 0)
                    }
                },
            }
        },
    }
}

/// Mirrors [`spec_field_walk_from`].
pub fn field_walk_from(
    lg: &TypeGraph,
    tg: &TypeGraph,
    t: u32,
    parts0: u32,
    steps: &Vec<AccessStep>,
) -> (r: Option<TargetField>)
    requires
        (lg.types@.len() + tg.types@.len() <= usize::MAX),
    ensures
        r == spec_field_walk_from(*lg, *tg, t, parts0, steps@),
{
    let st = match strip_mods(tg, t, tg.types.len()) {
        Some(st) => st,
        None => {
            return None;
        },
    };
    let rs = match type_size(tg, st, tg.types.len()) {
        Some(rs) => rs,
        None => {
            return None;
        },
    };
    proof {
        assert(parts0 as u64 * rs <= 0xFFFF_FFFFu64 * 0xFFFF_FFFFu64) by (nonlinear_arith)
            requires
                rs <= 0xFFFF_FFFF,
                parts0 <= 0xFFFF_FFFF,
        ;
    }
    let pe = parts0 as u64 * rs;
    if pe >= 0x2000_0000 {
        return None;
    }
    let bit0 = pe * 8;
    if bit0 > 0xFFFF_FFFF {
        return None;
    }
    target_walk(lg, tg, st, steps, 0, bit0 as u32, 0)
}

/// Mirrors [`spec_find_field_target`].
pub fn find_field_target(
    lg: &TypeGraph,
    tg: &TypeGraph,
    lroot: u32,
    parts0: u32,
    steps: &Vec<AccessStep>,
    t: usize,
) -> (r: Option<(u32, TargetField)>)
    requires
        1 <= t,
        lg.spec_valid_id(lroot),
        (lg.types@.len() + tg.types@.len() <= usize::MAX),
    ensures
        r == spec_find_field_target(*lg, *tg, lroot, parts0, steps@, t as int),
    decreases tg.types@.len() - t,
{
    if t >= tg.types.len() {
        return None;
    }
    let cand = if root_matches(lg, lroot, tg, t as u32) {
        field_walk_from(lg, tg, t as u32, parts0, steps)
    } else {
        None
    };
    match cand {
        Some(tf) => Some((t as u32, tf)),
        None => find_field_target(lg, tg, lroot, parts0, steps, t + 1),
    }
}

/// The first target id at or after `t` whose type matches the local root.
pub open spec fn spec_find_type_target(lg: TypeGraph, tg: TypeGraph, lroot: u32, t: int) -> Option<
    u32,
>
    decreases tg.types@.len() - t,
{
    if t < 1 || t >= tg.types@.len() {
        None
    } else if spec_root_matches(lg, lroot, tg, t as u32) {
        Some(t as u32)
    } else {
        spec_find_type_target(lg, tg, lroot, t + 1)
    }
}

/// Mirrors [`spec_find_type_target`].
pub fn find_type_target(lg: &TypeGraph, tg: &TypeGraph, lroot: u32, t: usize) -> (r: Option<u32>)
    requires
        1 <= t,
        lg.spec_valid_id(lroot),
        (lg.types@.len() + tg.types@.len() <= usize::MAX),
    ensures
        r == spec_find_type_target(*lg, *tg, lroot, t as int),
    decreases tg.types@.len() - t,
{
    if t >= tg.types.len() {
        return None;
    }
    if root_matches(lg, lroot, tg, t as u32) {
        Some(t as u32)
    } else {
        find_type_target(lg, tg, lroot, t + 1)
    }
}

// --- enumeration constants --------------------------------------------------

/// The first entry of `entries` at or after `k` whose name equals `name`.
pub open spec fn spec_find_entry(
    tg: TypeGraph,
    entries: Seq<EnumEntry>,
    name: Seq<u8>,
    k: int,
) -> Option<int>
    decreases entries.len() - k,
{
    if k < 0 || k >= entries.len() {
        None
    } else if str_bytes_at(tg.strings@, entries[k].name_off as int) == name {
        Some(k)
    } else {
        spec_find_entry(tg, entries, name, k + 1)
    }
}

/// Mirrors [`spec_find_entry`].
fn find_entry(tg: &TypeGraph, entries: &Vec<EnumEntry>, name: &Vec<u8>, k: usize) -> (r: Option<
    usize,
>)
    requires
        k <= entries@.len(),
    ensures
        (match spec_find_entry(*tg, entries@, name@, k as int) {
            Some(j) => r matches Some(x) && x == j && j < entries@.len(),
            None => r is None,
        }),
    decreases entries@.len() - k,
{
    if k >= entries.len() {
        return None;
    }
    let ename = tg.string_at(entries[k].name_off);
    if crate::btf::bytes_eq(&ename, name) {
        Some(k)
    } else {
        find_entry(tg, entries, name, k + 1)
    }
}

/// The value of the entry named `name` in target type `t`, when `t` strips
/// to an enumeration that has one.
pub open spec fn spec_enum_value_in(tg: TypeGraph, t: u32, name: Seq<u8>) -> Option<i64> {
    match spec_strip_mods(tg, t, tg.types@.len()) {
        None => None,
        Some(st) => {
            match tg.types@[st as int] {
                TypeNode::Enum { entries, .. } => match spec_find_entry(tg, entries@, name, 0) {
                    Some(k) => Some(entries@[k].value),
                    None => None,
                },
                TypeNode::Enum64 { entries, .. } => match spec_find_entry(tg, entries@, name, 0) {
                    Some(k) => Some(entries@[k].value),
                    None => None,
                },
                _ => None,
            }
        },
    }
}

/// Mirrors [`spec_enum_value_in`].
pub fn enum_value_in(tg: &TypeGraph, t: u32, name: &Vec<u8>) -> (r: Option<i64>)
    ensures
        r == spec_enum_value_in(*tg, t, name@),
{
    let st = match strip_mods(tg, t, tg.types.len()) {
        Some(st) => st,
        None => {
            return None;
        },
    };
    let entries: &Vec<EnumEntry> = match &tg.types[st as usize] {
        TypeNode::Enum { entries, .. } => entries,
        TypeNode::Enum64 { entries, .. } => entries,
        _ => {
            return None;
        },
    };
    match find_entry(tg, entries, name, 0) {
        Some(k) => Some(entries[k].value),
        None => None,
    }
}

/// The first target id at or after `t` that holds an entry named `name`.
pub open spec fn spec_find_enum_by_entry(tg: TypeGraph, name: Seq<u8>, t: int) -> Option<u32>
    decreases tg.types@.len() - t,
{
    if t < 1 || t >= tg.types@.len() {
        None
    } else if spec_enum_value_in(tg, t as u32, name) is Some {
        Some(t as u32)
    } else {
        spec_find_enum_by_entry(tg, name, t + 1)
    }
}

/// Mirrors [`spec_find_enum_by_entry`].
pub fn find_enum_by_entry(tg: &TypeGraph, name: &Vec<u8>, t: usize) -> (r: Option<u32>)
    requires
        1 <= t,
    ensures
        r == spec_find_enum_by_entry(*tg, name@, t as int),
    decreases tg.types@.len() - t,
{
    if t >= tg.types.len() {
        return None;
    }
    if enum_value_in(tg, t as u32, name).is_some() {
        Some(t as u32)
    } else {
        find_enum_by_entry(tg, name, t + 1)
    }
}

/// The name of the local enumeration entry an enum relocation refers to:
/// the root must strip to an enumeration and the single index part selects
/// the entry by position.
pub open spec fn spec_local_entry_name(
    lg: TypeGraph,
    root_id: u32,
    idx: u32,
) -> Result<Seq<u8>, AccessError> {
    match lg.types@[root_id as int] {
        TypeNode::Enum { entries, .. } => if idx < entries@.len() {
            Ok(str_bytes_at(lg.strings@, entries@[idx as int].name_off as int))
        } else {
            Err(AccessError::IndexOutOfBounds { type_id: root_id, index: idx })
        },
        TypeNode::Enum64 { entries, .. } => if idx < entries@.len() {
            Ok(str_bytes_at(lg.strings@, entries@[idx as int].name_off as int))
        } else {
            Err(AccessError::IndexOutOfBounds { type_id: root_id, index: idx })
        },
        _ => Err(AccessError::NotComposite { type_id: root_id }),
    }
}

/// Mirrors [`spec_local_entry_name`].
pub fn local_entry_name(lg: &TypeGraph, root_id: u32, idx: u32) -> (r: Result<Vec<u8>, AccessError>)
    requires
        lg.spec_valid_id(root_id),
    ensures
        (match spec_local_entry_name(*lg, root_id, idx) {
            Ok(name) => r matches Ok(v) && v@ == name,
            Err(e) => r == Err::<Vec<u8>, AccessError>(e),
        }),
{
    let entries: &Vec<EnumEntry> = match &lg.types[root_id as usize] {
        TypeNode::Enum { entries, .. } => entries,
        TypeNode::Enum64 { entries, .. } => entries,
        _ => {
            return Err(AccessError::NotComposite { type_id: root_id });
        },
    };
    if (idx as usize) < entries.len() {
        Ok(lg.string_at(entries[idx as usize].name_off))
    } else {
        Err(AccessError::IndexOutOfBounds { type_id: root_id, index: idx })
    }
}


// --- computing the replacement value ----------------------------------------

/// How one relocation ended.
#[derive(Copy, Clone, Debug, PartialEq, Eq, Structural)]
pub enum RelocOutcome {
    /// The instruction was patched with this absolute replacement value.
    Patched {
        /// The replacement value; narrow kinds use the low 32 bits.
        value: u64,
    },
    /// The target lacks a match: the instructions were overwritten with the
    /// trapping sentinel.
    Poisoned,
    /// The local side could not be resolved; nothing was written.
    Failed {
        /// Why the local resolution failed.
        err: AccessError,
    },
}

/// The value a field relocation computes from the resolved target field,
/// `None` when the field's shape does not admit the computation.
pub open spec fn spec_field_value(
    tg: TypeGraph,
    tf: TargetField,
    kind: RelocationKind,
    e: Endianness,
) -> Option<u64> {
    let szo = spec_type_size(tg, tf.final_id, tg.types@.len());
    match kind {
        RelocationKind::FieldByteOffset => {
            if tf.bitfield_size == 0 {
                Some((tf.bit_offset / 8) as u64)
            } else {
                match szo {
                    Some(s) => if 1 <= s <= 8 {
                        Some((tf.bit_offset as int / 8 / (s as int) * (s as int)) as u64)
                    } else {
                        None
                    },
                    None => None,
                }
            }
        },
        RelocationKind::FieldByteSize => szo,
        RelocationKind::FieldSigned => {
            if tf.final_id < tg.types@.len() {
                match tg.types@[tf.final_id as int] {
                    TypeNode::Integer { signed, .. } => Some(if signed { 1u64 } else { 0u64 }),
                    TypeNode::Enum { signed, .. } => Some(if signed { 1u64 } else { 0u64 }),
                    TypeNode::Enum64 { signed, .. } => Some(if signed { 1u64 } else { 0u64 }),
                    _ => None,
                }
            } else {
                None
            }
        },
        RelocationKind::FieldLeftShift => {
            match szo {
                Some(s) => if 1 <= s <= 8 {
                    let bit_sz: int = if tf.bitfield_size == 0 {
                        8 * (s as int)
                    } else {
                        tf.bitfield_size as int
                    };
                    let byte_off: int = if tf.bitfield_size == 0 {
                        tf.bit_offset as int / 8
                    } else {
                        tf.bit_offset as int / 8 / (s as int) * (s as int)
                    };
                    let d: int = tf.bit_offset as int - byte_off * 8;
                    let v: int = if e is Little {
                        64 - d - bit_sz
                    } else {
                        (8 - s as int) * 8 + d
                    };
                    if 0 <= v <= 63 {
                        Some(v as u64)
                    } else {
                        None
                    }
                } else {
                    None
                },
                None => None,
            }
        },
        RelocationKind::FieldRightShift => {
            match szo {
                Some(s) => if 1 <= s <= 8 {
                    let bit_sz: int = if tf.bitfield_size == 0 {
                        8 * (s as int)
                    } else {
                        tf.bitfield_size as int
                    };
                    if 1 <= bit_sz <= 64 {
                        Some((64 - bit_sz) as u64)
                    } else {
                        None
                    }
                } else {
                    None
                },
                None => None,
            }
        },
        _ => None,
    }
}

/// Mirrors [`spec_field_value`].
pub fn field_value(tg: &TypeGraph, tf: TargetField, kind: RelocationKind, e: Endianness) -> (r:
    Option<u64>)
    ensures
        r == spec_field_value(*tg, tf, kind, e),
{
    let szo = type_size(tg, tf.final_id, tg.types.len());
    match kind {
        RelocationKind::FieldByteOffset => {
            if tf.bitfield_size == 0 {
                Some((tf.bit_offset / 8) as u64)
            } else {
                match szo {
                    Some(s) => {
                        if 1 <= s && s <= 8 {
                            proof {
                                assert(tf.bit_offset as u64 / 8 / s * s <= tf.bit_offset as u64)
                                    by (nonlinear_arith)
                                    requires
                                        1 <= s,
                                ;
                            }
                            Some(tf.bit_offset as u64 / 8 / s * s)
                        } else {
                            None
                        }
                    },
                    None => None,
                }
            }
        },
        RelocationKind::FieldByteSize => szo,
        RelocationKind::FieldSigned => {
            if (tf.final_id as usize) < tg.types.len() {
                match &tg.types[tf.final_id as usize] {
                    TypeNode::Integer { signed, .. } => Some(
                        if *signed {
                            1
                        } else {
                            0
                        },
                    ),
                    TypeNode::Enum { signed, .. } => Some(
                        if *signed {
                            1
                        } else {
                            0
                        },
                    ),
                    TypeNode::Enum64 { signed, .. } => Some(
                        if *signed {
                            1
                        } else {
                            0
                        },
                    ),
                    _ => None,
                }
            } else {
                None
            }
        },
        RelocationKind::FieldLeftShift => {
            match szo {
                Some(s) => {
                    if 1 <= s && s <= 8 {
                        let bit_sz: u64 = if tf.bitfield_size == 0 {
                            8 * s
                        } else {
                            tf.bitfield_size as u64
                        };
                        proof {
                            assert(tf.bit_offset as u64 / 8 / s * s <= tf.bit_offset as u64 / 8)
                                by (nonlinear_arith)
                                requires
                                    1 <= s,
                            ;
                        }
                        let byte_off: u64 = if tf.bitfield_size == 0 {
                            tf.bit_offset as u64 / 8
                        } else {
                            tf.bit_offset as u64 / 8 / s * s
                        };
                        let d: u64 = tf.bit_offset as u64 - byte_off * 8;
                        let v: i128 = if matches!(e, Endianness::Little) {
                            64i128 - d as i128 - bit_sz as i128
                        } else {
                            (8i128 - s as i128) * 8 + d as i128
                        };
                        if 0 <= v && v <= 63 {
                            Some(v as u64)
                        } else {
                            None
                        }
                    } else {
                        None
                    }
                },
                None => None,
            }
        },
        RelocationKind::FieldRightShift => {
            match szo {
                Some(s) => {
                    if 1 <= s && s <= 8 {
                        let bit_sz: u64 = if tf.bitfield_size == 0 {
                            8 * s
                        } else {
                            tf.bitfield_size as u64
                        };
                        if 1 <= bit_sz && bit_sz <= 64 {
                            Some(64 - bit_sz)
                        } else {
                            None
                        }
                    } else {
                        None
                    }
                },
                None => None,
            }
        },
        _ => None,
    }
}

/// What the relocation resolves to, before the instruction stream is
/// consulted: the patch value, the decision to poison, or a local failure.
pub open spec fn spec_compute_outcome(
    lg: TypeGraph,
    tg: TypeGraph,
    rel: CoreRelocation,
    e: Endianness,
) -> RelocOutcome {
    match spec_resolve_access(lg, rel.type_id, rel.access@) {
        Err(err) => RelocOutcome::Failed { err },
        Ok(ra) => {
            match rel.kind {
                RelocationKind::TypeIdLocal => RelocOutcome::Patched { value: rel.type_id as u64 },
                RelocationKind::TypeExists => {
                    if spec_find_type_target(lg, tg, ra.root_id, 1) is Some {
                        RelocOutcome::Patched { value: 1 }
                    } else {
                        RelocOutcome::Patched { value: 0 }
                    }
                },
                RelocationKind::TypeIdTarget => {
                    match spec_find_type_target(lg, tg, ra.root_id, 1) {
                        Some(t) => RelocOutcome::Patched { value: t as u64 },
                        None => RelocOutcome::Poisoned,
                    }
                },
                RelocationKind::TypeSize => {
                    match spec_find_type_target(lg, tg, ra.root_id, 1) {
                        Some(t) => match spec_type_size(tg, t, tg.types@.len()) {
                            Some(sz) => RelocOutcome::Patched { value: sz },
                            None => RelocOutcome::Poisoned,
                        },
                        None => RelocOutcome::Poisoned,
                    }
                },
                RelocationKind::FieldExists => {
                    if spec_find_field_target(lg, tg, ra.root_id, ra.parts[0], ra.steps, 1)
                        is Some {
                        RelocOutcome::Patched { value: 1 }
                    } else {
                        RelocOutcome::Patched { value: 0 }
                    }
                },
                RelocationKind::EnumExists => {
                    match spec_local_entry_name(lg, ra.root_id, ra.parts[0]) {
                        Err(err) => RelocOutcome::Failed { err },
                        Ok(name) => {
                            if spec_enum_target_value(lg, tg, ra.root_id, name) is Some {
                                RelocOutcome::Patched { value: 1 }
                            } else {
                                RelocOutcome::Patched { value: 0 }
                            }
                        },
                    }
                },
                RelocationKind::EnumValue => {
                    match spec_local_entry_name(lg, ra.root_id, ra.parts[0]) {
                        Err(err) => RelocOutcome::Failed { err },
                        Ok(name) => {
                            match spec_enum_target_value(lg, tg, ra.root_id, name) {
                                Some(v) => RelocOutcome::Patched { value: bits_of_i64(v) },
                                None => RelocOutcome::Poisoned,
                            }
                        },
                    }
                },
                _ => {
                    match spec_find_field_target(lg, tg, ra.root_id, ra.parts[0], ra.steps, 1) {
                        Some((t, tf)) => {
                            match spec_field_value(tg, tf, rel.kind, e) {
                                Some(v) => RelocOutcome::Patched { value: v },
                                None => RelocOutcome::Poisoned,
                            }
                        },
                        None => RelocOutcome::Poisoned,
                    }
                },
            }
        },
    }
}

/// The target value of the entry named `name`: first an enumeration of the
/// local root's name is tried, then any enumeration holding the entry.
pub open spec fn spec_enum_target_value(
    lg: TypeGraph,
    tg: TypeGraph,
    lroot: u32,
    name: Seq<u8>,
) -> Option<i64> {
    match spec_find_type_target(lg, tg, lroot, 1) {
        Some(t) => spec_enum_value_in(tg, t, name),
        None => {
            match spec_find_enum_by_entry(tg, name, 1) {
                Some(t) => spec_enum_value_in(tg, t, name),
                None => None,
            }
        },
    }
}

/// Mirrors [`spec_enum_target_value`].
pub fn enum_target_value(lg: &TypeGraph, tg: &TypeGraph, lroot: u32, name: &Vec<u8>) -> (r: Option<
    i64,
>)
    requires
        lg.spec_valid_id(lroot),
        (lg.types@.len() + tg.types@.len() <= usize::MAX),
    ensures
        r == spec_enum_target_value(*lg, *tg, lroot, name@),
{
    match find_type_target(lg, tg, lroot, 1) {
        Some(t) => enum_value_in(tg, t, name),
        None => {
            match find_enum_by_entry(tg, name, 1) {
                Some(t) => enum_value_in(tg, t, name),
                None => None,
            }
        },
    }
}

/// Mirrors [`spec_compute_outcome`].
pub fn compute_outcome(lg: &TypeGraph, tg: &TypeGraph, rel: &CoreRelocation, e: Endianness) -> (r:
    RelocOutcome)
    requires
        (lg.types@.len() + tg.types@.len() <= usize::MAX),
    ensures
        r == spec_compute_outcome(*lg, *tg, *rel, e),
{
    let ra = match resolve_access(lg, rel.type_id, &rel.access) {
        Ok(ra) => ra,
        Err(err) => {
            return RelocOutcome::Failed { err };
        },
    };
    proof {
        assert(spec_resolve_access(*lg, rel.type_id, rel.access@) matches Ok(rg) && rg == ra@);
    }
    match rel.kind {
        RelocationKind::TypeIdLocal => RelocOutcome::Patched { value: rel.type_id as u64 },
        RelocationKind::TypeExists => {
            if find_type_target(lg, tg, ra.root_id, 1).is_some() {
                RelocOutcome::Patched { value: 1 }
            } else {
                RelocOutcome::Patched { value: 0 }
            }
        },
        RelocationKind::TypeIdTarget => {
            match find_type_target(lg, tg, ra.root_id, 1) {
                Some(t) => RelocOutcome::Patched { value: t as u64 },
                None => RelocOutcome::Poisoned,
            }
        },
        RelocationKind::TypeSize => {
            match find_type_target(lg, tg, ra.root_id, 1) {
                Some(t) => match type_size(tg, t, tg.types.len()) {
                    Some(sz) => RelocOutcome::Patched { value: sz },
                    None => RelocOutcome::Poisoned,
                },
                None => RelocOutcome::Poisoned,
            }
        },
        RelocationKind::FieldExists => {
            if find_field_target(lg, tg, ra.root_id, ra.parts[0], &ra.steps, 1).is_some() {
                RelocOutcome::Patched { value: 1 }
            } else {
                RelocOutcome::Patched { value: 0 }
            }
        },
        RelocationKind::EnumExists => {
            match local_entry_name(lg, ra.root_id, ra.parts[0]) {
                Err(err) => RelocOutcome::Failed { err },
                Ok(name) => {
                    if enum_target_value(lg, tg, ra.root_id, &name).is_some() {
                        RelocOutcome::Patched { value: 1 }
                    } else {
                        RelocOutcome::Patched { value: 0 }
                    }
                },
            }
        },
        RelocationKind::EnumValue => {
            match local_entry_name(lg, ra.root_id, ra.parts[0]) {
                Err(err) => RelocOutcome::Failed { err },
                Ok(name) => {
                    match enum_target_value(lg, tg, ra.root_id, &name) {
                        Some(v) => RelocOutcome::Patched { value: i64_to_bits(v) },
                        None => RelocOutcome::Poisoned,
                    }
                },
            }
        },
        _ => {
            match find_field_target(lg, tg, ra.root_id, ra.parts[0], &ra.steps, 1) {
                Some((t, tf)) => {
                    match field_value(tg, tf, rel.kind, e) {
                        Some(v) => RelocOutcome::Patched { value: v },
                        None => RelocOutcome::Poisoned,
                    }
                },
                None => RelocOutcome::Poisoned,
            }
        },
    }
}


// --- applying the patches -----------------------------------------------------

/// The instruction index a relocation points at, when its byte offset is a
/// multiple of the instruction width.
pub open spec fn spec_insn_index(rel: CoreRelocation) -> Option<int> {
    if rel.insn_offset % 8 == 0 {
        Some(rel.insn_offset as int / 8)
    } else {
        None
    }
}

/// The final outcome at a buffer of `n` instructions: the computed outcome,
/// demoted to a failure when the relocation points at no whole instruction.
pub open spec fn spec_outcome_at(
    lg: TypeGraph,
    tg: TypeGraph,
    rel: CoreRelocation,
    e: Endianness,
    n: int,
) -> RelocOutcome {
    let oc = spec_compute_outcome(lg, tg, rel, e);
    match oc {
        RelocOutcome::Failed { .. } => oc,
        _ => {
            match spec_insn_index(rel) {
                None => RelocOutcome::Failed {
                    err: AccessError::MissingInstruction { index: (rel.insn_offset / 8) as u32 },
                },
                Some(idx) => {
                    let last = if spec_is_wide_kind(rel.kind) {
                        idx + 1
                    } else {
                        idx
                    };
                    if last < n {
                        oc
                    } else {
                        RelocOutcome::Failed {
                            err: AccessError::MissingInstruction {
                                index: (rel.insn_offset / 8) as u32,
                            },
                        }
                    }
                },
            }
        },
    }
}

/// The buffer with the immediate of instruction `idx` replaced by `v`; the
/// other operand fields keep their values.
pub open spec fn spec_patch32(insns: Seq<Instruction>, idx: int, v: u32) -> Seq<Instruction> {
    if 0 <= idx < insns.len() {
        insns.update(
            idx,
            Instruction {
                opcode: insns[idx].opcode,
                dst_reg: insns[idx].dst_reg,
                src_reg: insns[idx].src_reg,
                offset: insns[idx].offset,
                imm: i32_of_bits(v),
            },
        )
    } else {
        insns
    }
}

/// The buffer after one relocation's outcome is applied: patched values are
/// absolute, poisoning overwrites the whole instruction, failures write
/// nothing.
pub open spec fn spec_apply_outcome(
    insns: Seq<Instruction>,
    rel: CoreRelocation,
    oc: RelocOutcome,
) -> Seq<Instruction> {
    match oc {
        RelocOutcome::Failed { .. } => insns,
        RelocOutcome::Patched { value } => {
            match spec_insn_index(rel) {
                None => insns,
                Some(idx) => {
                    if spec_is_wide_kind(rel.kind) {
                        spec_patch32(
                            spec_patch32(insns, idx, (value & 0xFFFF_FFFF) as u32),
                            idx + 1,
                            (value >> 32) as u32,
                        )
                    } else {
                        spec_patch32(insns, idx, (value & 0xFFFF_FFFF) as u32)
                    }
                },
            }
        },
        RelocOutcome::Poisoned => {
            match spec_insn_index(rel) {
                None => insns,
                Some(idx) => {
                    if spec_is_wide_kind(rel.kind) {
                        spec_set_insn(spec_set_insn(insns, idx, spec_poison_insn()), idx + 1,
                        spec_poison_insn())
                    } else {
                        spec_set_insn(insns, idx, spec_poison_insn())
                    }
                },
            }
        },
    }
}

/// The buffer with instruction `idx` replaced whole.
pub open spec fn spec_set_insn(insns: Seq<Instruction>, idx: int, insn: Instruction) -> Seq<
    Instruction,
> {
    if 0 <= idx < insns.len() {
        insns.update(idx, insn)
    } else {
        insns
    }
}

/// The buffer after the relocations from position `i` on are applied in
/// order. Each outcome depends on the graphs and the buffer's length alone,
/// never on its contents.
pub open spec fn spec_relocate_from(
    lg: TypeGraph,
    tg: TypeGraph,
    insns: Seq<Instruction>,
    rels: Seq<CoreRelocation>,
    i: int,
    e: Endianness,
) -> Seq<Instruction>
    decreases rels.len() - i,
{
    if i < 0 || i >= rels.len() {
        insns
    } else {
        spec_relocate_from(
            lg,
            tg,
            spec_apply_outcome(insns, rels[i], spec_outcome_at(lg, tg, rels[i], e, insns.len() as int)),
            rels,
            i + 1,
            e,
        )
    }
}

/// One line of the relocation report.
#[derive(Copy, Clone, Debug, PartialEq, Eq, Structural)]
pub struct RelocResult {
    /// Byte offset of the relocation inside the program.
    pub insn_offset: u32,
    /// How it ended.
    pub outcome: RelocOutcome,
}

/// Applying an outcome never changes the buffer's length.
pub proof fn lemma_apply_len(insns: Seq<Instruction>, rel: CoreRelocation, oc: RelocOutcome)
    ensures
        spec_apply_outcome(insns, rel, oc).len() == insns.len(),
{
}

/// Resolves every relocation of `rels` against the instruction buffer:
/// each one is patched with its computed value, poisoned, or reported as
/// failed, and the report returns one line per relocation.
pub fn relocate_insns(
    insns: &mut Vec<Instruction>,
    lg: &TypeGraph,
    tg: &TypeGraph,
    rels: &Vec<CoreRelocation>,
    e: Endianness,
) -> (report: Vec<RelocResult>)
    requires
        (lg.types@.len() + tg.types@.len() <= usize::MAX),
    ensures
        final(insns)@ == spec_relocate_from(*lg, *tg, old(insns)@, rels@, 0, e),
        final(insns)@.len() == old(insns)@.len(),
        report@.len() == rels@.len(),
        forall|j: int|
            0 <= j < rels@.len() ==> (#[trigger] report@[j]).outcome == spec_outcome_at(
                *lg,
                *tg,
                rels@[j],
                e,
                old(insns)@.len() as int,
            ) && report@[j].insn_offset == rels@[j].insn_offset,
{
    let ghost orig = insns@;
    let n = rels.len();
    let buf_len = insns.len();
    let mut report: Vec<RelocResult> = Vec::new();
    let mut i: usize = 0;
    while i < n
        invariant
            i <= n,
            n == rels@.len(),
            insns@.len() == orig.len(),
            buf_len == orig.len(),
            (lg.types@.len() + tg.types@.len() <= usize::MAX),
            spec_relocate_from(*lg, *tg, insns@, rels@, i as int, e) == spec_relocate_from(
                *lg,
                *tg,
                orig,
                rels@,
                0,
                e,
            ),
            report@.len() == i,
            forall|j: int|
                0 <= j < i ==> (#[trigger] report@[j]).outcome == spec_outcome_at(
                    *lg,
                    *tg,
                    rels@[j],
                    e,
                    orig.len() as int,
                ) && report@[j].insn_offset == rels@[j].insn_offset,
        decreases n - i,
    {
        let rel = &rels[i];
        let ghost pre = insns@;
        let mut oc = compute_outcome(lg, tg, rel, e);
        let wide = matches!(rel.kind, RelocationKind::EnumValue);
        let mut idx: usize = 0;
        let mut in_range = false;
        if !matches!(oc, RelocOutcome::Failed { .. }) {
            if rel.insn_offset % 8 == 0 {
                idx = (rel.insn_offset / 8) as usize;
                let last = if wide {
                    idx + 1
                } else {
                    idx
                };
                if last < buf_len {
                    in_range = true;
                } else {
                    oc = RelocOutcome::Failed {
                        err: AccessError::MissingInstruction { index: rel.insn_offset / 8 },
                    };
                }
            } else {
                oc = RelocOutcome::Failed {
                    err: AccessError::MissingInstruction { index: rel.insn_offset / 8 },
                };
            }
        }
        proof {
            assert(oc == spec_outcome_at(*lg, *tg, rels@[i as int], e, orig.len() as int));
        }
        match oc {
            RelocOutcome::Failed { .. } => {},
            RelocOutcome::Patched { value } => {
                let lo = i32_from_bits((value & 0xFFFF_FFFF) as u32);
                let cur = insns[idx];
                insns.set(
                    idx,
                    Instruction {
                        opcode: cur.opcode,
                        dst_reg: cur.dst_reg,
                        src_reg: cur.src_reg,
                        offset: cur.offset,
                        imm: lo,
                    },
                );
                if wide {
                    let hi = i32_from_bits((value >> 32) as u32);
                    let cur2 = insns[idx + 1];
                    insns.set(
                        idx + 1,
                        Instruction {
                            opcode: cur2.opcode,
                            dst_reg: cur2.dst_reg,
                            src_reg: cur2.src_reg,
                            offset: cur2.offset,
                            imm: hi,
                        },
                    );
                }
            },
            RelocOutcome::Poisoned => {
                insns.set(idx, poison_insn());
                if wide {
                    insns.set(idx + 1, poison_insn());
                }
            },
        }
        proof {
            assert(insns@ =~= spec_apply_outcome(pre, rels@[i as int], oc));
            assert(spec_relocate_from(*lg, *tg, pre, rels@, i as int, e) == spec_relocate_from(
                *lg,
                *tg,
                insns@,
                rels@,
                i + 1,
                e,
            ));
        }
        report.push(RelocResult { insn_offset: rel.insn_offset, outcome: oc });
        i = i + 1;
    }
    report
}


// --- the engine's guarantees ---------------------------------------------------

/// Existence queries resolve to 0 or 1 and never poison the stream,
/// whatever the match outcome; a relocation whose local side is malformed
/// fails without writing.
pub proof fn lemma_exists_kinds_never_poison(
    lg: TypeGraph,
    tg: TypeGraph,
    rel: CoreRelocation,
    e: Endianness,
    n: int,
)
    requires
        spec_is_exists_kind(rel.kind),
    ensures
        !(spec_outcome_at(lg, tg, rel, e, n) is Poisoned),
        spec_outcome_at(lg, tg, rel, e, n) matches RelocOutcome::Patched { value } ==> value == 0
            || value == 1,
{
}

/// A non-existence relocation whose local side resolves and whose
/// instruction exists is patched or poisoned: exactly one of the two,
/// never both, never neither.
pub proof fn lemma_patch_or_poison(
    lg: TypeGraph,
    tg: TypeGraph,
    rel: CoreRelocation,
    e: Endianness,
    n: int,
)
    requires
        !spec_is_exists_kind(rel.kind),
        !(spec_compute_outcome(lg, tg, rel, e) is Failed),
        spec_insn_index(rel) matches Some(idx) && (if spec_is_wide_kind(rel.kind) {
            idx + 1
        } else {
            idx
        }) < n,
    ensures
        (spec_outcome_at(lg, tg, rel, e, n) is Patched) != (spec_outcome_at(lg, tg, rel, e, n)
            is Poisoned),
{
}

/// Positions the relocations from `i` on poison.
pub open spec fn spec_poisons_from(
    lg: TypeGraph,
    tg: TypeGraph,
    rels: Seq<CoreRelocation>,
    i: int,
    e: Endianness,
    n: int,
    j: int,
) -> bool
    decreases rels.len() - i,
{
    if i < 0 || i >= rels.len() {
        false
    } else {
        spec_outcome_poisons(lg, tg, rels[i], e, n, j) || spec_poisons_from(
            lg,
            tg,
            rels,
            i + 1,
            e,
            n,
            j,
        )
    }
}

/// Whether relocation `rel` poisons position `j`.
pub open spec fn spec_outcome_poisons(
    lg: TypeGraph,
    tg: TypeGraph,
    rel: CoreRelocation,
    e: Endianness,
    n: int,
    j: int,
) -> bool {
    match spec_outcome_at(lg, tg, rel, e, n) {
        RelocOutcome::Poisoned => {
            match spec_insn_index(rel) {
                Some(idx) => j == idx || (spec_is_wide_kind(rel.kind) && j == idx + 1),
                None => false,
            }
        },
        _ => false,
    }
}

/// Whether relocation `rel` writes position `j` at all.
pub open spec fn spec_outcome_writes(
    lg: TypeGraph,
    tg: TypeGraph,
    rel: CoreRelocation,
    e: Endianness,
    n: int,
    j: int,
) -> bool {
    match spec_outcome_at(lg, tg, rel, e, n) {
        RelocOutcome::Failed { .. } => false,
        _ => {
            match spec_insn_index(rel) {
                Some(idx) => j == idx || (spec_is_wide_kind(rel.kind) && j == idx + 1),
                None => false,
            }
        },
    }
}

/// Positions the relocations from `i` on write.
pub open spec fn spec_writes_from(
    lg: TypeGraph,
    tg: TypeGraph,
    rels: Seq<CoreRelocation>,
    i: int,
    e: Endianness,
    n: int,
    j: int,
) -> bool
    decreases rels.len() - i,
{
    if i < 0 || i >= rels.len() {
        false
    } else {
        spec_outcome_writes(lg, tg, rels[i], e, n, j) || spec_writes_from(
            lg,
            tg,
            rels,
            i + 1,
            e,
            n,
            j,
        )
    }
}

/// Two instructions that agree on everything but the immediate.
pub open spec fn spec_same_shape(a: Instruction, b: Instruction) -> bool {
    a.opcode == b.opcode && a.dst_reg == b.dst_reg && a.src_reg == b.src_reg && a.offset
        == b.offset
}

/// The pass leaves every unwritten position untouched, and patching keeps
/// every operand but the immediate, so a position never poisoned keeps its
/// shape.
pub proof fn lemma_relocate_preserves(
    lg: TypeGraph,
    tg: TypeGraph,
    insns: Seq<Instruction>,
    rels: Seq<CoreRelocation>,
    i: int,
    e: Endianness,
)
    ensures
        spec_relocate_from(lg, tg, insns, rels, i, e).len() == insns.len(),
        forall|j: int|
            0 <= j < insns.len() && !spec_writes_from(lg, tg, rels, i, e, insns.len() as int, j)
                ==> spec_relocate_from(lg, tg, insns, rels, i, e)[j] == insns[j],
        forall|j: int|
            0 <= j < insns.len() && !spec_poisons_from(lg, tg, rels, i, e, insns.len() as int, j)
                ==> spec_same_shape(spec_relocate_from(lg, tg, insns, rels, i, e)[j], insns[j]),
    decreases rels.len() - i,
{
    if 0 <= i < rels.len() {
        let n = insns.len() as int;
        let oc = spec_outcome_at(lg, tg, rels[i], e, n);
        let next = spec_apply_outcome(insns, rels[i], oc);
        lemma_apply_len(insns, rels[i], oc);
        lemma_relocate_preserves(lg, tg, next, rels, i + 1, e);
        let out = spec_relocate_from(lg, tg, insns, rels, i, e);
        assert forall|j: int|
            0 <= j < n && !spec_writes_from(lg, tg, rels, i, e, n, j) implies out[j]
            == insns[j] by {
            assert(!spec_outcome_writes(lg, tg, rels[i], e, n, j));
            assert(next[j] == insns[j]);
            assert(!spec_writes_from(lg, tg, rels, i + 1, e, n, j));
        }
        assert forall|j: int|
            0 <= j < n && !spec_poisons_from(lg, tg, rels, i, e, n, j) implies spec_same_shape(
            out[j],
            insns[j],
        ) by {
            assert(!spec_outcome_poisons(lg, tg, rels[i], e, n, j));
            assert(spec_same_shape(next[j], insns[j]));
            assert(!spec_poisons_from(lg, tg, rels, i + 1, e, n, j));
            assert(spec_same_shape(out[j], next[j]));
        }
    }
}

/// A poisoned position is a written position.
pub proof fn lemma_poisons_implies_writes(
    lg: TypeGraph,
    tg: TypeGraph,
    rels: Seq<CoreRelocation>,
    i: int,
    e: Endianness,
    n: int,
    j: int,
)
    requires
        spec_poisons_from(lg, tg, rels, i, e, n, j),
    ensures
        spec_writes_from(lg, tg, rels, i, e, n, j),
    decreases rels.len() - i,
{
    if 0 <= i < rels.len() {
        if spec_outcome_poisons(lg, tg, rels[i], e, n, j) {
        } else {
            lemma_poisons_implies_writes(lg, tg, rels, i + 1, e, n, j);
        }
    }
}

/// Two buffers of one length that agree outside the positions the pass
/// writes, and in shape outside the positions it poisons, end identical.
pub proof fn lemma_relocate_agree(
    lg: TypeGraph,
    tg: TypeGraph,
    b1: Seq<Instruction>,
    b2: Seq<Instruction>,
    rels: Seq<CoreRelocation>,
    i: int,
    e: Endianness,
)
    requires
        b1.len() == b2.len(),
        forall|j: int|
            0 <= j < b1.len() && !spec_poisons_from(lg, tg, rels, i, e, b1.len() as int, j)
                ==> spec_same_shape(b1[j], b2[j]),
        forall|j: int|
            0 <= j < b1.len() && !spec_writes_from(lg, tg, rels, i, e, b1.len() as int, j)
                ==> b1[j] == b2[j],
    ensures
        spec_relocate_from(lg, tg, b1, rels, i, e) == spec_relocate_from(lg, tg, b2, rels, i, e),
    decreases rels.len() - i,
{
    if i < 0 || i >= rels.len() {
        assert forall|j: int| 0 <= j < b1.len() implies b1[j] == b2[j] by {
            assert(!spec_poisons_from(lg, tg, rels, i, e, b1.len() as int, j));
            assert(!spec_writes_from(lg, tg, rels, i, e, b1.len() as int, j));
        }
        assert(b1 =~= b2);
    } else {
        let n = b1.len() as int;
        let oc = spec_outcome_at(lg, tg, rels[i], e, n);
        let n1 = spec_apply_outcome(b1, rels[i], oc);
        let n2 = spec_apply_outcome(b2, rels[i], oc);
        lemma_apply_len(b1, rels[i], oc);
        lemma_apply_len(b2, rels[i], oc);
        assert forall|j: int|
            0 <= j < n1.len() && !spec_poisons_from(lg, tg, rels, i + 1, e, n, j) implies
            spec_same_shape(n1[j], n2[j]) by {
            if spec_outcome_poisons(lg, tg, rels[i], e, n, j) {
            } else {
                assert(!spec_poisons_from(lg, tg, rels, i, e, n, j));
                assert(spec_same_shape(b1[j], b2[j]));
            }
        }
        assert forall|j: int|
            0 <= j < n1.len() && !spec_writes_from(lg, tg, rels, i + 1, e, n, j) implies n1[j]
            == n2[j] by {
            if spec_outcome_writes(lg, tg, rels[i], e, n, j) {
                if spec_outcome_poisons(lg, tg, rels[i], e, n, j) {
                } else {
                    if spec_poisons_from(lg, tg, rels, i, e, n, j) {
                        assert(spec_poisons_from(lg, tg, rels, i + 1, e, n, j));
                        lemma_poisons_implies_writes(lg, tg, rels, i + 1, e, n, j);
                        assert(false);
                    }
                    assert(spec_same_shape(b1[j], b2[j]));
                }
            } else {
                assert(!spec_writes_from(lg, tg, rels, i, e, n, j));
            }
        }
        lemma_relocate_agree(lg, tg, n1, n2, rels, i + 1, e);
    }
}

/// Resolving the same relocations twice against the same graphs yields a
/// bit-identical buffer: every patch stores an absolute value and every
/// outcome depends on the graphs and the buffer's length alone.
pub proof fn lemma_relocate_idempotent(
    lg: TypeGraph,
    tg: TypeGraph,
    insns: Seq<Instruction>,
    rels: Seq<CoreRelocation>,
    e: Endianness,
)
    ensures
        spec_relocate_from(lg, tg, spec_relocate_from(lg, tg, insns, rels, 0, e), rels, 0, e)
            == spec_relocate_from(lg, tg, insns, rels, 0, e),
{
    let once = spec_relocate_from(lg, tg, insns, rels, 0, e);
    lemma_relocate_preserves(lg, tg, insns, rels, 0, e);
    lemma_relocate_agree(lg, tg, once, insns, rels, 0, e);
}

} // verus!
