//! Resolving an access-spec string against the local type graph.
//!
//! An access-spec is a colon-separated sequence of small non-negative
//! integers: the first selects the root instance, each later one descends
//! into a member by position or indexes an array or pointer element. The
//! resolver recovers the navigable path and the final scalar's placement.

use vstd::prelude::*;

use crate::btf::{TypeGraph, TypeNode};

verus! {

/// Why a single access-spec failed to resolve. Such a failure aborts only
/// the one relocation it belongs to, never the whole object.
#[derive(Copy, Clone, Debug, PartialEq, Eq, Structural)]
pub enum AccessError {
    /// The access-spec string is not a colon-separated list of integers.
    InvalidAccessString,
    /// A referenced type id does not resolve inside the graph.
    InvalidTypeId {
        /// The offending id.
        type_id: u32,
    },
    /// A step indexes past the members of a struct or union.
    IndexOutOfBounds {
        /// Id of the composite whose members ran out.
        type_id: u32,
        /// The out-of-range member position.
        index: u32,
    },
    /// A step was applied to a type that has no members or elements.
    NotComposite {
        /// Id of the unsuitable type.
        type_id: u32,
    },
    /// A type's size was needed but the type has none, or it overflows.
    UnsizedType {
        /// Id of the unsized type.
        type_id: u32,
    },
    /// The relocation points at no instruction of its program.
    MissingInstruction {
        /// The offending instruction index.
        index: u32,
    },
}

// --- parsing the access-spec string -------------------------------------

/// One step of folding the access string: `st` is `None` once malformed,
/// otherwise the parts read so far and the digits of the current number.
pub open spec fn acc_step(st: Option<(Seq<u32>, Option<u32>)>, c: u8) -> Option<
    (Seq<u32>, Option<u32>),
> {
    match st {
        None => None,
        Some((parts, acc)) => {
            if c == 0x3A {
                match acc {
                    Some(v) => Some((parts.push(v), None)),
                    None => None,
                }
            } else if 0x30 <= c <= 0x39 {
                let base: int = match acc {
                    Some(v) => v as int,
                    None => 0,
                };
                let nv = base * 10 + (c - 0x30);
                if nv > 0xFFFF_FFFF {
                    None
                } else {
                    Some((parts, Some(nv as u32)))
                }
            } else {
                None
            }
        },
    }
}

/// The fold state after the first `n` bytes of the access string.
pub open spec fn acc_fold(s: Seq<u8>, n: int) -> Option<(Seq<u32>, Option<u32>)>
    decreases n,
{
    if n <= 0 {
        Some((Seq::empty(), None))
    } else {
        acc_step(acc_fold(s, n - 1), s[n - 1])
    }
}

/// The index parts of an access string, `None` when it is malformed.
pub open spec fn spec_parse_access(s: Seq<u8>) -> Option<Seq<u32>> {
    match acc_fold(s, s.len() as int) {
        Some((parts, Some(v))) => Some(parts.push(v)),
        _ => None,
    }
}

/// Once the fold fails it stays failed for every longer prefix.
pub proof fn lemma_fold_none_persists(s: Seq<u8>, i: int, n: int)
    requires
        0 <= i <= n,
        acc_fold(s, i) is None,
    ensures
        acc_fold(s, n) is None,
    decreases n - i,
{
    if i < n {
        lemma_fold_none_persists(s, i + 1, n);
    }
}

/// Parses an access-spec string into its index parts.
pub fn parse_access(s: &Vec<u8>) -> (r: Result<Vec<u32>, AccessError>)
    ensures
        r matches Ok(v) ==> spec_parse_access(s@) == Some(v@),
        r is Err <==> spec_parse_access(s@) is None,
        r is Err ==> r == Err::<Vec<u32>, AccessError>(AccessError::InvalidAccessString),
{
    let n = s.len();
    let mut parts: Vec<u32> = Vec::new();
    let mut acc: Option<u32> = None;
    let mut i: usize = 0;
    while i < n
        invariant
            i <= n,
            n == s@.len(),
            acc_fold(s@, i as int) == Some((parts@, acc)),
        decreases n - i,
    {
        let c = s[i];
        proof {
            assert(acc_fold(s@, i + 1) == acc_step(acc_fold(s@, i as int), s@[i as int]));
        }
        if c == 0x3A {
            match acc {
                Some(v) => {
                    parts.push(v);
                    acc = None;
                },
                None => {
                    proof {
                        lemma_fold_none_persists(s@, i + 1, n as int);
                    }
                    return Err(AccessError::InvalidAccessString);
                },
            }
        } else if 0x30 <= c && c <= 0x39 {
            let base: u64 = match acc {
                Some(v) => v as u64,
                None => 0,
            };
            let nv: u64 = base * 10 + (c - 0x30) as u64;
            if nv > 0xFFFF_FFFF {
                proof {
                    lemma_fold_none_persists(s@, i + 1, n as int);
                }
                return Err(AccessError::InvalidAccessString);
            }
            acc = Some(nv as u32);
        } else {
            proof {
                lemma_fold_none_persists(s@, i + 1, n as int);
            }
            return Err(AccessError::InvalidAccessString);
        }
        i = i + 1;
    }
    match acc {
        Some(v) => {
            parts.push(v);
            Ok(parts)
        },
        None => Err(AccessError::InvalidAccessString),
    }
}

// --- following the graph -------------------------------------------------

/// The id left after stripping typedef, const, volatile and restrict
/// wrappers; `None` when an id is invalid or the chain does not end.
pub open spec fn spec_strip_mods(g: TypeGraph, id: u32, fuel: nat) -> Option<u32>
    decreases fuel,
{
    if !g.spec_valid_id(id) {
        None
    } else {
        match g.types@[id as int] {
            TypeNode::Typedef { type_id, .. } => if fuel == 0 {
                None
            } else {
                spec_strip_mods(g, type_id, (fuel - 1) as nat)
            },
            TypeNode::Volatile { type_id } => if fuel == 0 {
                None
            } else {
                spec_strip_mods(g, type_id, (fuel - 1) as nat)
            },
            TypeNode::Const { type_id } => if fuel == 0 {
                None
            } else {
                spec_strip_mods(g, type_id, (fuel - 1) as nat)
            },
            TypeNode::Restrict { type_id } => if fuel == 0 {
                None
            } else {
                spec_strip_mods(g, type_id, (fuel - 1) as nat)
            },
            _ => Some(id),
        }
    }
}

/// Strips typedef and qualifier wrappers from `id`.
pub fn strip_mods(g: &TypeGraph, id: u32, fuel: usize) -> (r: Option<u32>)
    ensures
        r == spec_strip_mods(*g, id, fuel as nat),
        r matches Some(s) ==> g.spec_valid_id(s) && !(g.types@[s as int] is Typedef)
            && !(g.types@[s as int] is Volatile) && !(g.types@[s as int] is Const)
            && !(g.types@[s as int] is Restrict),
    decreases fuel,
{
    if (id as usize) >= g.types.len() {
        return None;
    }
    let next: u32 = match &g.types[id as usize] {
        TypeNode::Typedef { type_id, .. } => *type_id,
        TypeNode::Volatile { type_id } => *type_id,
        TypeNode::Const { type_id } => *type_id,
        TypeNode::Restrict { type_id } => *type_id,
        _ => {
            return Some(id);
        },
    };
    if fuel == 0 {
        None
    } else {
        strip_mods(g, next, fuel - 1)
    }
}

/// The byte size of the type `id`: `None` when the id is invalid, the kind
/// is unsized, or an array size overflows the 32-bit range.
pub open spec fn spec_type_size(g: TypeGraph, id: u32, fuel: nat) -> Option<u64>
    decreases fuel,
{
    if !g.spec_valid_id(id) {
        None
    } else {
        match g.types@[id as int] {
            TypeNode::Void => Some(0),
            TypeNode::Integer { size, .. } => Some(size as u64),
            TypeNode::Pointer { .. } => Some(8),
            TypeNode::Array { elem_type_id, count, .. } => if fuel == 0 {
                None
            } else {
                match spec_type_size(g, elem_type_id, (fuel - 1) as nat) {
                    Some(es) => if es * count > 0xFFFF_FFFF {
                        None
                    } else {
                        Some((es * count) as u64)
                    },
                    None => None,
                }
            },
            TypeNode::Struct { size, .. } => Some(size as u64),
            TypeNode::Union { size, .. } => Some(size as u64),
            TypeNode::Enum { size, .. } => Some(size as u64),
            TypeNode::Enum64 { size, .. } => Some(size as u64),
            TypeNode::Typedef { type_id, .. } => if fuel == 0 {
                None
            } else {
                spec_type_size(g, type_id, (fuel - 1) as nat)
            },
            TypeNode::Volatile { type_id } => if fuel == 0 {
                None
            } else {
                spec_type_size(g, type_id, (fuel - 1) as nat)
            },
            TypeNode::Const { type_id } => if fuel == 0 {
                None
            } else {
                spec_type_size(g, type_id, (fuel - 1) as nat)
            },
            TypeNode::Restrict { type_id } => if fuel == 0 {
                None
            } else {
                spec_type_size(g, type_id, (fuel - 1) as nat)
            },
            TypeNode::Float { size, .. } => Some(size as u64),
            TypeNode::DataSection { size, .. } => Some(size as u64),
            _ => None,
        }
    }
}

/// Returns the byte size of the type `id`.
pub fn type_size(g: &TypeGraph, id: u32, fuel: usize) -> (r: Option<u64>)
    ensures
        r == spec_type_size(*g, id, fuel as nat),
        r matches Some(v) ==> v <= 0xFFFF_FFFF,
    decreases fuel,
{
    if (id as usize) >= g.types.len() {
        return None;
    }
    match &g.types[id as usize] {
        TypeNode::Void => Some(0),
        TypeNode::Integer { size, .. } => Some(*size as u64),
        TypeNode::Pointer { .. } => Some(8),
        TypeNode::Array { elem_type_id, count, .. } => {
            if fuel == 0 {
                return None;
            }
            match type_size(g, *elem_type_id, fuel - 1) {
                Some(es) => {
                    proof {
                        assert(es * (*count as u64) <= 0xFFFF_FFFFu64 * 0xFFFF_FFFFu64)
                            by (nonlinear_arith)
                            requires
                                es <= 0xFFFF_FFFF,
                                *count <= 0xFFFF_FFFF,
                        ;
                    }
                    let total = es * (*count as u64);
                    if total > 0xFFFF_FFFF {
                        None
                    } else {
                        Some(total)
                    }
                },
                None => None,
            }
        },
        TypeNode::Struct { size, .. } => Some(*size as u64),
        TypeNode::Union { size, .. } => Some(*size as u64),
        TypeNode::Enum { size, .. } => Some(*size as u64),
        TypeNode::Enum64 { size, .. } => Some(*size as u64),
        TypeNode::Typedef { type_id, .. } => {
            if fuel == 0 {
                return None;
            }
            type_size(g, *type_id, fuel - 1)
        },
        TypeNode::Volatile { type_id } => {
            if fuel == 0 {
                return None;
            }
            type_size(g, *type_id, fuel - 1)
        },
        TypeNode::Const { type_id } => {
            if fuel == 0 {
                return None;
            }
            type_size(g, *type_id, fuel - 1)
        },
        TypeNode::Restrict { type_id } => {
            if fuel == 0 {
                return None;
            }
            type_size(g, *type_id, fuel - 1)
        },
        TypeNode::Float { size, .. } => Some(*size as u64),
        TypeNode::DataSection { size, .. } => Some(*size as u64),
        _ => None,
    }
}

/// One resolved step of an access path.
#[derive(Copy, Clone, Debug, PartialEq, Eq, Structural)]
pub enum AccessStep {
    /// Descend into the member at `index` of the composite `composite_id`.
    Member {
        /// Id of the struct or union descended into, wrappers stripped.
        composite_id: u32,
        /// Position of the member inside the composite.
        index: u32,
        /// Offset of the member's name in the local string table.
        name_off: u32,
    },
    /// Index an array or pointer element.
    Element {
        /// The element index.
        index: u32,
    },
}

/// The resolved form of an access-spec: the step path and the placement of
/// the final scalar, all relative to the local graph.
#[derive(Clone, Debug)]
pub struct ResolvedAccess {
    /// The local root type id with wrappers stripped.
    pub root_id: u32,
    /// The raw index parts the string decoded to.
    pub parts: Vec<u32>,
    /// The steps after the root selector.
    pub steps: Vec<AccessStep>,
    /// Bit offset of the final scalar from the start of the root instance.
    pub bit_offset: u32,
    /// Id of the final type, wrappers stripped.
    pub final_id: u32,
    /// Bit width of the final bitfield, or 0 for a plain field.
    pub bitfield_size: u32,
}

/// The ghost mirror of [`ResolvedAccess`].
pub ghost struct ResolvedAccessG {
    /// The local root type id with wrappers stripped.
    pub root_id: u32,
    /// The raw index parts the string decoded to.
    pub parts: Seq<u32>,
    /// The steps after the root selector.
    pub steps: Seq<AccessStep>,
    /// Bit offset of the final scalar from the start of the root instance.
    pub bit_offset: u32,
    /// Id of the final type, wrappers stripped.
    pub final_id: u32,
    /// Bit width of the final bitfield, or 0 for a plain field.
    pub bitfield_size: u32,
}

impl View for ResolvedAccess {
    type V = ResolvedAccessG;

    open spec fn view(&self) -> ResolvedAccessG {
        ResolvedAccessG {
            root_id: self.root_id,
            parts: self.parts@,
            steps: self.steps@,
            bit_offset: self.bit_offset,
            final_id: self.final_id,
            bitfield_size: self.bitfield_size,
        }
    }
}

/// The bit offset of member `m` of a composite, with the bitfield width
/// stripped off when the composite's kind flag is set.
pub open spec fn spec_member_bit_offset(kind_flag: bool, offset: u32) -> u32 {
    if kind_flag {
        (offset & 0x00FF_FFFF) as u32
    } else {
        offset
    }
}

/// The bitfield width of member `m`, 0 for plain members.
pub open spec fn spec_member_bitfield_size(kind_flag: bool, offset: u32) -> u32 {
    if kind_flag {
        (offset >> 24) as u32
    } else {
        0
    }
}

/// Walks the remaining index parts from `id`, accumulating the path.
pub open spec fn spec_walk(
    g: TypeGraph,
    id: u32,
    parts: Seq<u32>,
    i: int,
    bit: u32,
    steps: Seq<AccessStep>,
    bitfield: u32,
) -> Result<ResolvedAccessG, AccessError>
    decreases parts.len() - i,
{
    match spec_strip_mods(g, id, g.types@.len()) {
        None => Err(AccessError::InvalidTypeId { type_id: id }),
        Some(sid) => {
            if i >= parts.len() {
                Ok(
                    ResolvedAccessG {
                        root_id: 0,
                        parts: parts,
                        steps: steps,
                        bit_offset: bit,
                        final_id: sid,
                        bitfield_size: bitfield,
                    },
                )
            } else {
                let p = parts[i];
                match g.types@[sid as int] {
                    TypeNode::Struct { members, kind_flag, .. } => {
                        if p >= members@.len() {
                            Err(AccessError::IndexOutOfBounds { type_id: sid, index: p })
                        } else {
                            let m = members@[p as int];
                            let moff = spec_member_bit_offset(kind_flag, m.offset);
                            if bit + moff > 0xFFFF_FFFF {
                                Err(AccessError::UnsizedType { type_id: sid })
                            } else {
                                spec_walk(
                                    g,
                                    m.type_id,
                                    parts,
                                    i + 1,
                                    (bit + moff) as u32,
                                    steps.push(
                                        AccessStep::Member {
                                            composite_id: sid,
                                            index: p,
                                            name_off: m.name_off,
                                        },
                                    ),
                                    spec_member_bitfield_size(kind_flag, m.offset),
                                )
                            }
                        }
                    },
                    TypeNode::Union { members, kind_flag, .. } => {
                        if p >= members@.len() {
                            Err(AccessError::IndexOutOfBounds { type_id: sid, index: p })
                        } else {
                            let m = members@[p as int];
                            let moff = spec_member_bit_offset(kind_flag, m.offset);
                            if bit + moff > 0xFFFF_FFFF {
                                Err(AccessError::UnsizedType { type_id: sid })
                            } else {
                                spec_walk(
                                    g,
                                    m.type_id,
                                    parts,
                                    i + 1,
                                    (bit + moff) as u32,
                                    steps.push(
                                        AccessStep::Member {
                                            composite_id: sid,
                                            index: p,
                                            name_off: m.name_off,
                                        },
                                    ),
                                    spec_member_bitfield_size(kind_flag, m.offset),
                                )
                            }
                        }
                    },
                    TypeNode::Array { elem_type_id, .. } => {
                        match spec_type_size(g, elem_type_id, g.types@.len()) {
                            None => Err(AccessError::UnsizedType { type_id: elem_type_id }),
                            Some(es) => {
                                let add = p * es * 8;
                                if bit + add > 0xFFFF_FFFF {
                                    Err(AccessError::UnsizedType { type_id: sid })
                                } else {
                                    spec_walk(
                                        g,
                                        elem_type_id,
                                        parts,
                                        i + 1,
                                        (bit + add) as u32,
                                        steps.push(AccessStep::Element { index: p }),
                                        0,
                                    )
                                }
                            },
                        }
                    },
                    TypeNode::Pointer { type_id } => {
                        match spec_type_size(g, type_id, g.types@.len()) {
                            None => Err(AccessError::UnsizedType { type_id: type_id }),
                            Some(es) => {
                                let add = p * es * 8;
                                if bit + add > 0xFFFF_FFFF {
                                    Err(AccessError::UnsizedType { type_id: sid })
                                } else {
                                    spec_walk(
                                        g,
                                        type_id,
                                        parts,
                                        i + 1,
                                        (bit + add) as u32,
                                        steps.push(AccessStep::Element { index: p }),
                                        0,
                                    )
                                }
                            },
                        }
                    },
                    _ => Err(AccessError::NotComposite { type_id: sid }),
                }
            }
        },
    }
}

/// The resolved access for root `root_id` and the parts of `s`, with the
/// root selector folded into the starting bit offset.
pub open spec fn spec_resolve_access(g: TypeGraph, root_id: u32, s: Seq<u8>) -> Result<
    ResolvedAccessG,
    AccessError,
> {
    match spec_parse_access(s) {
        None => Err(AccessError::InvalidAccessString),
        Some(parts) => {
            if parts.len() == 0 {
                Err(AccessError::InvalidAccessString)
            } else {
                match spec_strip_mods(g, root_id, g.types@.len()) {
                    None => Err(AccessError::InvalidTypeId { type_id: root_id }),
                    Some(sid) => {
                        match spec_type_size(g, sid, g.types@.len()) {
                            None => Err(AccessError::UnsizedType { type_id: sid }),
                            Some(rs) => {
                                let bit0 = parts[0] * rs * 8;
                                if bit0 > 0xFFFF_FFFF {
                                    Err(AccessError::UnsizedType { type_id: sid })
                                } else {
                                    match spec_walk(
                                        g,
                                        sid,
                                        parts,
                                        1,
                                        bit0 as u32,
                                        Seq::empty(),
                                        0,
                                    ) {
                                        Ok(ra) => Ok(
                                            ResolvedAccessG {
                                                root_id: sid,
                                                parts: ra.parts,
                                                steps: ra.steps,
                                                bit_offset: ra.bit_offset,
                                                final_id: ra.final_id,
                                                bitfield_size: ra.bitfield_size,
                                            },
                                        ),
                                        Err(e) => Err(e),
                                    }
                                }
                            },
                        }
                    },
                }
            }
        },
    }
}

/// Walks the remaining parts from `id` at position `i`, mirroring
/// [`spec_walk`].
fn walk(
    g: &TypeGraph,
    id: u32,
    parts: &Vec<u32>,
    i: usize,
    bit: u32,
    steps: Vec<AccessStep>,
    bitfield: u32,
) -> (r: Result<ResolvedAccess, AccessError>)
    requires
        i <= parts@.len(),
    ensures
        (match spec_walk(*g, id, parts@, i as int, bit, steps@, bitfield) {
            Ok(ra) => r matches Ok(x) && x@ == ra && ra.parts == parts@,
            Err(e) => r == Err::<ResolvedAccess, AccessError>(e),
        }),
    decreases parts@.len() - i,
{
    let glen = g.types.len();
    let sid = match strip_mods(g, id, glen) {
        Some(sid) => sid,
        None => {
            return Err(AccessError::InvalidTypeId { type_id: id });
        },
    };
    if i >= parts.len() {
        return Ok(
            ResolvedAccess {
                root_id: 0,
                parts: parts.clone(),
                steps,
                bit_offset: bit,
                final_id: sid,
                bitfield_size: bitfield,
            },
        );
    }
    let p = parts[i];
    match &g.types[sid as usize] {
        TypeNode::Struct { members, kind_flag, .. } => {
            if (p as usize) >= members.len() {
                return Err(AccessError::IndexOutOfBounds { type_id: sid, index: p });
            }
            let m = members[p as usize];
            let moff = if *kind_flag {
                m.offset & 0x00FF_FFFF
            } else {
                m.offset
            };
            let nb = bit as u64 + moff as u64;
            if nb > 0xFFFF_FFFF {
                return Err(AccessError::UnsizedType { type_id: sid });
            }
            let bf = if *kind_flag {
                m.offset >> 24
            } else {
                0
            };
            let mut nsteps = steps;
            nsteps.push(AccessStep::Member { composite_id: sid, index: p, name_off: m.name_off });
            walk(g, m.type_id, parts, i + 1, nb as u32, nsteps, bf)
        },
        TypeNode::Union { members, kind_flag, .. } => {
            if (p as usize) >= members.len() {
                return Err(AccessError::IndexOutOfBounds { type_id: sid, index: p });
            }
            let m = members[p as usize];
            let moff = if *kind_flag {
                m.offset & 0x00FF_FFFF
            } else {
                m.offset
            };
            let nb = bit as u64 + moff as u64;
            if nb > 0xFFFF_FFFF {
                return Err(AccessError::UnsizedType { type_id: sid });
            }
            let bf = if *kind_flag {
                m.offset >> 24
            } else {
                0
            };
            let mut nsteps = steps;
            nsteps.push(AccessStep::Member { composite_id: sid, index: p, name_off: m.name_off });
            walk(g, m.type_id, parts, i + 1, nb as u32, nsteps, bf)
        },
        TypeNode::Array { elem_type_id, .. } => {
            let elem = *elem_type_id;
            match type_size(g, elem, glen) {
                None => Err(AccessError::UnsizedType { type_id: elem }),
                Some(es) => {
                    proof {
                        assert(p as u64 * es <= 0xFFFF_FFFFu64 * 0xFFFF_FFFFu64)
                            by (nonlinear_arith)
                            requires
                                es <= 0xFFFF_FFFF,
                                p <= 0xFFFF_FFFF,
                        ;
                    }
                    let pe = p as u64 * es;
                    if pe >= 0x2000_0000 {
                        return Err(AccessError::UnsizedType { type_id: sid });
                    }
                    let nb = bit as u64 + pe * 8;
                    if nb > 0xFFFF_FFFF {
                        return Err(AccessError::UnsizedType { type_id: sid });
                    }
                    let mut nsteps = steps;
                    nsteps.push(AccessStep::Element { index: p });
                    walk(g, elem, parts, i + 1, nb as u32, nsteps, 0)
                },
            }
        },
        TypeNode::Pointer { type_id } => {
            let elem = *type_id;
            match type_size(g, elem, glen) {
                None => Err(AccessError::UnsizedType { type_id: elem }),
                Some(es) => {
                    proof {
                        assert(p as u64 * es <= 0xFFFF_FFFFu64 * 0xFFFF_FFFFu64)
                            by (nonlinear_arith)
                            requires
                                es <= 0xFFFF_FFFF,
                                p <= 0xFFFF_FFFF,
                        ;
                    }
                    let pe = p as u64 * es;
                    if pe >= 0x2000_0000 {
                        return Err(AccessError::UnsizedType { type_id: sid });
                    }
                    let nb = bit as u64 + pe * 8;
                    if nb > 0xFFFF_FFFF {
                        return Err(AccessError::UnsizedType { type_id: sid });
                    }
                    let mut nsteps = steps;
                    nsteps.push(AccessStep::Element { index: p });
                    walk(g, elem, parts, i + 1, nb as u32, nsteps, 0)
                },
            }
        },
        _ => Err(AccessError::NotComposite { type_id: sid }),
    }
}

/// Resolves the access-spec string `s` rooted at `root_id` against `g`.
pub fn resolve_access(g: &TypeGraph, root_id: u32, s: &Vec<u8>) -> (r: Result<
    ResolvedAccess,
    AccessError,
>)
    ensures
        (match spec_resolve_access(*g, root_id, s@) {
            Ok(ra) => r matches Ok(x) && x@ == ra,
            Err(e) => r == Err::<ResolvedAccess, AccessError>(e),
        }),
        r matches Ok(x) ==> x.parts@.len() >= 1 && g.spec_valid_id(x.root_id),
{
    let parts = match parse_access(s) {
        Ok(parts) => parts,
        Err(e) => {
            return Err(e);
        },
    };
    if parts.len() == 0 {
        return Err(AccessError::InvalidAccessString);
    }
    let glen = g.types.len();
    let sid = match strip_mods(g, root_id, glen) {
        Some(sid) => sid,
        None => {
            return Err(AccessError::InvalidTypeId { type_id: root_id });
        },
    };
    let rs = match type_size(g, sid, glen) {
        Some(rs) => rs,
        None => {
            return Err(AccessError::UnsizedType { type_id: sid });
        },
    };
    proof {
        assert(parts@[0] as u64 * rs <= 0xFFFF_FFFFu64 * 0xFFFF_FFFFu64) by (nonlinear_arith)
            requires
                rs <= 0xFFFF_FFFF,
                parts@[0] <= 0xFFFF_FFFF,
        ;
    }
    let pe = parts[0] as u64 * rs;
    if pe >= 0x2000_0000 {
        return Err(AccessError::UnsizedType { type_id: sid });
    }
    let bit0 = pe * 8;
    if bit0 > 0xFFFF_FFFF {
        return Err(AccessError::UnsizedType { type_id: sid });
    }
    match walk(g, sid, &parts, 1, bit0 as u32, Vec::new(), 0) {
        Ok(ra) => Ok(
            ResolvedAccess {
                root_id: sid,
                parts: ra.parts,
                steps: ra.steps,
                bit_offset: ra.bit_offset,
                final_id: ra.final_id,
                bitfield_size: ra.bitfield_size,
            },
        ),
        Err(e) => Err(e),
    }
}

} // verus!
