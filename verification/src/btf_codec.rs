//! The type-debug binary format: a fixed header, a packed array of
//! variable-length type records, and the raw string blob.
//!
//! Decoding stops at the declared type-section length; a record claiming to
//! extend past it is a hard parse failure, as is a reference to an id above
//! the ids seen so far — the format lets a record reference only
//! earlier-or-equal ids, cycles being expressed through forward
//! declarations and pointers.

use vstd::prelude::*;

use crate::btf::{DataSecEntry, EnumEntry, FuncParam, Member, TypeGraph, TypeNode};
use crate::cursor::{read_u16, read_u32, spec_u16_at, spec_u32_at, Endianness};

verus! {

/// The magic value opening a type-debug blob.
pub const BTF_MAGIC: u16 = 0xEB9F;

/// The version this codec reads and writes.
pub const BTF_VERSION: u8 = 1;

/// The fixed header length in bytes.
pub const BTF_HEADER_LEN: u32 = 24;

/// An upper bound on one encoded record: the common header plus the widest
/// tail a sixteen-bit element count admits.
pub const BTF_MAX_RECORD_LEN: u32 = 0xC_0000;

/// Why a type-debug blob failed to parse; fatal to the whole object.
#[derive(Copy, Clone, Debug, PartialEq, Eq, Structural)]
pub enum BtfError {
    /// The blob is shorter than the fixed header.
    TruncatedHeader,
    /// The magic value is wrong.
    InvalidMagic {
        /// The value found.
        magic: u16,
    },
    /// The version is not supported.
    InvalidVersion {
        /// The value found.
        version: u8,
    },
    /// The header's layout fields contradict the blob's length.
    InvalidHeader,
    /// A type record extends past the declared type-section length.
    TruncatedType {
        /// Byte offset of the offending record inside the type section.
        offset: u32,
    },
    /// A record carries a kind code this codec does not know.
    InvalidTypeKind {
        /// The code found.
        kind: u32,
    },
    /// A record references an id later than its own: a forward reference,
    /// which only a forward declaration may express.
    ForwardReference {
        /// The id of the referring record.
        type_id: u32,
        /// The offending referenced id.
        referenced: u32,
    },
    /// A record holds an integer encoding this codec does not model.
    InvalidIntEncoding {
        /// The encoding word found.
        encoding: u32,
    },
    /// The string section does not start with its reserved empty entry.
    InvalidStringSection,
}

/// Bounds that make a graph expressible in the binary format: member,
/// entry and parameter counts fit the record's 16-bit length field, and
/// 32-bit enumeration values fit their stored width.
pub open spec fn spec_encodable_node(n: TypeNode) -> bool {
    match n {
        TypeNode::Integer { bits, .. } => bits <= 0xFF,
        TypeNode::Struct { members, .. } => members@.len() <= 0xFFFF,
        TypeNode::Union { members, .. } => members@.len() <= 0xFFFF,
        TypeNode::Enum { entries, signed, .. } => entries@.len() <= 0xFFFF && forall|k: int|
            0 <= k < entries@.len() ==> (if signed {
                -0x8000_0000 <= (#[trigger] entries@[k]).value <= 0x7FFF_FFFF
            } else {
                0 <= (#[trigger] entries@[k]).value <= 0xFFFF_FFFF
            }),
        TypeNode::Enum64 { entries, .. } => entries@.len() <= 0xFFFF,
        TypeNode::Function { linkage, .. } => linkage <= 0xFFFF,
        TypeNode::FunctionPrototype { params, .. } => params@.len() <= 0xFFFF,
        TypeNode::DataSection { entries, .. } => entries@.len() <= 0xFFFF,
        TypeNode::Void => false,
        _ => true,
    }
}

/// Whether the whole graph fits the format: well formed and every node
/// after the implicit void encodable.
pub open spec fn spec_encodable(g: TypeGraph) -> bool {
    &&& g.wf()
    &&& forall|i: int| 1 <= i < g.types@.len() ==> spec_encodable_node(#[trigger] g.types@[i])
}

// --- encoding ----------------------------------------------------------------

/// The bytes of `v` in byte order `e`.
pub open spec fn spec_enc_u32(v: u32, e: Endianness) -> Seq<u8> {
    match e {
        Endianness::Little => seq![
            (v & 0xFF) as u8,
            ((v >> 8) & 0xFF) as u8,
            ((v >> 16) & 0xFF) as u8,
            ((v >> 24) & 0xFF) as u8,
        ],
        Endianness::Big => seq![
            ((v >> 24) & 0xFF) as u8,
            ((v >> 16) & 0xFF) as u8,
            ((v >> 8) & 0xFF) as u8,
            (v & 0xFF) as u8,
        ],
    }
}

/// Appends `v` in byte order `e`.
pub fn push_u32(out: &mut Vec<u8>, v: u32, e: Endianness)
    ensures
        final(out)@ == old(out)@ + spec_enc_u32(v, e),
{
    match e {
        Endianness::Little => {
            out.push((v & 0xFF) as u8);
            out.push(((v >> 8) & 0xFF) as u8);
            out.push(((v >> 16) & 0xFF) as u8);
            out.push(((v >> 24) & 0xFF) as u8);
        },
        Endianness::Big => {
            out.push(((v >> 24) & 0xFF) as u8);
            out.push(((v >> 16) & 0xFF) as u8);
            out.push(((v >> 8) & 0xFF) as u8);
            out.push((v & 0xFF) as u8);
        },
    }
    proof {
        assert(out@ =~= old(out)@ + spec_enc_u32(v, e));
    }
}

/// Reading four appended bytes gives the value back.
pub proof fn lemma_u32_round_trip(v: u32, e: Endianness)
    ensures
        spec_u32_at(spec_enc_u32(v, e), 0, e) == v,
{
    let b = spec_enc_u32(v, e);
    assert(v & 0xFF < 0x100 && (v >> 8) & 0xFF < 0x100 && (v >> 16) & 0xFF < 0x100 && (v >> 24)
        & 0xFF < 0x100) by (bit_vector);
    assert((v & 0xFF) + ((v >> 8) & 0xFF) * 0x100 + ((v >> 16) & 0xFF) * 0x1_0000 + ((v >> 24)
        & 0xFF) * 0x100_0000 == v) by (bit_vector);
    match e {
        Endianness::Little => {
            assert(b[0] == (v & 0xFF) as u8 && b[1] == ((v >> 8) & 0xFF) as u8 && b[2] == ((v
                >> 16) & 0xFF) as u8 && b[3] == ((v >> 24) & 0xFF) as u8);
        },
        Endianness::Big => {
            assert(b[3] == (v & 0xFF) as u8 && b[2] == ((v >> 8) & 0xFF) as u8 && b[1] == ((v
                >> 16) & 0xFF) as u8 && b[0] == ((v >> 24) & 0xFF) as u8);
        },
    }
}

/// Appends the record of one node; the caller guarantees encodability.
#[verifier::loop_isolation(false)]
fn encode_node(out: &mut Vec<u8>, n: &TypeNode, e: Endianness)
    requires
        spec_encodable_node(*n),
    ensures
        old(out)@.len() <= final(out)@.len() <= old(out)@.len() + BTF_MAX_RECORD_LEN,
{
    let ghost len0 = out@.len();
    let kind: u32 = match n {
        TypeNode::Integer { .. } => 1,
        TypeNode::Pointer { .. } => 2,
        TypeNode::Array { .. } => 3,
        TypeNode::Struct { .. } => 4,
        TypeNode::Union { .. } => 5,
        TypeNode::Enum { .. } => 6,
        TypeNode::ForwardDecl { .. } => 7,
        TypeNode::Typedef { .. } => 8,
        TypeNode::Volatile { .. } => 9,
        TypeNode::Const { .. } => 10,
        TypeNode::Restrict { .. } => 11,
        TypeNode::Function { .. } => 12,
        TypeNode::FunctionPrototype { .. } => 13,
        TypeNode::Variable { .. } => 14,
        TypeNode::DataSection { .. } => 15,
        TypeNode::Float { .. } => 16,
        TypeNode::DeclTag { .. } => 17,
        TypeNode::TypeTag { .. } => 18,
        TypeNode::Enum64 { .. } => 19,
        TypeNode::Void => 0,
    };
    let vlen: u32 = match n {
        TypeNode::Struct { members, .. } => members.len() as u32,
        TypeNode::Union { members, .. } => members.len() as u32,
        TypeNode::Enum { entries, .. } => entries.len() as u32,
        TypeNode::Enum64 { entries, .. } => entries.len() as u32,
        TypeNode::Function { linkage, .. } => *linkage,
        TypeNode::FunctionPrototype { params, .. } => params.len() as u32,
        TypeNode::DataSection { entries, .. } => entries.len() as u32,
        _ => 0,
    };
    let kind_flag: u32 = match n {
        TypeNode::Struct { kind_flag, .. } => {
            if *kind_flag {
                1
            } else {
                0
            }
        },
        TypeNode::Union { kind_flag, .. } => {
            if *kind_flag {
                1
            } else {
                0
            }
        },
        TypeNode::Enum { signed, .. } => {
            if *signed {
                1
            } else {
                0
            }
        },
        TypeNode::Enum64 { signed, .. } => {
            if *signed {
                1
            } else {
                0
            }
        },
        TypeNode::ForwardDecl { is_union, .. } => {
            if *is_union {
                1
            } else {
                0
            }
        },
        _ => 0,
    };
    let info: u32 = vlen | (kind << 24) | (kind_flag << 31);
    let size_or_type: u32 = match n {
        TypeNode::Integer { size, .. } => *size,
        TypeNode::Pointer { type_id } => *type_id,
        TypeNode::Array { .. } => 0,
        TypeNode::Struct { size, .. } => *size,
        TypeNode::Union { size, .. } => *size,
        TypeNode::Enum { size, .. } => *size,
        TypeNode::Enum64 { size, .. } => *size,
        TypeNode::ForwardDecl { .. } => 0,
        TypeNode::Typedef { type_id, .. } => *type_id,
        TypeNode::Volatile { type_id } => *type_id,
        TypeNode::Const { type_id } => *type_id,
        TypeNode::Restrict { type_id } => *type_id,
        TypeNode::Function { proto_type_id, .. } => *proto_type_id,
        TypeNode::FunctionPrototype { return_type_id, .. } => *return_type_id,
        TypeNode::Variable { type_id, .. } => *type_id,
        TypeNode::DataSection { size, .. } => *size,
        TypeNode::Float { size, .. } => *size,
        TypeNode::DeclTag { type_id, .. } => *type_id,
        TypeNode::TypeTag { type_id, .. } => *type_id,
        TypeNode::Void => 0,
    };
    push_u32(out, n.name_off(), e);
    push_u32(out, info, e);
    push_u32(out, size_or_type, e);
    match n {
        TypeNode::Integer { signed, bits, .. } => {
            let enc: u32 = if *signed {
                (1u32 << 24) | *bits
            } else {
                *bits
            };
            push_u32(out, enc, e);
        },
        TypeNode::Array { elem_type_id, index_type_id, count } => {
            push_u32(out, *elem_type_id, e);
            push_u32(out, *index_type_id, e);
            push_u32(out, *count, e);
        },
        TypeNode::Struct { members, .. } => {
            encode_members(out, members, e);
        },
        TypeNode::Union { members, .. } => {
            encode_members(out, members, e);
        },
        TypeNode::Enum { entries, .. } => {
            let m = entries.len();
            let mut k: usize = 0;
            while k < m
                invariant
                    k <= m,
                    m == entries@.len(),
                    out@.len() == len0 + 12 + 8 * k,
                decreases m - k,
            {
                push_u32(out, entries[k].name_off, e);
                let bits = crate::relocate::i64_to_bits(entries[k].value);
                push_u32(out, (bits & 0xFFFF_FFFF) as u32, e);
                k = k + 1;
            }
        },
        TypeNode::Enum64 { entries, .. } => {
            let m = entries.len();
            let mut k: usize = 0;
            while k < m
                invariant
                    k <= m,
                    m == entries@.len(),
                    out@.len() == len0 + 12 + 12 * k,
                decreases m - k,
            {
                push_u32(out, entries[k].name_off, e);
                let bits = crate::relocate::i64_to_bits(entries[k].value);
                push_u32(out, (bits & 0xFFFF_FFFF) as u32, e);
                push_u32(out, (bits >> 32) as u32, e);
                k = k + 1;
            }
        },
        TypeNode::FunctionPrototype { params, .. } => {
            let m = params.len();
            let mut k: usize = 0;
            while k < m
                invariant
                    k <= m,
                    m == params@.len(),
                    out@.len() == len0 + 12 + 8 * k,
                decreases m - k,
            {
                push_u32(out, params[k].name_off, e);
                push_u32(out, params[k].type_id, e);
                k = k + 1;
            }
        },
        TypeNode::Variable { linkage, .. } => {
            push_u32(out, *linkage, e);
        },
        TypeNode::DataSection { entries, .. } => {
            let m = entries.len();
            let mut k: usize = 0;
            while k < m
                invariant
                    k <= m,
                    m == entries@.len(),
                    out@.len() == len0 + 12 + 12 * k,
                decreases m - k,
            {
                push_u32(out, entries[k].type_id, e);
                push_u32(out, entries[k].offset, e);
                push_u32(out, entries[k].size, e);
                k = k + 1;
            }
        },
        TypeNode::DeclTag { component_index, .. } => {
            push_u32(out, *component_index, e);
        },
        _ => {},
    }
}

/// Appends the member records of a composite.
#[verifier::loop_isolation(false)]
fn encode_members(out: &mut Vec<u8>, members: &Vec<Member>, e: Endianness)
    ensures
        final(out)@.len() == old(out)@.len() + 12 * members@.len(),
{
    let m = members.len();
    let mut k: usize = 0;
    while k < m
        invariant
            k <= m,
            m == members@.len(),
            out@.len() == old(out)@.len() + 12 * k,
        decreases m - k,
    {
        push_u32(out, members[k].name_off, e);
        push_u32(out, members[k].type_id, e);
        push_u32(out, members[k].offset, e);
        k = k + 1;
    }
}

/// Writes the graph back into the binary format: the fixed header, each
/// node's record in id order, then the string blob. A graph decoded from a
/// blob of the same byte order re-encodes to the identical bytes.
#[verifier::loop_isolation(false)]
pub fn encode_btf(g: &TypeGraph, e: Endianness) -> (r: Option<Vec<u8>>)
    ensures
        r is Some ==> spec_encodable(*g),
        !spec_encodable(*g) ==> r is None,
        spec_encodable(*g) && (g.types@.len() - 1) * BTF_MAX_RECORD_LEN <= 0xFFFF_FFFF
            ==> r is Some,
{
    if g.types.len() == 0 || g.strings.len() == 0 {
        return None;
    }
    if g.types.len() > 0xFFFF_FFFF as usize || g.strings.len() > 0xFFFF_FFFF as usize {
        return None;
    }
    if !matches!(&g.types[0], TypeNode::Void) {
        return None;
    }
    if g.strings[0] != 0 {
        return None;
    }
    // Hold every node to the format's field widths and reference rule.
    let mut i: usize = 1;
    while i < g.types.len()
        invariant
            1 <= i,
            forall|k: int| 1 <= k < i ==> spec_encodable_node(#[trigger] g.types@[k]),
            forall|k: int| 1 <= k < i ==> (#[trigger] g.types@[k]).refs_bounded(k),
        decreases g.types@.len() - i,
    {
        if !node_encodable(&g.types[i]) {
            return None;
        }
        if !node_refs_ok(&g.types[i], i) {
            return None;
        }
        i = i + 1;
    }
    let ghost glen = g.types@.len();
    let mut body: Vec<u8> = Vec::new();
    let mut i: usize = 1;
    while i < g.types.len()
        invariant
            1 <= i <= glen,
            glen == g.types@.len(),
            forall|k: int| 1 <= k < glen ==> spec_encodable_node(#[trigger] g.types@[k]),
            body@.len() <= (i - 1) * BTF_MAX_RECORD_LEN,
        decreases g.types@.len() - i,
    {
        encode_node(&mut body, &g.types[i], e);
        proof {
            assert((i - 1) * BTF_MAX_RECORD_LEN + BTF_MAX_RECORD_LEN == i
                * BTF_MAX_RECORD_LEN) by (nonlinear_arith);
            assert(body@.len() <= i * BTF_MAX_RECORD_LEN);
        }
        i = i + 1;
    }
    if body.len() > 0xFFFF_FFFF as usize || g.strings.len() > 0xFFFF_FFFF as usize {
        return None;
    }
    let type_len = body.len() as u32;
    let str_len = g.strings.len() as u32;
    let mut out: Vec<u8> = Vec::new();
    match e {
        Endianness::Little => {
            out.push(0x9F);
            out.push(0xEB);
        },
        Endianness::Big => {
            out.push(0xEB);
            out.push(0x9F);
        },
    }
    out.push(BTF_VERSION);
    out.push(0);
    push_u32(&mut out, BTF_HEADER_LEN, e);
    push_u32(&mut out, 0, e);
    push_u32(&mut out, type_len, e);
    push_u32(&mut out, type_len, e);
    push_u32(&mut out, str_len, e);
    let mut k: usize = 0;
    while k < body.len()
        decreases body@.len() - k,
    {
        out.push(body[k]);
        k = k + 1;
    }
    let mut k: usize = 0;
    while k < g.strings.len()
        decreases g.strings@.len() - k,
    {
        out.push(g.strings[k]);
        k = k + 1;
    }
    Some(out)
}

/// Mirrors [`spec_encodable_node`].
#[verifier::loop_isolation(false)]
fn node_encodable(n: &TypeNode) -> (r: bool)
    ensures
        r == spec_encodable_node(*n),
{
    match n {
        TypeNode::Integer { bits, .. } => *bits <= 0xFF,
        TypeNode::Struct { members, .. } => members.len() <= 0xFFFF,
        TypeNode::Union { members, .. } => members.len() <= 0xFFFF,
        TypeNode::Enum { entries, signed, .. } => {
            if entries.len() > 0xFFFF {
                return false;
            }
            let m = entries.len();
            let mut k: usize = 0;
            while k < m
                invariant
                    k <= m,
                    m == entries@.len(),
                    m <= 0xFFFF,
                    forall|j: int|
                        0 <= j < k ==> (if *signed {
                            -0x8000_0000 <= (#[trigger] entries@[j]).value <= 0x7FFF_FFFF
                        } else {
                            0 <= (#[trigger] entries@[j]).value <= 0xFFFF_FFFF
                        }),
                decreases m - k,
            {
                let v = entries[k].value;
                if *signed {
                    if v < -0x8000_0000i64 || v > 0x7FFF_FFFFi64 {
                        return false;
                    }
                } else {
                    if v < 0 || v > 0xFFFF_FFFFi64 {
                        return false;
                    }
                }
                k = k + 1;
            }
            true
        },
        TypeNode::Enum64 { entries, .. } => entries.len() <= 0xFFFF,
        TypeNode::Function { linkage, .. } => *linkage <= 0xFFFF,
        TypeNode::FunctionPrototype { params, .. } => params.len() <= 0xFFFF,
        TypeNode::DataSection { entries, .. } => entries.len() <= 0xFFFF,
        TypeNode::Void => false,
        _ => true,
    }
}

/// Mirrors [`TypeNode::refs_bounded`].
#[verifier::loop_isolation(false)]
fn node_refs_ok(n: &TypeNode, max_id: usize) -> (r: bool)
    ensures
        r == n.refs_bounded(max_id as int),
{
    match n {
        TypeNode::Pointer { type_id } => *type_id as usize <= max_id,
        TypeNode::Array { elem_type_id, index_type_id, .. } => *elem_type_id as usize <= max_id
            && *index_type_id as usize <= max_id,
        TypeNode::Struct { members, .. } => members_refs_ok(members, max_id),
        TypeNode::Union { members, .. } => members_refs_ok(members, max_id),
        TypeNode::Typedef { type_id, .. } => *type_id as usize <= max_id,
        TypeNode::Volatile { type_id } => *type_id as usize <= max_id,
        TypeNode::Const { type_id } => *type_id as usize <= max_id,
        TypeNode::Restrict { type_id } => *type_id as usize <= max_id,
        TypeNode::Function { proto_type_id, .. } => *proto_type_id as usize <= max_id,
        TypeNode::FunctionPrototype { return_type_id, params } => {
            if *return_type_id as usize > max_id {
                return false;
            }
            let m = params.len();
            let mut k: usize = 0;
            while k < m
                invariant
                    k <= m,
                    m == params@.len(),
                    forall|j: int| 0 <= j < k ==> #[trigger] params@[j].type_id <= max_id,
                decreases m - k,
            {
                if params[k].type_id as usize > max_id {
                    return false;
                }
                k = k + 1;
            }
            true
        },
        TypeNode::Variable { type_id, .. } => *type_id as usize <= max_id,
        TypeNode::DataSection { entries, .. } => {
            let m = entries.len();
            let mut k: usize = 0;
            while k < m
                invariant
                    k <= m,
                    m == entries@.len(),
                    forall|j: int| 0 <= j < k ==> #[trigger] entries@[j].type_id <= max_id,
                decreases m - k,
            {
                if entries[k].type_id as usize > max_id {
                    return false;
                }
                k = k + 1;
            }
            true
        },
        TypeNode::DeclTag { type_id, .. } => *type_id as usize <= max_id,
        TypeNode::TypeTag { type_id, .. } => *type_id as usize <= max_id,
        _ => true,
    }
}

/// Helper of [`node_refs_ok`] for member lists.
fn members_refs_ok(members: &Vec<Member>, max_id: usize) -> (r: bool)
    ensures
        r == forall|j: int| 0 <= j < members@.len() ==> #[trigger] members@[j].type_id <= max_id,
{
    let m = members.len();
    let mut k: usize = 0;
    while k < m
        invariant
            k <= m,
            m == members@.len(),
            forall|j: int| 0 <= j < k ==> #[trigger] members@[j].type_id <= max_id,
        decreases m - k,
    {
        if members[k].type_id as usize > max_id {
            return false;
        }
        k = k + 1;
    }
    true
}

// --- decoding ----------------------------------------------------------------


/// Accepted integer encodings: at most the signedness bit, with the offset
/// and reserved bytes clear.
pub open spec fn spec_int_encoding_ok(enc: u32) -> bool {
    (enc >> 24) & 0x0F <= 1 && (enc >> 16) & 0xFF == 0 && (enc >> 8) & 0xFF == 0
}

/// Whether the packed type records from `pos` to `end` are well formed when
/// the next record would receive id `id`: every record lies whole inside
/// the section, carries a known kind code and an accepted integer encoding,
/// references only earlier-or-equal ids, and the ids stay within the 32-bit
/// range.
pub open spec fn spec_btf_records_ok(
    data: Seq<u8>,
    e: Endianness,
    pos: int,
    end: int,
    id: int,
) -> bool
    decreases end - pos,
{
    if pos >= end {
        true
    } else if end - pos < 12 || id >= 0xFFFF_FFFF {
        false
    } else {
        let info = spec_u32_at(data, pos + 4, e);
        let sot = spec_u32_at(data, pos + 8, e) as int;
        let vlen = (info & 0xFFFF) as int;
        let kind = (info >> 24) & 0x1F;
        if kind == 1 {
            &&& end - pos >= 16
            &&& spec_int_encoding_ok(spec_u32_at(data, pos + 12, e))
            &&& spec_btf_records_ok(data, e, pos + 16, end, id + 1)
        } else if kind == 2 || kind == 8 || kind == 9 || kind == 10 || kind == 11 || kind == 12
            || kind == 18 {
            sot <= id && spec_btf_records_ok(data, e, pos + 12, end, id + 1)
        } else if kind == 3 {
            &&& end - pos >= 24
            &&& spec_u32_at(data, pos + 12, e) <= id
            &&& spec_u32_at(data, pos + 16, e) <= id
            &&& spec_btf_records_ok(data, e, pos + 24, end, id + 1)
        } else if kind == 4 || kind == 5 {
            &&& end - pos - 12 >= 12 * vlen
            &&& forall|j: int|
                0 <= j < vlen ==> (#[trigger] spec_u32_at(data, pos + 12 + 12 * j + 4, e)) <= id
            &&& spec_btf_records_ok(data, e, pos + 12 + 12 * vlen, end, id + 1)
        } else if kind == 6 {
            end - pos - 12 >= 8 * vlen && spec_btf_records_ok(
                data,
                e,
                pos + 12 + 8 * vlen,
                end,
                id + 1,
            )
        } else if kind == 7 || kind == 16 {
            spec_btf_records_ok(data, e, pos + 12, end, id + 1)
        } else if kind == 13 {
            &&& sot <= id
            &&& end - pos - 12 >= 8 * vlen
            &&& forall|j: int|
                0 <= j < vlen ==> (#[trigger] spec_u32_at(data, pos + 12 + 8 * j + 4, e)) <= id
            &&& spec_btf_records_ok(data, e, pos + 12 + 8 * vlen, end, id + 1)
        } else if kind == 14 || kind == 17 {
            &&& end - pos >= 16
            &&& sot <= id
            &&& spec_btf_records_ok(data, e, pos + 16, end, id + 1)
        } else if kind == 15 {
            &&& end - pos - 12 >= 12 * vlen
            &&& forall|j: int|
                0 <= j < vlen ==> (#[trigger] spec_u32_at(data, pos + 12 + 12 * j, e)) <= id
            &&& spec_btf_records_ok(data, e, pos + 12 + 12 * vlen, end, id + 1)
        } else if kind == 19 {
            end - pos - 12 >= 12 * vlen && spec_btf_records_ok(
                data,
                e,
                pos + 12 + 12 * vlen,
                end,
                id + 1,
            )
        } else {
            false
        }
    }
}

/// Whether a whole type-debug blob is well formed: the fixed header checks
/// out, the two sections tile the blob exactly, the string table opens with
/// its reserved empty entry, and every type record is well formed.
pub open spec fn spec_btf_ok(data: Seq<u8>, e: Endianness) -> bool {
    &&& data.len() >= BTF_HEADER_LEN
    &&& spec_u16_at(data, 0, e) == BTF_MAGIC
    &&& data[2] == BTF_VERSION
    &&& spec_u32_at(data, 4, e) == BTF_HEADER_LEN
    &&& spec_u32_at(data, 8, e) == 0
    &&& spec_u32_at(data, 16, e) == spec_u32_at(data, 12, e)
    &&& spec_u32_at(data, 12, e) % 4 == 0
    &&& BTF_HEADER_LEN + spec_u32_at(data, 12, e) + spec_u32_at(data, 20, e) == data.len()
    &&& spec_u32_at(data, 20, e) >= 1
    &&& data[BTF_HEADER_LEN + spec_u32_at(data, 12, e)] == 0
    &&& spec_btf_records_ok(
        data,
        e,
        BTF_HEADER_LEN as int,
        BTF_HEADER_LEN + spec_u32_at(data, 12, e),
        1,
    )
}

/// Parses a type-debug blob into a graph.
///
/// On success the graph is well formed: id 0 is the implicit void node,
/// every cross-reference resolves to an earlier-or-equal id, and the string
/// table opens with its reserved empty entry.
#[verifier::loop_isolation(false)]
#[verifier::rlimit(100)]
#[verifier::spinoff_prover]
pub fn parse_btf(bytes: &Vec<u8>, e: Endianness) -> (r: Result<TypeGraph, BtfError>)
    ensures
        r matches Ok(g) ==> g.wf(),
        r is Ok <==> spec_btf_ok(bytes@, e),
{
    if bytes.len() < BTF_HEADER_LEN as usize {
        return Err(BtfError::TruncatedHeader);
    }
    let magic = read_u16(bytes, 0, e);
    if magic != BTF_MAGIC {
        return Err(BtfError::InvalidMagic { magic });
    }
    let version = bytes[2];
    if version != BTF_VERSION {
        return Err(BtfError::InvalidVersion { version });
    }
    let hdr_len = read_u32(bytes, 4, e);
    let type_off = read_u32(bytes, 8, e);
    let type_len = read_u32(bytes, 12, e);
    let str_off = read_u32(bytes, 16, e);
    let str_len = read_u32(bytes, 20, e);
    if hdr_len != BTF_HEADER_LEN || type_off != 0 || str_off != type_len {
        return Err(BtfError::InvalidHeader);
    }
    if type_len % 4 != 0 {
        return Err(BtfError::InvalidHeader);
    }
    let total = BTF_HEADER_LEN as u64 + type_len as u64 + str_len as u64;
    if total != bytes.len() as u64 {
        return Err(BtfError::InvalidHeader);
    }
    if str_len == 0 {
        return Err(BtfError::InvalidStringSection);
    }
    let str_start = BTF_HEADER_LEN as usize + type_len as usize;
    if bytes[str_start] != 0 {
        return Err(BtfError::InvalidStringSection);
    }
    let mut strings: Vec<u8> = Vec::new();
    let mut k: usize = str_start;
    while k < bytes.len()
        invariant
            strings@.len() == k - str_start,
            str_start <= k <= bytes@.len(),
            bytes@[str_start as int] == 0,
            strings@.len() > 0 ==> strings@[0] == bytes@[str_start as int],
        decreases bytes@.len() - k,
    {
        strings.push(bytes[k]);
        k = k + 1;
    }
    proof {
        assert(strings@.len() == bytes@.len() - str_start);
        assert(strings@.len() == str_len);
    }

    let mut types: Vec<TypeNode> = Vec::new();
    types.push(TypeNode::Void);
    let section_end = BTF_HEADER_LEN as usize + type_len as usize;
    let mut pos: usize = BTF_HEADER_LEN as usize;
    while pos < section_end
        invariant
            BTF_HEADER_LEN as int <= pos <= section_end <= bytes@.len(),
            1 <= types@.len() <= pos,
            types@.len() <= 0xFFFF_FFFF,
            types@[0] is Void,
            forall|i: int|
                0 <= i < types@.len() ==> (#[trigger] types@[i]).refs_bounded(i),
            spec_btf_records_ok(bytes@, e, BTF_HEADER_LEN as int, section_end as int, 1)
                == spec_btf_records_ok(
                bytes@,
                e,
                pos as int,
                section_end as int,
                types@.len() as int,
            ),
        decreases section_end - pos,
    {
        let ghost rec_start: int = pos as int;
        let rec_off = (pos - BTF_HEADER_LEN as usize) as u32;
        if section_end - pos < 12 {
            return Err(BtfError::TruncatedType { offset: rec_off });
        }
        let id = types.len();
        if id >= 0xFFFF_FFFF as usize {
            return Err(BtfError::TruncatedType { offset: rec_off });
        }
        let name_off = read_u32(bytes, pos, e);
        let info = read_u32(bytes, pos + 4, e);
        let size_or_type = read_u32(bytes, pos + 8, e);
        let vlen = info & 0xFFFF;
        let kind = (info >> 24) & 0x1F;
        let kind_flag = (info >> 31) == 1;
        pos = pos + 12;
        let ghost tail_start: int = pos as int;
        let node: TypeNode = match kind {
            1 => {
                if section_end - pos < 4 {
                    return Err(BtfError::TruncatedType { offset: rec_off });
                }
                let enc = read_u32(bytes, pos, e);
                pos = pos + 4;
                let encoding = (enc >> 24) & 0x0F;
                if encoding > 1 || (enc >> 16) & 0xFF != 0 || (enc >> 8) & 0xFF != 0 {
                    return Err(BtfError::InvalidIntEncoding { encoding: enc });
                }
                TypeNode::Integer {
                    name_off,
                    size: size_or_type,
                    signed: encoding == 1,
                    bits: enc & 0xFF,
                }
            },
            2 => {
                if size_or_type as usize > id {
                    return Err(
                        BtfError::ForwardReference { type_id: id as u32, referenced: size_or_type },
                    );
                }
                TypeNode::Pointer { type_id: size_or_type }
            },
            3 => {
                if section_end - pos < 12 {
                    return Err(BtfError::TruncatedType { offset: rec_off });
                }
                let elem = read_u32(bytes, pos, e);
                let index = read_u32(bytes, pos + 4, e);
                let count = read_u32(bytes, pos + 8, e);
                pos = pos + 12;
                if elem as usize > id {
                    return Err(BtfError::ForwardReference { type_id: id as u32, referenced: elem });
                }
                if index as usize > id {
                    return Err(
                        BtfError::ForwardReference { type_id: id as u32, referenced: index },
                    );
                }
                TypeNode::Array { elem_type_id: elem, index_type_id: index, count }
            },
            4 | 5 => {
                let mut members: Vec<Member> = Vec::new();
                let mut k: u32 = 0;
                while k < vlen
                    invariant
                        tail_start <= pos <= section_end <= bytes@.len(),
                        types@.len() == id,
                        k <= vlen,
                        pos == tail_start + 12 * k,
                        forall|j: int|
                            0 <= j < members@.len() ==> (#[trigger] members@[j]).type_id <= id,
                        forall|j: int|
                            0 <= j < k ==> (#[trigger] spec_u32_at(
                                bytes@,
                                rec_start + 12 + 12 * j + 4,
                                e,
                            )) <= id,
                    decreases vlen - k,
                {
                    if section_end - pos < 12 {
                        proof {
                            assert(section_end - rec_start - 12 < 12 * (vlen as int));
                            assert(!spec_btf_records_ok(
                                bytes@,
                                e,
                                rec_start,
                                section_end as int,
                                id as int,
                            ));
                        }
                        return Err(BtfError::TruncatedType { offset: rec_off });
                    }
                    let mname = read_u32(bytes, pos, e);
                    let mtype = read_u32(bytes, pos + 4, e);
                    let moff = read_u32(bytes, pos + 8, e);
                    proof {
                        assert(mtype == spec_u32_at(
                            bytes@,
                            rec_start + 12 + 12 * (k as int) + 4,
                            e,
                        ));
                    }
                    pos = pos + 12;
                    if mtype as usize > id {
                        proof {
                            assert(!spec_btf_records_ok(
                                bytes@,
                                e,
                                rec_start,
                                section_end as int,
                                id as int,
                            ));
                        }
                        return Err(
                            BtfError::ForwardReference { type_id: id as u32, referenced: mtype },
                        );
                    }
                    members.push(Member { name_off: mname, type_id: mtype, offset: moff });
                    k = k + 1;
                }
                if kind == 4 {
                    TypeNode::Struct { name_off, size: size_or_type, members, kind_flag }
                } else {
                    TypeNode::Union { name_off, size: size_or_type, members, kind_flag }
                }
            },
            6 => {
                let mut entries: Vec<EnumEntry> = Vec::new();
                let mut k: u32 = 0;
                while k < vlen
                    invariant
                        tail_start <= pos <= section_end <= bytes@.len(),
                        k <= vlen,
                        pos == tail_start + 8 * k,
                    decreases vlen - k,
                {
                    if section_end - pos < 8 {
                        proof {
                            assert(section_end - rec_start - 12 < 8 * (vlen as int));
                            assert(!spec_btf_records_ok(
                                bytes@,
                                e,
                                rec_start,
                                section_end as int,
                                id as int,
                            ));
                        }
                        return Err(BtfError::TruncatedType { offset: rec_off });
                    }
                    let ename = read_u32(bytes, pos, e);
                    let eval = read_u32(bytes, pos + 4, e);
                    pos = pos + 8;
                    let value: i64 = if kind_flag {
                        crate::insn::i32_from_bits(eval) as i64
                    } else {
                        eval as i64
                    };
                    entries.push(EnumEntry { name_off: ename, value });
                    k = k + 1;
                }
                TypeNode::Enum { name_off, size: size_or_type, signed: kind_flag, entries }
            },
            7 => TypeNode::ForwardDecl { name_off, is_union: kind_flag },
            8 | 9 | 10 | 11 | 18 => {
                if size_or_type as usize > id {
                    return Err(
                        BtfError::ForwardReference { type_id: id as u32, referenced: size_or_type },
                    );
                }
                match kind {
                    8 => TypeNode::Typedef { name_off, type_id: size_or_type },
                    9 => TypeNode::Volatile { type_id: size_or_type },
                    10 => TypeNode::Const { type_id: size_or_type },
                    11 => TypeNode::Restrict { type_id: size_or_type },
                    _ => TypeNode::TypeTag { name_off, type_id: size_or_type },
                }
            },
            12 => {
                if size_or_type as usize > id {
                    return Err(
                        BtfError::ForwardReference { type_id: id as u32, referenced: size_or_type },
                    );
                }
                TypeNode::Function { name_off, proto_type_id: size_or_type, linkage: vlen }
            },
            13 => {
                if size_or_type as usize > id {
                    return Err(
                        BtfError::ForwardReference { type_id: id as u32, referenced: size_or_type },
                    );
                }
                let mut params: Vec<FuncParam> = Vec::new();
                let mut k: u32 = 0;
                while k < vlen
                    invariant
                        tail_start <= pos <= section_end <= bytes@.len(),
                        types@.len() == id,
                        k <= vlen,
                        pos == tail_start + 8 * k,
                        forall|j: int|
                            0 <= j < params@.len() ==> (#[trigger] params@[j]).type_id <= id,
                        forall|j: int|
                            0 <= j < k ==> (#[trigger] spec_u32_at(
                                bytes@,
                                rec_start + 12 + 8 * j + 4,
                                e,
                            )) <= id,
                    decreases vlen - k,
                {
                    if section_end - pos < 8 {
                        proof {
                            assert(section_end - rec_start - 12 < 8 * (vlen as int));
                            assert(!spec_btf_records_ok(
                                bytes@,
                                e,
                                rec_start,
                                section_end as int,
                                id as int,
                            ));
                        }
                        return Err(BtfError::TruncatedType { offset: rec_off });
                    }
                    let pname = read_u32(bytes, pos, e);
                    let ptype = read_u32(bytes, pos + 4, e);
                    proof {
                        assert(ptype == spec_u32_at(
                            bytes@,
                            rec_start + 12 + 8 * (k as int) + 4,
                            e,
                        ));
                    }
                    pos = pos + 8;
                    if ptype as usize > id {
                        proof {
                            assert(!spec_btf_records_ok(
                                bytes@,
                                e,
                                rec_start,
                                section_end as int,
                                id as int,
                            ));
                        }
                        return Err(
                            BtfError::ForwardReference { type_id: id as u32, referenced: ptype },
                        );
                    }
                    params.push(FuncParam { name_off: pname, type_id: ptype });
                    k = k + 1;
                }
                TypeNode::FunctionPrototype { return_type_id: size_or_type, params }
            },
            14 => {
                if section_end - pos < 4 {
                    return Err(BtfError::TruncatedType { offset: rec_off });
                }
                let linkage = read_u32(bytes, pos, e);
                pos = pos + 4;
                if size_or_type as usize > id {
                    return Err(
                        BtfError::ForwardReference { type_id: id as u32, referenced: size_or_type },
                    );
                }
                TypeNode::Variable { name_off, type_id: size_or_type, linkage }
            },
            15 => {
                let mut entries: Vec<DataSecEntry> = Vec::new();
                let mut k: u32 = 0;
                while k < vlen
                    invariant
                        tail_start <= pos <= section_end <= bytes@.len(),
                        types@.len() == id,
                        k <= vlen,
                        pos == tail_start + 12 * k,
                        forall|j: int|
                            0 <= j < entries@.len() ==> (#[trigger] entries@[j]).type_id <= id,
                        forall|j: int|
                            0 <= j < k ==> (#[trigger] spec_u32_at(
                                bytes@,
                                rec_start + 12 + 12 * j,
                                e,
                            )) <= id,
                    decreases vlen - k,
                {
                    if section_end - pos < 12 {
                        proof {
                            assert(section_end - rec_start - 12 < 12 * (vlen as int));
                            assert(!spec_btf_records_ok(
                                bytes@,
                                e,
                                rec_start,
                                section_end as int,
                                id as int,
                            ));
                        }
                        return Err(BtfError::TruncatedType { offset: rec_off });
                    }
                    let vtype = read_u32(bytes, pos, e);
                    let voff = read_u32(bytes, pos + 4, e);
                    let vsize = read_u32(bytes, pos + 8, e);
                    proof {
                        assert(vtype == spec_u32_at(bytes@, rec_start + 12 + 12 * (k as int), e));
                    }
                    pos = pos + 12;
                    if vtype as usize > id {
                        proof {
                            assert(!spec_btf_records_ok(
                                bytes@,
                                e,
                                rec_start,
                                section_end as int,
                                id as int,
                            ));
                        }
                        return Err(
                            BtfError::ForwardReference { type_id: id as u32, referenced: vtype },
                        );
                    }
                    entries.push(DataSecEntry { type_id: vtype, offset: voff, size: vsize });
                    k = k + 1;
                }
                TypeNode::DataSection { name_off, size: size_or_type, entries }
            },
            16 => TypeNode::Float { name_off, size: size_or_type },
            17 => {
                if section_end - pos < 4 {
                    return Err(BtfError::TruncatedType { offset: rec_off });
                }
                let comp = read_u32(bytes, pos, e);
                pos = pos + 4;
                if size_or_type as usize > id {
                    return Err(
                        BtfError::ForwardReference { type_id: id as u32, referenced: size_or_type },
                    );
                }
                TypeNode::DeclTag { name_off, type_id: size_or_type, component_index: comp }
            },
            19 => {
                let mut entries: Vec<EnumEntry> = Vec::new();
                let mut k: u32 = 0;
                while k < vlen
                    invariant
                        tail_start <= pos <= section_end <= bytes@.len(),
                        k <= vlen,
                        pos == tail_start + 12 * k,
                    decreases vlen - k,
                {
                    if section_end - pos < 12 {
                        proof {
                            assert(section_end - rec_start - 12 < 12 * (vlen as int));
                            assert(!spec_btf_records_ok(
                                bytes@,
                                e,
                                rec_start,
                                section_end as int,
                                id as int,
                            ));
                        }
                        return Err(BtfError::TruncatedType { offset: rec_off });
                    }
                    let ename = read_u32(bytes, pos, e);
                    let lo = read_u32(bytes, pos + 4, e);
                    let hi = read_u32(bytes, pos + 8, e);
                    pos = pos + 12;
                    let bits: u64 = lo as u64 | ((hi as u64) << 32);
                    entries.push(EnumEntry { name_off: ename, value: bits_to_i64(bits) });
                    k = k + 1;
                }
                TypeNode::Enum64 { name_off, size: size_or_type, signed: kind_flag, entries }
            },
            _ => {
                return Err(BtfError::InvalidTypeKind { kind });
            },
        };
        proof {
            assert(node.refs_bounded(id as int));
            assert(spec_btf_records_ok(bytes@, e, rec_start, section_end as int, id as int)
                == spec_btf_records_ok(
                bytes@,
                e,
                pos as int,
                section_end as int,
                id as int + 1,
            ));
        }
        types.push(node);
    }
    proof {
        assert(pos == section_end);
        assert(spec_btf_records_ok(bytes@, e, pos as int, section_end as int, types@.len() as int));
        assert(spec_btf_ok(bytes@, e));
    }
    let g = TypeGraph { types, strings };
    proof {
        assert(g.strings@[0] == bytes@[str_start as int]);
    }
    Ok(g)
}

/// The signed 64-bit value with the same bit pattern as `v`.
pub open spec fn spec_bits_to_i64(v: u64) -> i64 {
    if v < 0x8000_0000_0000_0000 {
        v as i64
    } else {
        (v - 0x1_0000_0000_0000_0000) as i64
    }
}

/// Returns the signed value with the same bit pattern as `v`.
pub fn bits_to_i64(v: u64) -> (r: i64)
    ensures
        r == spec_bits_to_i64(v),
{
    if v < 0x8000_0000_0000_0000 {
        v as i64
    } else {
        (v as i128 - 0x1_0000_0000_0000_0000i128) as i64
    }
}

} // verus!
