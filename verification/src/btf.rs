//! The type-debug graph: an arena of type nodes addressed by dense integer
//! id, plus the string table their names point into.
//!
//! Id 0 always denotes the implicit void type. Cross-references between nodes
//! are ids, never pointers, so cycles through pointer indirection are
//! representable without special cases.

use vstd::prelude::*;

verus! {

/// A member of a struct or union.
#[derive(Copy, Clone, Debug)]
pub struct Member {
    /// Offset of the member's name in the string table.
    pub name_off: u32,
    /// Id of the member's type.
    pub type_id: u32,
    /// Bit offset of the member inside the composite.
    pub offset: u32,
}

/// A named constant of an enumeration.
#[derive(Copy, Clone, Debug)]
pub struct EnumEntry {
    /// Offset of the constant's name in the string table.
    pub name_off: u32,
    /// The constant's signed value.
    pub value: i64,
}

/// One variable placed in a data section.
#[derive(Copy, Clone, Debug)]
pub struct DataSecEntry {
    /// Id of the variable's type node.
    pub type_id: u32,
    /// Byte offset of the variable inside the section.
    pub offset: u32,
    /// Byte size of the variable.
    pub size: u32,
}

/// A parameter of a function prototype.
#[derive(Copy, Clone, Debug)]
pub struct FuncParam {
    /// Offset of the parameter's name in the string table.
    pub name_off: u32,
    /// Id of the parameter's type.
    pub type_id: u32,
}

/// A node of the type graph, tagged by kind.
#[derive(Clone, Debug)]
pub enum TypeNode {
    /// The implicit void type, id 0.
    Void,
    /// An integer type of a given byte size and signedness.
    Integer {
        /// Offset of the type's name in the string table.
        name_off: u32,
        /// Byte size of the integer.
        size: u32,
        /// Whether the integer is signed.
        signed: bool,
        /// Bit width actually used by values of the type.
        bits: u32,
    },
    /// A pointer to another type.
    Pointer {
        /// Id of the pointed-to type.
        type_id: u32,
    },
    /// A fixed-length array.
    Array {
        /// Id of the element type.
        elem_type_id: u32,
        /// Id of the index type.
        index_type_id: u32,
        /// Number of elements.
        count: u32,
    },
    /// A struct with ordered members.
    Struct {
        /// Offset of the type's name in the string table; 0 when anonymous.
        name_off: u32,
        /// Byte size of the struct.
        size: u32,
        /// The ordered members.
        members: Vec<Member>,
        /// Whether member offsets carry bitfield widths in their high bits.
        kind_flag: bool,
    },
    /// A union with ordered members.
    Union {
        /// Offset of the type's name in the string table; 0 when anonymous.
        name_off: u32,
        /// Byte size of the union.
        size: u32,
        /// The ordered members.
        members: Vec<Member>,
        /// Whether member offsets carry bitfield widths in their high bits.
        kind_flag: bool,
    },
    /// An enumeration with 32-bit values.
    Enum {
        /// Offset of the type's name in the string table; 0 when anonymous.
        name_off: u32,
        /// Byte size of the underlying integer.
        size: u32,
        /// Whether the values are signed.
        signed: bool,
        /// The named constants.
        entries: Vec<EnumEntry>,
    },
    /// An enumeration with 64-bit values.
    Enum64 {
        /// Offset of the type's name in the string table; 0 when anonymous.
        name_off: u32,
        /// Byte size of the underlying integer.
        size: u32,
        /// Whether the values are signed.
        signed: bool,
        /// The named constants.
        entries: Vec<EnumEntry>,
    },
    /// A declaration of a composite type whose definition appears later.
    ForwardDecl {
        /// Offset of the declared name in the string table.
        name_off: u32,
        /// Whether the declaration names a union rather than a struct.
        is_union: bool,
    },
    /// A name alias for another type.
    Typedef {
        /// Offset of the alias name in the string table.
        name_off: u32,
        /// Id of the aliased type.
        type_id: u32,
    },
    /// A volatile qualifier wrapper.
    Volatile {
        /// Id of the qualified type.
        type_id: u32,
    },
    /// A const qualifier wrapper.
    Const {
        /// Id of the qualified type.
        type_id: u32,
    },
    /// A restrict qualifier wrapper.
    Restrict {
        /// Id of the qualified type.
        type_id: u32,
    },
    /// A named function.
    Function {
        /// Offset of the function's name in the string table.
        name_off: u32,
        /// Id of the function's prototype node.
        proto_type_id: u32,
        /// Linkage code.
        linkage: u32,
    },
    /// A function signature.
    FunctionPrototype {
        /// Id of the return type.
        return_type_id: u32,
        /// The ordered parameters.
        params: Vec<FuncParam>,
    },
    /// A global variable.
    Variable {
        /// Offset of the variable's name in the string table.
        name_off: u32,
        /// Id of the variable's type.
        type_id: u32,
        /// Linkage code.
        linkage: u32,
    },
    /// A data section grouping variables.
    DataSection {
        /// Offset of the section's name in the string table.
        name_off: u32,
        /// Byte size of the section.
        size: u32,
        /// The variables placed in the section.
        entries: Vec<DataSecEntry>,
    },
    /// A floating-point type.
    Float {
        /// Offset of the type's name in the string table.
        name_off: u32,
        /// Byte size of the type.
        size: u32,
    },
    /// A tag attached to a declaration.
    DeclTag {
        /// Offset of the tag text in the string table.
        name_off: u32,
        /// Id of the tagged node.
        type_id: u32,
        /// Which component of the tagged node is meant, or the whole of it.
        component_index: u32,
    },
    /// A tag attached to a type.
    TypeTag {
        /// Offset of the tag text in the string table.
        name_off: u32,
        /// Id of the tagged type.
        type_id: u32,
    },
}

impl TypeNode {
    /// Whether every id the node references stays at or below `max_id`.
    pub open spec fn refs_bounded(&self, max_id: int) -> bool {
        match self {
            TypeNode::Pointer { type_id } => *type_id <= max_id,
            TypeNode::Array { elem_type_id, index_type_id, .. } => *elem_type_id <= max_id
                && *index_type_id <= max_id,
            TypeNode::Struct { members, .. } => forall|i: int|
                0 <= i < members@.len() ==> #[trigger] members@[i].type_id <= max_id,
            TypeNode::Union { members, .. } => forall|i: int|
                0 <= i < members@.len() ==> #[trigger] members@[i].type_id <= max_id,
            TypeNode::Typedef { type_id, .. } => *type_id <= max_id,
            TypeNode::Volatile { type_id } => *type_id <= max_id,
            TypeNode::Const { type_id } => *type_id <= max_id,
            TypeNode::Restrict { type_id } => *type_id <= max_id,
            TypeNode::Function { proto_type_id, .. } => *proto_type_id <= max_id,
            TypeNode::FunctionPrototype { return_type_id, params } => *return_type_id <= max_id
                && forall|i: int| 0 <= i < params@.len() ==> #[trigger] params@[i].type_id <= max_id,
            TypeNode::Variable { type_id, .. } => *type_id <= max_id,
            TypeNode::DataSection { entries, .. } => forall|i: int|
                0 <= i < entries@.len() ==> #[trigger] entries@[i].type_id <= max_id,
            TypeNode::DeclTag { type_id, .. } => *type_id <= max_id,
            TypeNode::TypeTag { type_id, .. } => *type_id <= max_id,
            _ => true,
        }
    }

    /// The name offset of the node; 0 for unnamed kinds.
    pub open spec fn spec_name_off(&self) -> u32 {
        match self {
            TypeNode::Integer { name_off, .. } => *name_off,
            TypeNode::Struct { name_off, .. } => *name_off,
            TypeNode::Union { name_off, .. } => *name_off,
            TypeNode::Enum { name_off, .. } => *name_off,
            TypeNode::Enum64 { name_off, .. } => *name_off,
            TypeNode::ForwardDecl { name_off, .. } => *name_off,
            TypeNode::Typedef { name_off, .. } => *name_off,
            TypeNode::Function { name_off, .. } => *name_off,
            TypeNode::Variable { name_off, .. } => *name_off,
            TypeNode::DataSection { name_off, .. } => *name_off,
            TypeNode::Float { name_off, .. } => *name_off,
            TypeNode::DeclTag { name_off, .. } => *name_off,
            TypeNode::TypeTag { name_off, .. } => *name_off,
            _ => 0,
        }
    }

    /// Returns the name offset of the node; 0 for unnamed kinds.
    pub fn name_off(&self) -> (r: u32)
        ensures
            r == self.spec_name_off(),
    {
        match self {
            TypeNode::Integer { name_off, .. } => *name_off,
            TypeNode::Struct { name_off, .. } => *name_off,
            TypeNode::Union { name_off, .. } => *name_off,
            TypeNode::Enum { name_off, .. } => *name_off,
            TypeNode::Enum64 { name_off, .. } => *name_off,
            TypeNode::ForwardDecl { name_off, .. } => *name_off,
            TypeNode::Typedef { name_off, .. } => *name_off,
            TypeNode::Function { name_off, .. } => *name_off,
            TypeNode::Variable { name_off, .. } => *name_off,
            TypeNode::DataSection { name_off, .. } => *name_off,
            TypeNode::Float { name_off, .. } => *name_off,
            TypeNode::DeclTag { name_off, .. } => *name_off,
            TypeNode::TypeTag { name_off, .. } => *name_off,
            _ => 0,
        }
    }
}

/// Where the first NUL at or after `off` ends a string-table entry.
pub open spec fn str_end(strings: Seq<u8>, off: int) -> int
    decreases strings.len() - off when 0 <= off <= strings.len()
{
    if off >= strings.len() {
        off
    } else if strings[off] == 0 {
        off
    } else {
        str_end(strings, off + 1)
    }
}

/// The bytes of the string-table entry starting at `off`.
pub open spec fn str_bytes_at(strings: Seq<u8>, off: int) -> Seq<u8> {
    if 0 <= off <= strings.len() {
        strings.subrange(off, str_end(strings, off))
    } else {
        Seq::empty()
    }
}

/// The end of an entry never runs past the table.
pub proof fn lemma_str_end_bounds(strings: Seq<u8>, off: int)
    requires
        0 <= off <= strings.len(),
    ensures
        off <= str_end(strings, off) <= strings.len(),
    decreases strings.len() - off,
{
    if off < strings.len() && strings[off] != 0 {
        lemma_str_end_bounds(strings, off + 1);
    }
}

/// An ordered arena of type nodes plus the string table naming them.
#[derive(Clone, Debug)]
pub struct TypeGraph {
    /// The nodes, indexed by id; index 0 holds the implicit void type.
    pub types: Vec<TypeNode>,
    /// The string table: NUL-terminated entries, offset 0 the empty string.
    pub strings: Vec<u8>,
}

impl TypeGraph {
    /// A graph is well formed when id 0 is void, every cross-reference
    /// resolves to an earlier-or-equal id, and the string table starts with
    /// its reserved empty entry.
    pub open spec fn wf(&self) -> bool {
        &&& 1 <= self.types@.len() <= 0xFFFF_FFFF
        &&& self.types@[0] is Void
        &&& forall|i: int| 0 <= i < self.types@.len() ==> (#[trigger] self.types@[i]).refs_bounded(i)
        &&& 1 <= self.strings@.len() <= 0xFFFF_FFFF
        &&& self.strings@[0] == 0
    }

    /// An empty graph: just the void node and the reserved empty string.
    pub fn new() -> (r: TypeGraph)
        ensures
            r.wf(),
            r.types@.len() == 1,
    {
        let mut types: Vec<TypeNode> = Vec::new();
        types.push(TypeNode::Void);
        let mut strings: Vec<u8> = Vec::new();
        strings.push(0);
        TypeGraph { types, strings }
    }

    /// Whether `id` names a node of this graph.
    pub open spec fn spec_valid_id(&self, id: u32) -> bool {
        id < self.types@.len()
    }

    /// The name bytes of the node `id`, empty for an invalid id.
    pub open spec fn spec_name_of(&self, id: u32) -> Seq<u8> {
        if self.spec_valid_id(id) {
            str_bytes_at(self.strings@, self.types@[id as int].spec_name_off() as int)
        } else {
            Seq::empty()
        }
    }

    /// Returns the number of nodes, the greatest id plus one.
    pub fn len(&self) -> (r: usize)
        ensures
            r == self.types@.len(),
    {
        self.types.len()
    }

    /// Resolves a string-table offset to the bytes of its entry.
    pub fn string_at(&self, off: u32) -> (r: Vec<u8>)
        ensures
            r@ == str_bytes_at(self.strings@, off as int),
    {
        let n = self.strings.len();
        if off as usize > n {
            proof {
                assert(str_bytes_at(self.strings@, off as int) == Seq::<u8>::empty());
            }
            return Vec::new();
        }
        let start = off as usize;
        let mut end = start;
        while end < n && self.strings[end] != 0
            invariant
                start <= end <= n,
                n == self.strings@.len(),
                str_end(self.strings@, start as int) == str_end(self.strings@, end as int),
            decreases n - end,
        {
            end = end + 1;
        }
        proof {
            assert(str_end(self.strings@, end as int) == end);
        }
        let mut out: Vec<u8> = Vec::new();
        let mut i = start;
        while i < end
            invariant
                start <= i <= end <= n,
                n == self.strings@.len(),
                out@ == self.strings@.subrange(start as int, i as int),
            decreases end - i,
        {
            out.push(self.strings[i]);
            proof {
                assert(out@ =~= self.strings@.subrange(start as int, i + 1 as int));
            }
            i = i + 1;
        }
        proof {
            assert(out@ =~= str_bytes_at(self.strings@, off as int));
        }
        out
    }
}

/// Compares two byte vectors element by element.
pub fn bytes_eq(a: &Vec<u8>, b: &Vec<u8>) -> (r: bool)
    ensures
        r == (a@ == b@),
{
    if a.len() != b.len() {
        return false;
    }
    let n = a.len();
    let mut i: usize = 0;
    while i < n
        invariant
            i <= n,
            n == a@.len(),
            n == b@.len(),
            forall|j: int| 0 <= j < i ==> a@[j] == b@[j],
        decreases n - i,
    {
        if a[i] != b[i] {
            return false;
        }
        i = i + 1;
    }
    proof {
        assert(a@ =~= b@);
    }
    true
}

/// Whether the name of `id` in `g` equals the name of `other_id` in `og`.
pub fn names_eq(g: &TypeGraph, off: u32, og: &TypeGraph, other_off: u32) -> (r: bool)
    ensures
        r == (str_bytes_at(g.strings@, off as int) == str_bytes_at(og.strings@, other_off as int)),
{
    let a = g.string_at(off);
    let b = og.string_at(other_off);
    bytes_eq(&a, &b)
}

} // verus!
