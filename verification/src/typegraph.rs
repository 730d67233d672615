//! The type graph: an immutable arena of type descriptions extracted from
//! debug information, and the normalization policy that derives address-class
//! and dimension metadata from a resolved type.

use vstd::prelude::*;

verus! {

/// Address-class tag: marks a calibration object that is accessed through a
/// pointer with the given pointee byte size (1, 2, 4 or 8).
#[derive(Clone, Copy, PartialEq, Eq, Structural, Debug)]
pub enum AddrClass {
    Pbyte,
    Pword,
    Plong,
    Plonglong,
}

/// A named member of an aggregate type, referencing its type by handle.
pub struct TypeMember {
    pub name: String,
    pub ty: usize,
}

/// One node of the type graph. Nodes reference each other by index into the
/// graph's node arena, so cyclic shapes (a member that transitively references
/// its own aggregate) are representable without ownership cycles.
pub enum TypeNode {
    Scalar { size: u64 },
    Pointer { pointee: usize, pointee_size: u64 },
    Array { element: usize, dims: Vec<u64> },
    Aggregate { members: Vec<TypeMember> },
}

/// Immutable, shared table of type descriptions, referenced by handle
/// (index into `nodes`).
pub struct TypeGraph {
    pub nodes: Vec<TypeNode>,
}

/// Every handle held by a node points inside the arena.
pub open spec fn node_wf(n: TypeNode, len: nat) -> bool {
    match n {
        TypeNode::Scalar { .. } => true,
        TypeNode::Pointer { pointee, .. } => pointee < len,
        TypeNode::Array { element, .. } => element < len,
        TypeNode::Aggregate { members } => forall|i: int|
            0 <= i < members@.len() ==> (#[trigger] members@[i]).ty < len,
    }
}

impl TypeGraph {
    pub open spec fn wf(&self) -> bool {
        forall|i: int|
            0 <= i < self.nodes@.len() ==> node_wf(#[trigger] self.nodes@[i], self.nodes@.len())
    }
}

/// Result of normalizing a resolved type: the derived address-class tag, the
/// derived array dimensions, and the leaf type left after unwrapping.
pub struct Normalized {
    pub addr_class: Option<AddrClass>,
    pub dims: Option<Vec<u16>>,
    pub leaf: usize,
}

/// Mathematical model of a normalization result.
#[verifier::ext_equal]
pub ghost struct NormModel {
    pub addr_class: Option<AddrClass>,
    pub dims: Option<Seq<u16>>,
    pub leaf: usize,
}

impl View for Normalized {
    type V = NormModel;

    open spec fn view(&self) -> NormModel {
        NormModel {
            addr_class: self.addr_class,
            dims: match self.dims {
                Some(v) => Some(v@),
                None => None,
            },
            leaf: self.leaf,
        }
    }
}

/// The address-class tag derived from a pointee byte size; sizes other than
/// 1, 2, 4 and 8 are unsupported and yield no tag.
pub open spec fn spec_addr_class(size: u64) -> Option<AddrClass> {
    if size == 1 {
        Some(AddrClass::Pbyte)
    } else if size == 2 {
        Some(AddrClass::Pword)
    } else if size == 4 {
        Some(AddrClass::Plong)
    } else if size == 8 {
        Some(AddrClass::Plonglong)
    } else {
        None
    }
}

/// The handle after unwrapping one pointer level, or the handle itself.
pub open spec fn spec_unwrap_pointer(nodes: Seq<TypeNode>, h: usize) -> usize {
    match nodes[h as int] {
        TypeNode::Pointer { pointee, .. } => pointee,
        _ => h,
    }
}

/// The address-class tag contributed by a pointer node, if `h` is one.
pub open spec fn spec_pointer_class(nodes: Seq<TypeNode>, h: usize) -> Option<AddrClass> {
    match nodes[h as int] {
        TypeNode::Pointer { pointee_size, .. } => spec_addr_class(pointee_size),
        _ => None,
    }
}

/// The normalization policy, applied in fixed order: unwrap one pointer level
/// (recording the address class by pointee size), then unwrap one array level
/// (recording the dimension extents, truncated to 16 bits). Pointer-to-pointer
/// and array-of-pointer are unsupported: they keep neither an address class
/// nor dimensions, and the type is treated opaquely.
pub open spec fn spec_normalize(nodes: Seq<TypeNode>, handle: usize) -> NormModel {
    let h1 = spec_unwrap_pointer(nodes, handle);
    if nodes[handle as int] is Pointer && nodes[h1 as int] is Pointer {
        NormModel { addr_class: None, dims: None, leaf: h1 }
    } else {
        match nodes[h1 as int] {
            TypeNode::Array { element, dims } => {
                if nodes[element as int] is Pointer {
                    NormModel { addr_class: None, dims: None, leaf: element }
                } else {
                    NormModel {
                        addr_class: spec_pointer_class(nodes, handle),
                        dims: Some(dims@.map_values(|d: u64| d as u16)),
                        leaf: element,
                    }
                }
            },
            _ => NormModel {
                addr_class: spec_pointer_class(nodes, handle),
                dims: None,
                leaf: h1,
            },
        }
    }
}

fn addr_class_for(size: u64) -> (r: Option<AddrClass>)
    ensures
        r == spec_addr_class(size),
{
    if size == 1 {
        Some(AddrClass::Pbyte)
    } else if size == 2 {
        Some(AddrClass::Pword)
    } else if size == 4 {
        Some(AddrClass::Plong)
    } else if size == 8 {
        Some(AddrClass::Plonglong)
    } else {
        None
    }
}

/// Normalize a resolved type per the unwrapping policy. Never fails:
/// unsupported shapes degrade to an opaque leaf with no address class and no
/// dimensions.
pub fn normalize(graph: &TypeGraph, handle: usize) -> (r: Normalized)
    requires
        graph.wf(),
        handle < graph.nodes@.len(),
    ensures
        r@ == spec_normalize(graph.nodes@, handle),
        r.leaf < graph.nodes@.len(),
{
    let first_is_pointer: bool;
    let class0: Option<AddrClass>;
    let h1: usize;
    match &graph.nodes[handle] {
        TypeNode::Pointer { pointee, pointee_size } => {
            first_is_pointer = true;
            class0 = addr_class_for(*pointee_size);
            h1 = *pointee;
        },
        _ => {
            first_is_pointer = false;
            class0 = None;
            h1 = handle;
        },
    }
    assert(h1 < graph.nodes@.len());
    match &graph.nodes[h1] {
        TypeNode::Pointer { .. } => Normalized { addr_class: None, dims: None, leaf: h1 },
        TypeNode::Array { element, dims } => {
            let el: usize = *element;
            assert(el < graph.nodes@.len());
            match &graph.nodes[el] {
                TypeNode::Pointer { .. } => Normalized { addr_class: None, dims: None, leaf: el },
                _ => {
                    let mut dl: Vec<u16> = Vec::new();
                    let mut j: usize = 0;
                    while j < dims.len()
                        invariant
                            j <= dims@.len(),
                            dl@ == dims@.take(j as int).map_values(|d: u64| d as u16),
                        decreases dims@.len() - j,
                    {
                        dl.push(#[verifier::truncate] (dims[j] as u16));
                        proof {
                            assert(dims@.take(j + 1 as int).drop_last() =~= dims@.take(j as int));
                            assert(dims@.take(j + 1 as int).map_values(|d: u64| d as u16) =~= dims@.take(
                                j as int,
                            ).map_values(|d: u64| d as u16).push(dims@[j as int] as u16));
                        }
                        j += 1;
                    }
                    proof {
                        assert(dims@.take(dims@.len() as int) =~= dims@);
                    }
                    Normalized { addr_class: class0, dims: Some(dl), leaf: el }
                },
            }
        },
        _ => Normalized { addr_class: class0, dims: None, leaf: h1 },
    }
}

} // verus!

verus! {

/// The normalization policy table, spelled out per input shape: plain scalar
/// or aggregate, pointer, array, pointer-to-array, and the unsupported
/// pointer-to-pointer and array-of-pointer shapes.
pub proof fn lemma_normalize_policy(nodes: Seq<TypeNode>, h: usize)
    requires
        h < nodes.len(),
    ensures
        ({
            let r = spec_normalize(nodes, h);
            &&& ((nodes[h as int] is Scalar || nodes[h as int] is Aggregate) ==> r
                == (NormModel { addr_class: None, dims: None, leaf: h }))
            &&& (nodes[h as int] matches TypeNode::Pointer { pointee, pointee_size } ==> {
                &&& (nodes[pointee as int] is Pointer ==> r == (NormModel {
                    addr_class: None,
                    dims: None,
                    leaf: pointee,
                }))
                &&& ((nodes[pointee as int] is Scalar || nodes[pointee as int] is Aggregate)
                    ==> r == (NormModel {
                    addr_class: spec_addr_class(pointee_size),
                    dims: None,
                    leaf: pointee,
                }))
                &&& (nodes[pointee as int] matches TypeNode::Array { element, dims } ==> {
                    &&& (nodes[element as int] is Pointer ==> r == (NormModel {
                        addr_class: None,
                        dims: None,
                        leaf: element,
                    }))
                    &&& (!(nodes[element as int] is Pointer) ==> r == (NormModel {
                        addr_class: spec_addr_class(pointee_size),
                        dims: Some(dims@.map_values(|d: u64| d as u16)),
                        leaf: element,
                    }))
                })
            })
            &&& (nodes[h as int] matches TypeNode::Array { element, dims } ==> {
                &&& (nodes[element as int] is Pointer ==> r == (NormModel {
                    addr_class: None,
                    dims: None,
                    leaf: element,
                }))
                &&& (!(nodes[element as int] is Pointer) ==> r == (NormModel {
                    addr_class: None,
                    dims: Some(dims@.map_values(|d: u64| d as u16)),
                    leaf: element,
                }))
            })
        }),
{
}

} // verus!
