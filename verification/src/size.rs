//! The recursive byte-size calculator over the resolved type graph.
//!
//! Scalars, vectors and matrices have closed-form sizes; a matrix needs a
//! stride hint from its enclosing struct member.  A struct's size is the
//! offset of its maximum-offset member plus that member's size, which
//! recurses through nested structs.  Every other shape, an arithmetic
//! overflow, and a struct with no known member offset have no known size.
//!
//! The recursion carries fuel so that it is well defined on every type
//! table; one unit is spent per struct hop, so a table's own size in
//! entries is enough fuel for any acyclic type graph.

use vstd::prelude::*;

use crate::view::MemberV;
use crate::view::ModuleV;
use crate::view::TypeV;

verus! {

/// The index of the member holding the maximum defined offset among the
/// first `n` members: the first such member when several share that
/// offset, and `None` when none of them has a defined offset.
pub open spec fn max_offset_upto(elements: Seq<MemberV>, n: int) -> Option<int>
    decreases n,
{
    if n <= 0 {
        None
    } else {
        let prev = max_offset_upto(elements, n - 1);
        match elements[n - 1].offset {
            None => prev,
            Some(o) => match prev {
                None => Some(n - 1),
                Some(b) => if o > elements[b].offset->Some_0 {
                    Some(n - 1)
                } else {
                    prev
                },
            },
        }
    }
}

/// The index of the maximum-offset member of the whole member list.
pub open spec fn spec_max_offset_index(elements: Seq<MemberV>) -> Option<int> {
    max_offset_upto(elements, elements.len() as int)
}

/// The byte size of the type bound to `id`, under a stride hint.
pub open spec fn spec_type_size(
    types: Map<u32, TypeV>,
    id: u32,
    stride: Option<u32>,
    fuel: nat,
) -> Option<u32>
    decreases fuel, 0nat,
{
    if !types.contains_key(id) {
        None
    } else {
        match types[id] {
            TypeV::Int32 | TypeV::UInt32 | TypeV::Float32 => Some(4),
            TypeV::Vec2 => Some(8),
            TypeV::Vec3 => Some(12),
            TypeV::Vec4 => Some(16),
            TypeV::Mat3 => match stride {
                Some(s) => if s * 2 + 12 <= u32::MAX {
                    Some((s * 2 + 12) as u32)
                } else {
                    None
                },
                None => None,
            },
            TypeV::Mat4 => match stride {
                Some(s) => if s * 3 + 16 <= u32::MAX {
                    Some((s * 3 + 16) as u32)
                } else {
                    None
                },
                None => None,
            },
            TypeV::Struct { elements, .. } => {
                if fuel == 0 {
                    None
                } else {
                    spec_struct_size(types, elements, (fuel - 1) as nat)
                }
            },
            _ => None,
        }
    }
}

/// The byte size of a struct with the given members: the offset of the
/// maximum-offset member plus that member's size, with the member's own
/// stride as the hint.
pub open spec fn spec_struct_size(types: Map<u32, TypeV>, elements: Seq<MemberV>, fuel: nat) -> Option<
    u32,
>
    decreases fuel, 1nat,
{
    match spec_max_offset_index(elements) {
        None => None,
        Some(i) => {
            let m = elements[i];
            let off = m.offset->Some_0;
            match spec_type_size(types, m.type_id, Some(m.stride), fuel) {
                None => None,
                Some(sz) => if off + sz <= u32::MAX {
                    Some((off + sz) as u32)
                } else {
                    None
                },
            }
        },
    }
}

/// The size query a module answers: fuel is the number of types it holds,
/// which covers any acyclic chain of struct references.
pub open spec fn spec_module_type_size(m: ModuleV, id: u32, stride: Option<u32>) -> Option<u32> {
    spec_type_size(m.types, id, stride, m.types.dom().len())
}

/// What [`crate::Module::get_member_size`] answers: the member's type
/// under the member's own stride.
pub open spec fn spec_member_size(m: ModuleV, member: MemberV) -> Option<u32> {
    spec_module_type_size(m, member.type_id, Some(member.stride))
}

/// What [`crate::Module::get_var_size`] answers: the variable's type with
/// no stride hint.
pub open spec fn spec_var_size(m: ModuleV, type_id: u32) -> Option<u32> {
    spec_module_type_size(m, type_id, None)
}

} // verus!
