//! The type and variable collection pass.
//!
//! A single forward sweep over the decoded instructions builds the type
//! graph, the constant table, the raw variable table and the raw entry
//! point list.  The sweep is order-sensitive: a type-declaring
//! instruction resolves only against what was declared strictly earlier
//! in the stream.

use vstd::prelude::*;

use crate::idmap::IdMap;
use crate::ops;
use crate::ops::Op;
use crate::ops::OpV;
use crate::view::MemberV;
use crate::view::RawEntryPointV;
use crate::view::RawVariableV;
use crate::view::TypeV;
use crate::Error;
use crate::ExecutionModel;
use crate::RawEntryPoint;
use crate::RawVariable;
use crate::SpirvResult;
use crate::StorageClass;
use crate::StructMember;
use crate::Type;

verus! {

/// The wire-level storage class collapsed to the reflection level:
/// wire `Uniform` and `UniformConstant` fall into one category.
pub open spec fn spec_reflect_storage_class(sc: ops::StorageClass) -> StorageClass {
    match sc {
        ops::StorageClass::Unknown => StorageClass::Unknown,
        ops::StorageClass::UniformConstant => StorageClass::Uniform,
        ops::StorageClass::Uniform => StorageClass::Uniform,
        ops::StorageClass::PushConstant => StorageClass::PushConstant,
        ops::StorageClass::Input => StorageClass::Input,
        ops::StorageClass::Output => StorageClass::Output,
    }
}

/// A struct member as first recorded, pending the decoration pass.
pub open spec fn spec_default_member(type_id: u32) -> MemberV {
    MemberV { name: None, type_id, offset: None, row_major: true, stride: 16 }
}

/// The members a struct declaration first records, one per element type
/// id, in declaration order.
pub open spec fn spec_default_members(s: Seq<u32>) -> Seq<MemberV> {
    Seq::new(s.len(), |i: int| spec_default_member(s[i]))
}

/// The state built by the collection pass.
pub struct CollectV {
    pub types: Map<u32, TypeV>,
    pub constants: Map<u32, u32>,
    pub vars: Map<u32, RawVariableV>,
    pub entries: Seq<RawEntryPointV>,
}

/// The state before any instruction was seen.
pub open spec fn empty_collect() -> CollectV {
    CollectV {
        types: Map::empty(),
        constants: Map::empty(),
        vars: Map::empty(),
        entries: Seq::empty(),
    }
}

/// How one instruction advances the collection state.
///
/// Unsupported-but-recognized shapes degrade to `Unknown` types; a vector
/// component or array length that names an undeclared id is a hard
/// failure, as is an entry point with an unmodeled execution model.
pub open spec fn collect_step(st: CollectV, op: OpV) -> Result<CollectV, Error> {
    match op {
        OpV::OpTypeVoid { result } => Ok(
            CollectV { types: st.types.insert(result, TypeV::Void), ..st },
        ),
        OpV::OpTypeBool { result } => Ok(
            CollectV { types: st.types.insert(result, TypeV::Bool), ..st },
        ),
        OpV::OpTypeInt { result, width, signed } => {
            let t = if width != 32 {
                TypeV::Unknown
            } else if signed == 0 {
                TypeV::UInt32
            } else {
                TypeV::Int32
            };
            Ok(CollectV { types: st.types.insert(result, t), ..st })
        },
        OpV::OpTypeFloat { result, width } => {
            let t = if width == 32 {
                TypeV::Float32
            } else {
                TypeV::Unknown
            };
            Ok(CollectV { types: st.types.insert(result, t), ..st })
        },
        OpV::OpTypeVector { result, component_type, component_count } => {
            if !st.types.contains_key(component_type) {
                Err(Error::InvalidId)
            } else {
                let t = if st.types[component_type] == TypeV::Float32 {
                    if component_count == 2 {
                        TypeV::Vec2
                    } else if component_count == 3 {
                        TypeV::Vec3
                    } else if component_count == 4 {
                        TypeV::Vec4
                    } else {
                        TypeV::Unknown
                    }
                } else {
                    TypeV::Unknown
                };
                Ok(CollectV { types: st.types.insert(result, t), ..st })
            }
        },
        OpV::OpTypeMatrix { result, column_type, column_count } => {
            let t = if st.types.contains_key(column_type) && st.types[column_type] == TypeV::Vec3
                && column_count == 3 {
                TypeV::Mat3
            } else if st.types.contains_key(column_type) && st.types[column_type] == TypeV::Vec4
                && column_count == 4 {
                TypeV::Mat4
            } else {
                TypeV::Unknown
            };
            Ok(CollectV { types: st.types.insert(result, t), ..st })
        },
        OpV::OpTypeImage { result, sampled_type, dim, depth, sampled, format, .. } => {
            let t = if st.types.contains_key(sampled_type) && st.types[sampled_type]
                == TypeV::Float32 && dim == ops::Dim::D2 {
                TypeV::Image2D { depth: depth != 0, sampled: sampled != 0, format }
            } else {
                TypeV::Unknown
            };
            Ok(CollectV { types: st.types.insert(result, t), ..st })
        },
        OpV::OpTypeSampler { result } => Ok(
            CollectV { types: st.types.insert(result, TypeV::Sampler), ..st },
        ),
        OpV::OpTypeSampledImage { result, image_type } => {
            let t = if st.types.contains_key(image_type) && st.types[image_type] is Image2D {
                TypeV::SampledImage { image_type_id: image_type }
            } else {
                TypeV::Unknown
            };
            Ok(CollectV { types: st.types.insert(result, t), ..st })
        },
        OpV::OpTypeArray { result, element_type, length } => {
            if st.constants.contains_key(length) {
                let t = TypeV::Array {
                    element_type_id: element_type,
                    length: Some(st.constants[length]),
                };
                Ok(CollectV { types: st.types.insert(result, t), ..st })
            } else {
                Err(Error::InvalidId)
            }
        },
        OpV::OpTypeRuntimeArray { result, element_type } => {
            let t = TypeV::Array { element_type_id: element_type, length: None };
            Ok(CollectV { types: st.types.insert(result, t), ..st })
        },
        OpV::OpTypeStruct { result, element_types } => {
            let t = TypeV::Struct {
                name: None,
                elements: spec_default_members(element_types),
            };
            Ok(CollectV { types: st.types.insert(result, t), ..st })
        },
        OpV::OpTypePointer { result, storage_class, pointed_type } => {
            let t = TypeV::Pointer {
                storage_class: spec_reflect_storage_class(storage_class),
                pointed_type_id: pointed_type,
            };
            Ok(CollectV { types: st.types.insert(result, t), ..st })
        },
        OpV::OpConstant { result_type, result, value } => {
            if st.types.contains_key(result_type) && st.types[result_type] == TypeV::UInt32
                && value.len() == 1 {
                Ok(CollectV { constants: st.constants.insert(result, value[0]), ..st })
            } else {
                Ok(st)
            }
        },
        OpV::OpVariable { result_type, result, .. } => {
            let v = RawVariableV {
                set: None,
                binding: None,
                location: None,
                type_id: result_type,
                name: None,
            };
            Ok(CollectV { vars: st.vars.insert(result, v), ..st })
        },
        OpV::OpEntryPoint { execution_model, name, interface, .. } => {
            match execution_model {
                ops::ExecutionModel::Unknown => Err(Error::Other),
                ops::ExecutionModel::Vertex => {
                    let e = RawEntryPointV {
                        name,
                        execution_model: ExecutionModel::Vertex,
                        interface,
                    };
                    Ok(CollectV { entries: st.entries.push(e), ..st })
                },
                ops::ExecutionModel::Fragment => {
                    let e = RawEntryPointV {
                        name,
                        execution_model: ExecutionModel::Fragment,
                        interface,
                    };
                    Ok(CollectV { entries: st.entries.push(e), ..st })
                },
            }
        },
        _ => Ok(st),
    }
}

/// The state after the first `n` instructions, or the first error among
/// them.
pub open spec fn collect_upto(ops: Seq<OpV>, n: int) -> Result<CollectV, Error>
    decreases n,
{
    if n <= 0 {
        Ok(empty_collect())
    } else {
        match collect_upto(ops, n - 1) {
            Err(e) => Err(e),
            Ok(st) => collect_step(st, ops[n - 1]),
        }
    }
}

/// What the collection pass yields for the whole instruction sequence.
pub open spec fn spec_collect(ops: Seq<OpV>) -> Result<CollectV, Error> {
    collect_upto(ops, ops.len() as int)
}

/// An error reached after `k` instructions is the outcome of every longer
/// prefix as well.
pub proof fn lemma_collect_upto_err(ops: Seq<OpV>, k: int, m: int, e: Error)
    requires
        collect_upto(ops, k) == Err::<CollectV, Error>(e),
        k <= m,
    ensures
        collect_upto(ops, m) == Err::<CollectV, Error>(e),
    decreases m - k,
{
    if m > k {
        lemma_collect_upto_err(ops, k, m - 1, e);
    }
}

/// Copies a word list.
fn clone_u32_vec(v: &Vec<u32>) -> (r: Vec<u32>)
    ensures
        r@ == v@,
{
    let mut out: Vec<u32> = Vec::new();
    let n: usize = v.len();
    let mut j: usize = 0;
    while j < n
        invariant
            j <= n,
            n == v@.len(),
            out@ == v@.subrange(0, j as int),
        decreases n - j,
    {
        out.push(v[j]);
        proof {
            assert(v@.subrange(0, j + 1) =~= v@.subrange(0, j as int).push(v@[j as int]));
        }
        j = j + 1;
    }
    proof {
        assert(v@.subrange(0, n as int) =~= v@);
    }
    out
}

fn reflect_storage_class(sc: &ops::StorageClass) -> (r: StorageClass)
    ensures
        r == spec_reflect_storage_class(*sc),
{
    match sc {
        ops::StorageClass::Unknown => StorageClass::Unknown,
        ops::StorageClass::UniformConstant => StorageClass::Uniform,
        ops::StorageClass::Uniform => StorageClass::Uniform,
        ops::StorageClass::PushConstant => StorageClass::PushConstant,
        ops::StorageClass::Input => StorageClass::Input,
        ops::StorageClass::Output => StorageClass::Output,
    }
}

/// The members a struct declaration first records: one default member per
/// element type id, in declaration order.
fn default_members(element_types: &Vec<u32>) -> (r: Vec<StructMember>)
    ensures
        r.deep_view() == spec_default_members(element_types@),
{
    let mut out: Vec<StructMember> = Vec::new();
    let n: usize = element_types.len();
    let mut j: usize = 0;
    while j < n
        invariant
            j <= n,
            n == element_types@.len(),
            out@.len() == j,
            forall|i: int|
                0 <= i < j ==> (#[trigger] out@[i]).deep_view() == spec_default_member(
                    element_types@[i],
                ),
        decreases n - j,
    {
        out.push(
            StructMember {
                name: None,
                type_id: element_types[j],
                offset: None,
                row_major: true,
                stride: 16,
            },
        );
        j = j + 1;
    }
    proof {
        let dv = out.deep_view();
        assert(forall|i: int|
            0 <= i < n ==> #[trigger] dv[i] == out@[i].deep_view());
        assert(dv =~= spec_default_members(element_types@));
    }
    out
}

/// Applies one instruction to the collection state.
#[verifier::rlimit(100)]
fn collect_one(
    types: &mut IdMap<Type>,
    constants: &mut IdMap<u32>,
    vars: &mut IdMap<RawVariable>,
    entries: &mut Vec<RawEntryPoint>,
    op: &Op,
) -> (r: SpirvResult<()>)
    requires
        old(types).wf(),
        old(constants).wf(),
        old(vars).wf(),
    ensures
        final(types).wf(),
        final(constants).wf(),
        final(vars).wf(),
        ({
            let before = CollectV {
                types: old(types)@,
                constants: old(constants)@,
                vars: old(vars)@,
                entries: old(entries).deep_view(),
            };
            let after = CollectV {
                types: final(types)@,
                constants: final(constants)@,
                vars: final(vars)@,
                entries: final(entries).deep_view(),
            };
            match r {
                Ok(_) => collect_step(before, op@) == Ok::<CollectV, Error>(after),
                Err(e) => collect_step(before, op@) == Err::<CollectV, Error>(e),
            }
        }),
{
    match op {
        Op::OpTypeVoid { result } => {
            types.insert(*result, Type::Void);
            Ok(())
        },
        Op::OpTypeBool { result } => {
            types.insert(*result, Type::Bool);
            Ok(())
        },
        Op::OpTypeInt { result, width, signed } => {
            let t = if *width != 32 {
                Type::Unknown
            } else if *signed == 0 {
                Type::UInt32
            } else {
                Type::Int32
            };
            types.insert(*result, t);
            Ok(())
        },
        Op::OpTypeFloat { result, width } => {
            let t = if *width == 32 {
                Type::Float32
            } else {
                Type::Unknown
            };
            types.insert(*result, t);
            Ok(())
        },
        Op::OpTypeVector { result, component_type, component_count } => {
            match types.get(*component_type) {
                None => Err(Error::InvalidId),
                Some(t) => {
                    let nt = match t {
                        Type::Float32 => {
                            if *component_count == 2 {
                                Type::Vec2
                            } else if *component_count == 3 {
                                Type::Vec3
                            } else if *component_count == 4 {
                                Type::Vec4
                            } else {
                                Type::Unknown
                            }
                        },
                        _ => Type::Unknown,
                    };
                    types.insert(*result, nt);
                    Ok(())
                },
            }
        },
        Op::OpTypeMatrix { result, column_type, column_count } => {
            let nt = match types.get(*column_type) {
                Some(Type::Vec3) => {
                    if *column_count == 3 {
                        Type::Mat3
                    } else {
                        Type::Unknown
                    }
                },
                Some(Type::Vec4) => {
                    if *column_count == 4 {
                        Type::Mat4
                    } else {
                        Type::Unknown
                    }
                },
                _ => Type::Unknown,
            };
            types.insert(*result, nt);
            Ok(())
        },
        Op::OpTypeImage { result, sampled_type, dim, depth, sampled, format, .. } => {
            let sampled_is_float = match types.get(*sampled_type) {
                Some(Type::Float32) => true,
                _ => false,
            };
            let is_2d = match dim {
                ops::Dim::D2 => true,
                _ => false,
            };
            let nt = if sampled_is_float && is_2d {
                Type::Image2D { depth: *depth != 0, sampled: *sampled != 0, format: *format }
            } else {
                Type::Unknown
            };
            types.insert(*result, nt);
            Ok(())
        },
        Op::OpTypeSampler { result } => {
            types.insert(*result, Type::Sampler);
            Ok(())
        },
        Op::OpTypeSampledImage { result, image_type } => {
            let nt = match types.get(*image_type) {
                Some(Type::Image2D { .. }) => Type::SampledImage { image_type_id: *image_type },
                _ => Type::Unknown,
            };
            types.insert(*result, nt);
            Ok(())
        },
        Op::OpTypeArray { result, element_type, length } => {
            match constants.get(*length) {
                Some(len) => {
                    let nt = Type::Array { element_type_id: *element_type, length: Some(*len) };
                    types.insert(*result, nt);
                    Ok(())
                },
                None => Err(Error::InvalidId),
            }
        },
        Op::OpTypeRuntimeArray { result, element_type } => {
            types.insert(*result, Type::Array { element_type_id: *element_type, length: None });
            Ok(())
        },
        Op::OpTypeStruct { result, element_types } => {
            let elements = default_members(element_types);
            types.insert(*result, Type::Struct { name: None, elements });
            Ok(())
        },
        Op::OpTypePointer { result, storage_class, pointed_type } => {
            let nt = Type::Pointer {
                storage_class: reflect_storage_class(storage_class),
                pointed_type_id: *pointed_type,
            };
            types.insert(*result, nt);
            Ok(())
        },
        Op::OpConstant { result_type, result, value } => {
            let is_u32 = match types.get(*result_type) {
                Some(Type::UInt32) => true,
                _ => false,
            };
            if is_u32 && value.len() == 1 {
                constants.insert(*result, value[0]);
            }
            Ok(())
        },
        Op::OpVariable { result_type, result, .. } => {
            vars.insert(
                *result,
                RawVariable {
                    set: None,
                    binding: None,
                    location: None,
                    type_id: *result_type,
                    name: None,
                },
            );
            Ok(())
        },
        Op::OpEntryPoint { execution_model, name, interface, .. } => {
            let em = match execution_model {
                ops::ExecutionModel::Unknown => {
                    return Err(Error::Other);
                },
                ops::ExecutionModel::Vertex => ExecutionModel::Vertex,
                ops::ExecutionModel::Fragment => ExecutionModel::Fragment,
            };
            let ghost before_entries = entries.deep_view();
            let ghost pre = entries@;
            entries.push(
                RawEntryPoint {
                    name: name.clone(),
                    execution_model: em,
                    interface: clone_u32_vec(interface),
                },
            );
            proof {
                let dv = entries.deep_view();
                let pushed = RawEntryPointV { name: name@, execution_model: em, interface: interface@ };
                assert(forall|i: int|
                    0 <= i < pre.len() ==> #[trigger] dv[i] == pre[i].deep_view());
                assert(forall|i: int|
                    0 <= i < pre.len() ==> #[trigger] before_entries[i] == pre[i].deep_view());
                assert(dv[pre.len() as int] == entries@[pre.len() as int].deep_view());
                assert(entries@[pre.len() as int].deep_view() == pushed);
                assert(dv =~= before_entries.push(pushed));
            }
            Ok(())
        },
        _ => Ok(()),
    }
}

/// Runs the collection pass over all decoded instructions.
pub(crate) fn collect_types_and_vars(
    ops: &Vec<Op>,
    types: &mut IdMap<Type>,
    constants: &mut IdMap<u32>,
    vars: &mut IdMap<RawVariable>,
    entries: &mut Vec<RawEntryPoint>,
) -> (r: SpirvResult<()>)
    requires
        old(types).wf() && old(types)@ == Map::<u32, TypeV>::empty(),
        old(constants).wf() && old(constants)@ == Map::<u32, u32>::empty(),
        old(vars).wf() && old(vars)@ == Map::<u32, RawVariableV>::empty(),
        old(entries)@.len() == 0,
    ensures
        final(types).wf(),
        final(constants).wf(),
        final(vars).wf(),
        ({
            let after = CollectV {
                types: final(types)@,
                constants: final(constants)@,
                vars: final(vars)@,
                entries: final(entries).deep_view(),
            };
            match r {
                Ok(_) => spec_collect(ops.deep_view()) == Ok::<CollectV, Error>(after),
                Err(e) => spec_collect(ops.deep_view()) == Err::<CollectV, Error>(e),
            }
        }),
{
    let n: usize = ops.len();
    proof {
        assert(old(entries).deep_view() =~= Seq::<RawEntryPointV>::empty());
    }
    let mut k: usize = 0;
    while k < n
        invariant
            k <= n,
            n == ops@.len(),
            types.wf(),
            constants.wf(),
            vars.wf(),
            collect_upto(ops.deep_view(), k as int) == Ok::<CollectV, Error>(
                CollectV {
                    types: types@,
                    constants: constants@,
                    vars: vars@,
                    entries: entries.deep_view(),
                },
            ),
        decreases n - k,
    {
        let ghost opsv = ops.deep_view();
        match collect_one(types, constants, vars, entries, &ops[k]) {
            Ok(_) => {
                proof {
                    assert(opsv[k as int] == ops@[k as int]@);
                }
            },
            Err(e) => {
                proof {
                    assert(opsv[k as int] == ops@[k as int]@);
                    assert(collect_upto(opsv, k + 1) == Err::<CollectV, Error>(e));
                    lemma_collect_upto_err(opsv, k + 1, opsv.len() as int, e);
                }
                return Err(e);
            },
        }
        k = k + 1;
    }
    Ok(())
}

} // verus!
