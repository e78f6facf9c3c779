//! The decoration and name resolution pass.
//!
//! A second sweep overlays names, bindings, locations and member layout
//! decorations onto the tables the collection pass built.  Unlike that
//! pass it is order-independent: each instruction only rewrites an entry
//! that already exists, and targets that do not fit are ignored.

use vstd::prelude::*;

use crate::idmap::IdMap;
use crate::ops::Decoration;
use crate::ops::Op;
use crate::ops::OpV;
use crate::view::MemberV;
use crate::view::RawVariableV;
use crate::view::TypeV;
use crate::RawVariable;
use crate::StructMember;
use crate::Type;

verus! {

/// The two tables the decoration pass rewrites.
pub struct DecorateV {
    pub types: Map<u32, TypeV>,
    pub vars: Map<u32, RawVariableV>,
}

/// `OpName`: names a variable, or a struct type when no variable carries
/// the target id.
pub open spec fn spec_apply_name(st: DecorateV, target: u32, name: Seq<char>) -> DecorateV {
    if st.vars.contains_key(target) {
        let v = st.vars[target];
        DecorateV { vars: st.vars.insert(target, RawVariableV { name: Some(name), ..v }), ..st }
    } else if st.types.contains_key(target) && st.types[target] is Struct {
        let t = st.types[target];
        DecorateV {
            types: st.types.insert(
                target,
                TypeV::Struct { name: Some(name), elements: t->Struct_elements },
            ),
            ..st
        }
    } else {
        st
    }
}

/// `OpMemberName`: names a struct member by index; an out-of-range index
/// or a non-struct target is ignored.
pub open spec fn spec_apply_member_name(
    st: DecorateV,
    target: u32,
    member_index: u32,
    name: Seq<char>,
) -> DecorateV {
    if st.types.contains_key(target) && st.types[target] is Struct && (member_index as int)
        < st.types[target]->Struct_elements.len() {
        let t = st.types[target];
        let els = t->Struct_elements;
        let m = els[member_index as int];
        DecorateV {
            types: st.types.insert(
                target,
                TypeV::Struct {
                    name: t->Struct_name,
                    elements: els.update(member_index as int, MemberV { name: Some(name), ..m }),
                },
            ),
            ..st
        }
    } else {
        st
    }
}

/// `OpDecorate`: binding, descriptor set and location land on variables;
/// every other decoration kind, or a target that is not a variable, is
/// ignored.
pub open spec fn spec_apply_decorate(st: DecorateV, target: u32, decoration: Decoration) -> DecorateV {
    match decoration {
        Decoration::Binding { binding } => {
            if st.vars.contains_key(target) {
                let v = st.vars[target];
                DecorateV {
                    vars: st.vars.insert(target, RawVariableV { binding: Some(binding), ..v }),
                    ..st
                }
            } else {
                st
            }
        },
        Decoration::DescriptorSet { set } => {
            if st.vars.contains_key(target) {
                let v = st.vars[target];
                DecorateV {
                    vars: st.vars.insert(target, RawVariableV { set: Some(set), ..v }),
                    ..st
                }
            } else {
                st
            }
        },
        Decoration::Location { loc } => {
            if st.vars.contains_key(target) {
                let v = st.vars[target];
                DecorateV {
                    vars: st.vars.insert(target, RawVariableV { location: Some(loc), ..v }),
                    ..st
                }
            } else {
                st
            }
        },
        _ => st,
    }
}

/// The member a layout decoration rewrites, or `None` when the
/// decoration kind is not a member layout.
pub open spec fn spec_decorated_member(m: MemberV, decoration: Decoration) -> Option<MemberV> {
    match decoration {
        Decoration::RowMajor => Some(MemberV { row_major: true, ..m }),
        Decoration::ColMajor => Some(MemberV { row_major: false, ..m }),
        Decoration::MatrixStride { stride } => Some(MemberV { stride, ..m }),
        Decoration::Offset { offset } => Some(MemberV { offset: Some(offset), ..m }),
        _ => None,
    }
}

/// `OpMemberDecorate`: matrix layout, stride and offset land on a struct
/// member by index; anything else is ignored.
pub open spec fn spec_apply_member_decorate(
    st: DecorateV,
    target: u32,
    member_index: u32,
    decoration: Decoration,
) -> DecorateV {
    if st.types.contains_key(target) && st.types[target] is Struct && (member_index as int)
        < st.types[target]->Struct_elements.len() {
        let t = st.types[target];
        let els = t->Struct_elements;
        match spec_decorated_member(els[member_index as int], decoration) {
            Some(m2) => DecorateV {
                types: st.types.insert(
                    target,
                    TypeV::Struct {
                        name: t->Struct_name,
                        elements: els.update(member_index as int, m2),
                    },
                ),
                ..st
            },
            None => st,
        }
    } else {
        st
    }
}

/// How one instruction advances the decoration pass; instructions of any
/// other shape leave the state alone.
pub open spec fn decorate_step(st: DecorateV, op: OpV) -> DecorateV {
    match op {
        OpV::OpName { target, name } => spec_apply_name(st, target, name),
        OpV::OpMemberName { target, member_index, name } => spec_apply_member_name(
            st,
            target,
            member_index,
            name,
        ),
        OpV::OpDecorate { target, decoration } => spec_apply_decorate(st, target, decoration),
        OpV::OpMemberDecorate { target, member_index, decoration } => spec_apply_member_decorate(
            st,
            target,
            member_index,
            decoration,
        ),
        _ => st,
    }
}

/// The state after the first `n` instructions of the decoration pass.
pub open spec fn decorate_upto(ops: Seq<OpV>, st0: DecorateV, n: int) -> DecorateV
    decreases n,
{
    if n <= 0 {
        st0
    } else {
        decorate_step(decorate_upto(ops, st0, n - 1), ops[n - 1])
    }
}

/// What the decoration pass yields for the whole instruction sequence.
pub open spec fn spec_decorate(ops: Seq<OpV>, st0: DecorateV) -> DecorateV {
    decorate_upto(ops, st0, ops.len() as int)
}

fn apply_name(types: &mut IdMap<Type>, vars: &mut IdMap<RawVariable>, target: u32, name: &String)
    requires
        old(types).wf(),
        old(vars).wf(),
    ensures
        final(types).wf(),
        final(vars).wf(),
        (DecorateV { types: final(types)@, vars: final(vars)@ } == spec_apply_name(
            DecorateV { types: old(types)@, vars: old(vars)@ },
            target,
            name@,
        )),
{
    match vars.take(target) {
        Some(var) => {
            let mut var = var;
            var.name = Some(name.clone());
            vars.insert(target, var);
            proof {
                assert(old(vars)@.remove(target).insert(target, var.deep_view()) =~= old(
                    vars,
                )@.insert(target, var.deep_view()));
            }
        },
        None => {
            match types.take(target) {
                Some(t) => match t {
                    Type::Struct { name: _, elements } => {
                        let nt = Type::Struct { name: Some(name.clone()), elements };
                        types.insert(target, nt);
                        proof {
                            assert(old(types)@.remove(target).insert(target, nt.deep_view()) =~= old(
                                types,
                            )@.insert(target, nt.deep_view()));
                        }
                    },
                    other => {
                        types.insert(target, other);
                        proof {
                            assert(old(types)@.remove(target).insert(target, other.deep_view())
                                =~= old(types)@);
                        }
                    },
                },
                None => {},
            }
        },
    }
}

fn apply_member_name(types: &mut IdMap<Type>, target: u32, member_index: u32, name: &String)
    requires
        old(types).wf(),
    ensures
        final(types).wf(),
        ({
            let st = spec_apply_member_name(
                DecorateV { types: old(types)@, vars: Map::empty() },
                target,
                member_index,
                name@,
            );
            final(types)@ == st.types
        }),
{
    match types.take(target) {
        Some(t) => match t {
            Type::Struct { name: sname, elements } => {
                let mut elements = elements;
                let ghost pre_els = elements@;
                let ghost pre_dv = elements.deep_view();
                let idx: usize = member_index as usize;
                if idx < elements.len() {
                    let m = elements.remove(idx);
                    let mut m = m;
                    m.name = Some(name.clone());
                    let ghost m2 = m;
                    elements.insert(idx, m);
                    proof {
                        assert(elements@ =~= pre_els.update(idx as int, m2));
                        let dv = elements.deep_view();
                        assert(forall|i: int|
                            0 <= i < dv.len() ==> #[trigger] dv[i] == elements@[i].deep_view());
                        assert(forall|i: int|
                            0 <= i < pre_els.len() ==> #[trigger] pre_dv[i]
                                == pre_els[i].deep_view());
                        assert(dv =~= pre_dv.update(idx as int, m2.deep_view()));
                    }
                    let nt = Type::Struct { name: sname, elements };
                    types.insert(target, nt);
                    proof {
                        assert(old(types)@.remove(target).insert(target, nt.deep_view()) =~= old(
                            types,
                        )@.insert(target, nt.deep_view()));
                    }
                } else {
                    let nt = Type::Struct { name: sname, elements };
                    types.insert(target, nt);
                    proof {
                        assert(nt.deep_view() == old(types)@[target]);
                        assert(old(types)@.remove(target).insert(target, nt.deep_view()) =~= old(
                            types,
                        )@);
                    }
                }
            },
            other => {
                types.insert(target, other);
                proof {
                    assert(old(types)@.remove(target).insert(target, other.deep_view()) =~= old(
                        types,
                    )@);
                }
            },
        },
        None => {},
    }
}

fn apply_decorate(vars: &mut IdMap<RawVariable>, target: u32, decoration: &Decoration)
    requires
        old(vars).wf(),
    ensures
        final(vars).wf(),
        ({
            let st = spec_apply_decorate(
                DecorateV { types: Map::empty(), vars: old(vars)@ },
                target,
                *decoration,
            );
            final(vars)@ == st.vars
        }),
{
    let payload: Option<u32> = match decoration {
        Decoration::Binding { binding } => Some(*binding),
        Decoration::DescriptorSet { set } => Some(*set),
        Decoration::Location { loc } => Some(*loc),
        _ => None,
    };
    if payload.is_some() {
        match vars.take(target) {
            Some(var) => {
                let mut var = var;
                match decoration {
                    Decoration::Binding { binding } => {
                        var.binding = Some(*binding);
                    },
                    Decoration::DescriptorSet { set } => {
                        var.set = Some(*set);
                    },
                    Decoration::Location { loc } => {
                        var.location = Some(*loc);
                    },
                    _ => {},
                }
                vars.insert(target, var);
                proof {
                    assert(old(vars)@.remove(target).insert(target, var.deep_view()) =~= old(
                        vars,
                    )@.insert(target, var.deep_view()));
                }
            },
            None => {},
        }
    }
}

fn apply_member_decorate(
    types: &mut IdMap<Type>,
    target: u32,
    member_index: u32,
    decoration: &Decoration,
)
    requires
        old(types).wf(),
    ensures
        final(types).wf(),
        ({
            let st = spec_apply_member_decorate(
                DecorateV { types: old(types)@, vars: Map::empty() },
                target,
                member_index,
                *decoration,
            );
            final(types)@ == st.types
        }),
{
    let is_layout: bool = match decoration {
        Decoration::RowMajor => true,
        Decoration::ColMajor => true,
        Decoration::MatrixStride { .. } => true,
        Decoration::Offset { .. } => true,
        _ => false,
    };
    if !is_layout {
        return;
    }
    match types.take(target) {
        Some(t) => match t {
            Type::Struct { name: sname, elements } => {
                let mut elements = elements;
                let ghost pre_els = elements@;
                let ghost pre_dv = elements.deep_view();
                let idx: usize = member_index as usize;
                if idx < elements.len() {
                    let m = elements.remove(idx);
                    let mut m = m;
                    match decoration {
                        Decoration::RowMajor => {
                            m.row_major = true;
                        },
                        Decoration::ColMajor => {
                            m.row_major = false;
                        },
                        Decoration::MatrixStride { stride } => {
                            m.stride = *stride;
                        },
                        Decoration::Offset { offset } => {
                            m.offset = Some(*offset);
                        },
                        _ => {},
                    }
                    let ghost m2 = m;
                    elements.insert(idx, m);
                    proof {
                        assert(elements@ =~= pre_els.update(idx as int, m2));
                        let dv = elements.deep_view();
                        assert(forall|i: int|
                            0 <= i < dv.len() ==> #[trigger] dv[i] == elements@[i].deep_view());
                        assert(forall|i: int|
                            0 <= i < pre_els.len() ==> #[trigger] pre_dv[i]
                                == pre_els[i].deep_view());
                        assert(dv =~= pre_dv.update(idx as int, m2.deep_view()));
                        assert(Some(m2.deep_view()) == spec_decorated_member(
                            pre_dv[idx as int],
                            *decoration,
                        ));
                    }
                    let nt = Type::Struct { name: sname, elements };
                    types.insert(target, nt);
                    proof {
                        assert(old(types)@.remove(target).insert(target, nt.deep_view()) =~= old(
                            types,
                        )@.insert(target, nt.deep_view()));
                    }
                } else {
                    let nt = Type::Struct { name: sname, elements };
                    types.insert(target, nt);
                    proof {
                        assert(nt.deep_view() == old(types)@[target]);
                        assert(old(types)@.remove(target).insert(target, nt.deep_view()) =~= old(
                            types,
                        )@);
                    }
                }
            },
            other => {
                types.insert(target, other);
                proof {
                    assert(old(types)@.remove(target).insert(target, other.deep_view()) =~= old(
                        types,
                    )@);
                }
            },
        },
        None => {},
    }
}

/// Runs the decoration pass over all decoded instructions, rewriting the
/// type and variable tables in place.
pub(crate) fn collect_decorations_and_names(
    ops: &Vec<Op>,
    types: &mut IdMap<Type>,
    vars: &mut IdMap<RawVariable>,
)
    requires
        old(types).wf(),
        old(vars).wf(),
    ensures
        final(types).wf(),
        final(vars).wf(),
        (DecorateV { types: final(types)@, vars: final(vars)@ } == spec_decorate(
            ops.deep_view(),
            DecorateV { types: old(types)@, vars: old(vars)@ },
        )),
{
    let ghost st0 = DecorateV { types: old(types)@, vars: old(vars)@ };
    let n: usize = ops.len();
    let mut k: usize = 0;
    while k < n
        invariant
            k <= n,
            n == ops@.len(),
            types.wf(),
            vars.wf(),
            decorate_upto(ops.deep_view(), st0, k as int) == (DecorateV {
                types: types@,
                vars: vars@,
            }),
        decreases n - k,
    {
        let ghost opsv = ops.deep_view();
        proof {
            assert(opsv[k as int] == ops@[k as int]@);
        }
        match &ops[k] {
            Op::OpName { target, name } => {
                apply_name(types, vars, *target, name);
            },
            Op::OpMemberName { target, member_index, name } => {
                apply_member_name(types, *target, *member_index, name);
                proof {
                    assert(spec_apply_member_name(
                        DecorateV { types: decorate_upto(opsv, st0, k as int).types, vars: Map::empty() },
                        *target,
                        *member_index,
                        name@,
                    ).types == spec_apply_member_name(
                        decorate_upto(opsv, st0, k as int),
                        *target,
                        *member_index,
                        name@,
                    ).types);
                    assert(spec_apply_member_name(
                        decorate_upto(opsv, st0, k as int),
                        *target,
                        *member_index,
                        name@,
                    ).vars == decorate_upto(opsv, st0, k as int).vars);
                }
            },
            Op::OpDecorate { target, decoration } => {
                apply_decorate(vars, *target, decoration);
                proof {
                    assert(spec_apply_decorate(
                        DecorateV { types: Map::empty(), vars: decorate_upto(opsv, st0, k as int).vars },
                        *target,
                        *decoration,
                    ).vars == spec_apply_decorate(
                        decorate_upto(opsv, st0, k as int),
                        *target,
                        *decoration,
                    ).vars);
                    assert(spec_apply_decorate(
                        decorate_upto(opsv, st0, k as int),
                        *target,
                        *decoration,
                    ).types == decorate_upto(opsv, st0, k as int).types);
                }
            },
            Op::OpMemberDecorate { target, member_index, decoration } => {
                apply_member_decorate(types, *target, *member_index, decoration);
                proof {
                    assert(spec_apply_member_decorate(
                        DecorateV { types: decorate_upto(opsv, st0, k as int).types, vars: Map::empty() },
                        *target,
                        *member_index,
                        *decoration,
                    ).types == spec_apply_member_decorate(
                        decorate_upto(opsv, st0, k as int),
                        *target,
                        *member_index,
                        *decoration,
                    ).types);
                    assert(spec_apply_member_decorate(
                        decorate_upto(opsv, st0, k as int),
                        *target,
                        *member_index,
                        *decoration,
                    ).vars == decorate_upto(opsv, st0, k as int).vars);
                }
            },
            _ => {},
        }
        k = k + 1;
    }
}

} // verus!
