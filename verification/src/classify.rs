//! Variable classification and entry-point assembly.
//!
//! Each raw variable is classified by the storage class of its pointer
//! type into one of four disjoint categories; a category may also drop a
//! variable that lacks a required decoration.  Each entry point then
//! filters its interface id list against the four category maps,
//! preserving interface order.

use vstd::prelude::*;

use crate::idmap::assoc_map;
use crate::idmap::lemma_assoc_push;
use crate::idmap::IdMap;
use crate::view::EntryPointV;
use crate::view::LocationV;
use crate::view::RawEntryPointV;
use crate::view::PushConstantV;
use crate::view::RawVariableV;
use crate::view::TypeV;
use crate::view::UniformV;
use crate::EntryPoint;
use crate::LocationVariable;
use crate::PushConstantVariable;
use crate::RawEntryPoint;
use crate::RawVariable;
use crate::StorageClass;
use crate::Type;
use crate::UniformVariable;

verus! {

/// The uniform a variable reflects to: it must be a pointer of the
/// uniform category, and both the descriptor set and the binding
/// decoration must have been present, else it is dropped entirely.
pub open spec fn spec_uniform_of(types: Map<u32, TypeV>, v: RawVariableV) -> Option<UniformV> {
    if !types.contains_key(v.type_id) {
        None
    } else {
        match types[v.type_id] {
            TypeV::Pointer {
                storage_class: StorageClass::Uniform | StorageClass::UniformConstant,
                pointed_type_id,
            } => {
                if v.set is Some && v.binding is Some {
                    Some(
                        UniformV {
                            set: v.set->Some_0,
                            binding: v.binding->Some_0,
                            type_id: pointed_type_id,
                            name: v.name,
                        },
                    )
                } else {
                    None
                }
            },
            _ => None,
        }
    }
}

/// The push constant a variable reflects to; no decoration is required.
pub open spec fn spec_push_constant_of(types: Map<u32, TypeV>, v: RawVariableV) -> Option<
    PushConstantV,
> {
    if !types.contains_key(v.type_id) {
        None
    } else {
        match types[v.type_id] {
            TypeV::Pointer { storage_class: StorageClass::PushConstant, pointed_type_id } => Some(
                PushConstantV { type_id: pointed_type_id, name: v.name },
            ),
            _ => None,
        }
    }
}

/// The location variable a variable reflects to in the category of
/// storage class `sc` (stage inputs or outputs); the location decoration
/// must have been present, else it is dropped.
pub open spec fn spec_location_of(types: Map<u32, TypeV>, v: RawVariableV, sc: StorageClass) -> Option<
    LocationV,
> {
    if !types.contains_key(v.type_id) {
        None
    } else {
        match types[v.type_id] {
            TypeV::Pointer { storage_class, pointed_type_id } => {
                if storage_class == sc && v.location is Some {
                    Some(
                        LocationV {
                            location: v.location->Some_0,
                            type_id: pointed_type_id,
                            name: v.name,
                        },
                    )
                } else {
                    None
                }
            },
            _ => None,
        }
    }
}

/// The id-indexed map of all classified uniforms.
pub open spec fn spec_uniforms(types: Map<u32, TypeV>, vars: Map<u32, RawVariableV>) -> Map<
    u32,
    UniformV,
> {
    Map::new(
        |id: u32| vars.contains_key(id) && spec_uniform_of(types, vars[id]) is Some,
        |id: u32| spec_uniform_of(types, vars[id])->Some_0,
    )
}

/// The id-indexed map of all classified push constants.
pub open spec fn spec_push_constants(types: Map<u32, TypeV>, vars: Map<u32, RawVariableV>) -> Map<
    u32,
    PushConstantV,
> {
    Map::new(
        |id: u32| vars.contains_key(id) && spec_push_constant_of(types, vars[id]) is Some,
        |id: u32| spec_push_constant_of(types, vars[id])->Some_0,
    )
}

/// The id-indexed map of all classified inputs or outputs.
pub open spec fn spec_locations(
    types: Map<u32, TypeV>,
    vars: Map<u32, RawVariableV>,
    sc: StorageClass,
) -> Map<u32, LocationV> {
    Map::new(
        |id: u32| vars.contains_key(id) && spec_location_of(types, vars[id], sc) is Some,
        |id: u32| spec_location_of(types, vars[id], sc)->Some_0,
    )
}

/// The values a category map yields for an interface id list, in list
/// order; ids absent from the map are silently dropped.
pub open spec fn filter_ids<T>(ids: Seq<u32>, m: Map<u32, T>) -> Seq<T>
    decreases ids.len(),
{
    if ids.len() == 0 {
        Seq::empty()
    } else {
        let rest = filter_ids(ids.drop_first(), m);
        if m.contains_key(ids[0]) {
            seq![m[ids[0]]] + rest
        } else {
            rest
        }
    }
}

/// Filtering an id list extended by one id.
pub proof fn lemma_filter_ids_snoc<T>(ids: Seq<u32>, m: Map<u32, T>, x: u32)
    ensures
        filter_ids(ids.push(x), m) == filter_ids(ids, m) + (if m.contains_key(x) {
            seq![m[x]]
        } else {
            Seq::<T>::empty()
        }),
    decreases ids.len(),
{
    let tail = if m.contains_key(x) {
        seq![m[x]]
    } else {
        Seq::<T>::empty()
    };
    if ids.len() == 0 {
        assert(ids.push(x)[0] == x);
        assert(ids.push(x).drop_first() =~= Seq::<u32>::empty());
        assert(filter_ids(Seq::<u32>::empty(), m) =~= Seq::<T>::empty());
        assert(filter_ids(ids, m) =~= Seq::<T>::empty());
        assert(filter_ids(ids.push(x), m) =~= filter_ids(ids, m) + tail);
    } else {
        lemma_filter_ids_snoc(ids.drop_first(), m, x);
        assert(ids.push(x).drop_first() =~= ids.drop_first().push(x));
        assert(ids.push(x)[0] == ids[0]);
        assert(filter_ids(ids.push(x), m) =~= filter_ids(ids, m) + tail);
    }
}

/// Adding one variable to the table extends the uniform map by its
/// classification, when it has one.
proof fn lemma_uniforms_insert(
    types: Map<u32, TypeV>,
    vars: Map<u32, RawVariableV>,
    id: u32,
    v: RawVariableV,
)
    requires
        !vars.contains_key(id),
    ensures
        spec_uniforms(types, vars.insert(id, v)) == (match spec_uniform_of(types, v) {
            Some(u) => spec_uniforms(types, vars).insert(id, u),
            None => spec_uniforms(types, vars),
        }),
{
    match spec_uniform_of(types, v) {
        Some(u) => {
            assert(spec_uniforms(types, vars.insert(id, v)) =~= spec_uniforms(types, vars).insert(
                id,
                u,
            ));
        },
        None => {
            assert(spec_uniforms(types, vars.insert(id, v)) =~= spec_uniforms(types, vars));
        },
    }
}

/// As [`lemma_uniforms_insert`], for push constants.
proof fn lemma_push_constants_insert(
    types: Map<u32, TypeV>,
    vars: Map<u32, RawVariableV>,
    id: u32,
    v: RawVariableV,
)
    requires
        !vars.contains_key(id),
    ensures
        spec_push_constants(types, vars.insert(id, v)) == (match spec_push_constant_of(types, v) {
            Some(u) => spec_push_constants(types, vars).insert(id, u),
            None => spec_push_constants(types, vars),
        }),
{
    match spec_push_constant_of(types, v) {
        Some(u) => {
            assert(spec_push_constants(types, vars.insert(id, v)) =~= spec_push_constants(
                types,
                vars,
            ).insert(id, u));
        },
        None => {
            assert(spec_push_constants(types, vars.insert(id, v)) =~= spec_push_constants(
                types,
                vars,
            ));
        },
    }
}

/// As [`lemma_uniforms_insert`], for stage inputs and outputs.
proof fn lemma_locations_insert(
    types: Map<u32, TypeV>,
    vars: Map<u32, RawVariableV>,
    sc: StorageClass,
    id: u32,
    v: RawVariableV,
)
    requires
        !vars.contains_key(id),
    ensures
        spec_locations(types, vars.insert(id, v), sc) == (match spec_location_of(types, v, sc) {
            Some(u) => spec_locations(types, vars, sc).insert(id, u),
            None => spec_locations(types, vars, sc),
        }),
{
    match spec_location_of(types, v, sc) {
        Some(u) => {
            assert(spec_locations(types, vars.insert(id, v), sc) =~= spec_locations(
                types,
                vars,
                sc,
            ).insert(id, u));
        },
        None => {
            assert(spec_locations(types, vars.insert(id, v), sc) =~= spec_locations(
                types,
                vars,
                sc,
            ));
        },
    }
}

fn clone_opt_string(s: &Option<String>) -> (r: Option<String>)
    ensures
        r.deep_view() == s.deep_view(),
{
    match s {
        Some(x) => Some(x.clone()),
        None => None,
    }
}

fn uniform_of(types: &IdMap<Type>, var: &RawVariable) -> (r: Option<UniformVariable>)
    requires
        types.wf(),
    ensures
        r.deep_view() == spec_uniform_of(types@, var@),
{
    match types.get(var.type_id) {
        Some(t) => match t {
            Type::Pointer { storage_class, pointed_type_id } => match storage_class {
                StorageClass::Uniform | StorageClass::UniformConstant => match (
                    var.set,
                    var.binding,
                ) {
                    (Some(s), Some(b)) => Some(
                        UniformVariable {
                            set: s,
                            binding: b,
                            type_id: *pointed_type_id,
                            name: clone_opt_string(&var.name),
                        },
                    ),
                    _ => None,
                },
                _ => None,
            },
            _ => None,
        },
        None => None,
    }
}

fn push_constant_of(types: &IdMap<Type>, var: &RawVariable) -> (r: Option<PushConstantVariable>)
    requires
        types.wf(),
    ensures
        r.deep_view() == spec_push_constant_of(types@, var@),
{
    match types.get(var.type_id) {
        Some(t) => match t {
            Type::Pointer { storage_class, pointed_type_id } => match storage_class {
                StorageClass::PushConstant => Some(
                    PushConstantVariable {
                        type_id: *pointed_type_id,
                        name: clone_opt_string(&var.name),
                    },
                ),
                _ => None,
            },
            _ => None,
        },
        None => None,
    }
}

fn location_of(types: &IdMap<Type>, var: &RawVariable, want_output: bool) -> (r: Option<
    LocationVariable,
>)
    requires
        types.wf(),
    ensures
        r.deep_view() == spec_location_of(
            types@,
            var@,
            if want_output {
                StorageClass::Output
            } else {
                StorageClass::Input
            },
        ),
{
    match types.get(var.type_id) {
        Some(t) => match t {
            Type::Pointer { storage_class, pointed_type_id } => {
                let wanted = match storage_class {
                    StorageClass::Input => !want_output,
                    StorageClass::Output => want_output,
                    _ => false,
                };
                if wanted {
                    match var.location {
                        Some(loc) => Some(
                            LocationVariable {
                                location: loc,
                                type_id: *pointed_type_id,
                                name: clone_opt_string(&var.name),
                            },
                        ),
                        None => None,
                    }
                } else {
                    None
                }
            },
            _ => None,
        },
        None => None,
    }
}

fn clone_uniform(u: &UniformVariable) -> (r: UniformVariable)
    ensures
        r.deep_view() == u.deep_view(),
{
    UniformVariable {
        set: u.set,
        binding: u.binding,
        type_id: u.type_id,
        name: clone_opt_string(&u.name),
    }
}

fn clone_push_constant(u: &PushConstantVariable) -> (r: PushConstantVariable)
    ensures
        r.deep_view() == u.deep_view(),
{
    PushConstantVariable { type_id: u.type_id, name: clone_opt_string(&u.name) }
}

fn clone_location(u: &LocationVariable) -> (r: LocationVariable)
    ensures
        r.deep_view() == u.deep_view(),
{
    LocationVariable {
        location: u.location,
        type_id: u.type_id,
        name: clone_opt_string(&u.name),
    }
}

/// Builds the id-indexed map of classified uniforms.
fn classify_uniforms(types: &IdMap<Type>, vars: &IdMap<RawVariable>) -> (r: IdMap<UniformVariable>)
    requires
        types.wf(),
        vars.wf(),
    ensures
        r.wf(),
        r@ == spec_uniforms(types@, vars@),
{
    let mut out: IdMap<UniformVariable> = IdMap::new();
    let n: usize = vars.num_entries();
    proof {
        assert(vars.entries@.take(0) =~= Seq::<(u32, RawVariable)>::empty());
        assert(out@ =~= spec_uniforms(types@, assoc_map(vars.entries@.take(0))));
    }
    let mut i: usize = 0;
    while i < n
        invariant
            i <= n,
            n == vars.entries@.len(),
            types.wf(),
            vars.wf(),
            out.wf(),
            out@ == spec_uniforms(types@, assoc_map(vars.entries@.take(i as int))),
        decreases n - i,
    {
        let id = vars.key_at(i);
        let var = vars.value_at(i);
        let ghost pre_entries = vars.entries@.take(i as int);
        proof {
            assert(forall|j: int| 0 <= j < i ==> #[trigger] pre_entries[j] == vars.entries@[j]);
            assert(crate::idmap::unique_keys(pre_entries));
            assert(forall|j: int| 0 <= j < i ==> (#[trigger] pre_entries[j]).0 != id);
            crate::idmap::lemma_assoc_contains(pre_entries, id);
            lemma_assoc_push(pre_entries, id, vars.entries@[i as int].1);
            assert(vars.entries@.take(i + 1) =~= pre_entries.push(
                (id, vars.entries@[i as int].1),
            ));
            lemma_uniforms_insert(
                types@,
                assoc_map(pre_entries),
                id,
                vars.entries@[i as int].1.deep_view(),
            );
        }
        match uniform_of(types, var) {
            Some(u) => {
                out.insert(id, u);
            },
            None => {},
        }
        i = i + 1;
    }
    proof {
        assert(vars.entries@.take(n as int) =~= vars.entries@);
    }
    out
}

/// Builds the id-indexed map of classified push constants.
fn classify_push_constants(types: &IdMap<Type>, vars: &IdMap<RawVariable>) -> (r: IdMap<
    PushConstantVariable,
>)
    requires
        types.wf(),
        vars.wf(),
    ensures
        r.wf(),
        r@ == spec_push_constants(types@, vars@),
{
    let mut out: IdMap<PushConstantVariable> = IdMap::new();
    let n: usize = vars.num_entries();
    proof {
        assert(vars.entries@.take(0) =~= Seq::<(u32, RawVariable)>::empty());
        assert(out@ =~= spec_push_constants(types@, assoc_map(vars.entries@.take(0))));
    }
    let mut i: usize = 0;
    while i < n
        invariant
            i <= n,
            n == vars.entries@.len(),
            types.wf(),
            vars.wf(),
            out.wf(),
            out@ == spec_push_constants(types@, assoc_map(vars.entries@.take(i as int))),
        decreases n - i,
    {
        let id = vars.key_at(i);
        let var = vars.value_at(i);
        let ghost pre_entries = vars.entries@.take(i as int);
        proof {
            assert(forall|j: int| 0 <= j < i ==> #[trigger] pre_entries[j] == vars.entries@[j]);
            assert(crate::idmap::unique_keys(pre_entries));
            assert(forall|j: int| 0 <= j < i ==> (#[trigger] pre_entries[j]).0 != id);
            crate::idmap::lemma_assoc_contains(pre_entries, id);
            lemma_assoc_push(pre_entries, id, vars.entries@[i as int].1);
            assert(vars.entries@.take(i + 1) =~= pre_entries.push(
                (id, vars.entries@[i as int].1),
            ));
            lemma_push_constants_insert(
                types@,
                assoc_map(pre_entries),
                id,
                vars.entries@[i as int].1.deep_view(),
            );
        }
        match push_constant_of(types, var) {
            Some(u) => {
                out.insert(id, u);
            },
            None => {},
        }
        i = i + 1;
    }
    proof {
        assert(vars.entries@.take(n as int) =~= vars.entries@);
    }
    out
}

/// Builds the id-indexed map of classified inputs or outputs.
fn classify_locations(types: &IdMap<Type>, vars: &IdMap<RawVariable>, want_output: bool) -> (r:
    IdMap<LocationVariable>)
    requires
        types.wf(),
        vars.wf(),
    ensures
        r.wf(),
        r@ == spec_locations(
            types@,
            vars@,
            if want_output {
                StorageClass::Output
            } else {
                StorageClass::Input
            },
        ),
{
    let ghost sc = if want_output {
        StorageClass::Output
    } else {
        StorageClass::Input
    };
    let mut out: IdMap<LocationVariable> = IdMap::new();
    let n: usize = vars.num_entries();
    proof {
        assert(vars.entries@.take(0) =~= Seq::<(u32, RawVariable)>::empty());
        assert(out@ =~= spec_locations(types@, assoc_map(vars.entries@.take(0)), sc));
    }
    let mut i: usize = 0;
    while i < n
        invariant
            i <= n,
            n == vars.entries@.len(),
            types.wf(),
            vars.wf(),
            out.wf(),
            sc == if want_output {
                StorageClass::Output
            } else {
                StorageClass::Input
            },
            out@ == spec_locations(types@, assoc_map(vars.entries@.take(i as int)), sc),
        decreases n - i,
    {
        let id = vars.key_at(i);
        let var = vars.value_at(i);
        let ghost pre_entries = vars.entries@.take(i as int);
        proof {
            assert(forall|j: int| 0 <= j < i ==> #[trigger] pre_entries[j] == vars.entries@[j]);
            assert(crate::idmap::unique_keys(pre_entries));
            assert(forall|j: int| 0 <= j < i ==> (#[trigger] pre_entries[j]).0 != id);
            crate::idmap::lemma_assoc_contains(pre_entries, id);
            lemma_assoc_push(pre_entries, id, vars.entries@[i as int].1);
            assert(vars.entries@.take(i + 1) =~= pre_entries.push(
                (id, vars.entries@[i as int].1),
            ));
            lemma_locations_insert(
                types@,
                assoc_map(pre_entries),
                sc,
                id,
                vars.entries@[i as int].1.deep_view(),
            );
        }
        match location_of(types, var, want_output) {
            Some(u) => {
                out.insert(id, u);
            },
            None => {},
        }
        i = i + 1;
    }
    proof {
        assert(vars.entries@.take(n as int) =~= vars.entries@);
    }
    out
}

/// Resolves an interface id list against the uniform map, preserving
/// list order.
fn filter_uniforms(ids: &Vec<u32>, m: &IdMap<UniformVariable>) -> (r: Vec<UniformVariable>)
    requires
        m.wf(),
    ensures
        r.deep_view() == filter_ids(ids@, m@),
{
    let mut out: Vec<UniformVariable> = Vec::new();
    let n: usize = ids.len();
    proof {
        assert(ids@.take(0) =~= Seq::<u32>::empty());
        assert(out.deep_view() =~= filter_ids(ids@.take(0), m@));
    }
    let mut j: usize = 0;
    while j < n
        invariant
            j <= n,
            n == ids@.len(),
            m.wf(),
            out.deep_view() == filter_ids(ids@.take(j as int), m@),
        decreases n - j,
    {
        let ghost pre_dv = out.deep_view();
        let ghost pre = out@;
        proof {
            lemma_filter_ids_snoc(ids@.take(j as int), m@, ids@[j as int]);
            assert(ids@.take(j + 1) =~= ids@.take(j as int).push(ids@[j as int]));
        }
        match m.get(ids[j]) {
            Some(u) => {
                out.push(clone_uniform(u));
                proof {
                    let dv = out.deep_view();
                    assert(forall|p: int|
                        0 <= p < pre.len() ==> #[trigger] dv[p] == pre[p].deep_view());
                    assert(forall|p: int|
                        0 <= p < pre.len() ==> #[trigger] pre_dv[p] == pre[p].deep_view());
                    assert(dv[pre.len() as int] == out@[pre.len() as int].deep_view());
                    assert(dv =~= filter_ids(ids@.take(j + 1), m@));
                }
            },
            None => {
                proof {
                    assert(out.deep_view() =~= filter_ids(ids@.take(j + 1), m@));
                }
            },
        }
        j = j + 1;
    }
    proof {
        assert(ids@.take(n as int) =~= ids@);
    }
    out
}

/// Resolves an interface id list against the push constant map, preserving
/// list order.
fn filter_push_constants(ids: &Vec<u32>, m: &IdMap<PushConstantVariable>) -> (r: Vec<PushConstantVariable>)
    requires
        m.wf(),
    ensures
        r.deep_view() == filter_ids(ids@, m@),
{
    let mut out: Vec<PushConstantVariable> = Vec::new();
    let n: usize = ids.len();
    proof {
        assert(ids@.take(0) =~= Seq::<u32>::empty());
        assert(out.deep_view() =~= filter_ids(ids@.take(0), m@));
    }
    let mut j: usize = 0;
    while j < n
        invariant
            j <= n,
            n == ids@.len(),
            m.wf(),
            out.deep_view() == filter_ids(ids@.take(j as int), m@),
        decreases n - j,
    {
        let ghost pre_dv = out.deep_view();
        let ghost pre = out@;
        proof {
            lemma_filter_ids_snoc(ids@.take(j as int), m@, ids@[j as int]);
            assert(ids@.take(j + 1) =~= ids@.take(j as int).push(ids@[j as int]));
        }
        match m.get(ids[j]) {
            Some(u) => {
                out.push(clone_push_constant(u));
                proof {
                    let dv = out.deep_view();
                    assert(forall|p: int|
                        0 <= p < pre.len() ==> #[trigger] dv[p] == pre[p].deep_view());
                    assert(forall|p: int|
                        0 <= p < pre.len() ==> #[trigger] pre_dv[p] == pre[p].deep_view());
                    assert(dv[pre.len() as int] == out@[pre.len() as int].deep_view());
                    assert(dv =~= filter_ids(ids@.take(j + 1), m@));
                }
            },
            None => {
                proof {
                    assert(out.deep_view() =~= filter_ids(ids@.take(j + 1), m@));
                }
            },
        }
        j = j + 1;
    }
    proof {
        assert(ids@.take(n as int) =~= ids@);
    }
    out
}

/// Resolves an interface id list against the location map, preserving
/// list order.
fn filter_locations(ids: &Vec<u32>, m: &IdMap<LocationVariable>) -> (r: Vec<LocationVariable>)
    requires
        m.wf(),
    ensures
        r.deep_view() == filter_ids(ids@, m@),
{
    let mut out: Vec<LocationVariable> = Vec::new();
    let n: usize = ids.len();
    proof {
        assert(ids@.take(0) =~= Seq::<u32>::empty());
        assert(out.deep_view() =~= filter_ids(ids@.take(0), m@));
    }
    let mut j: usize = 0;
    while j < n
        invariant
            j <= n,
            n == ids@.len(),
            m.wf(),
            out.deep_view() == filter_ids(ids@.take(j as int), m@),
        decreases n - j,
    {
        let ghost pre_dv = out.deep_view();
        let ghost pre = out@;
        proof {
            lemma_filter_ids_snoc(ids@.take(j as int), m@, ids@[j as int]);
            assert(ids@.take(j + 1) =~= ids@.take(j as int).push(ids@[j as int]));
        }
        match m.get(ids[j]) {
            Some(u) => {
                out.push(clone_location(u));
                proof {
                    let dv = out.deep_view();
                    assert(forall|p: int|
                        0 <= p < pre.len() ==> #[trigger] dv[p] == pre[p].deep_view());
                    assert(forall|p: int|
                        0 <= p < pre.len() ==> #[trigger] pre_dv[p] == pre[p].deep_view());
                    assert(dv[pre.len() as int] == out@[pre.len() as int].deep_view());
                    assert(dv =~= filter_ids(ids@.take(j + 1), m@));
                }
            },
            None => {
                proof {
                    assert(out.deep_view() =~= filter_ids(ids@.take(j + 1), m@));
                }
            },
        }
        j = j + 1;
    }
    proof {
        assert(ids@.take(n as int) =~= ids@);
    }
    out
}

/// One assembled entry point: its interface list resolved against each of
/// the four category maps, in interface order.
pub open spec fn spec_assemble_entry(
    e: RawEntryPointV,
    um: Map<u32, UniformV>,
    pm: Map<u32, PushConstantV>,
    im: Map<u32, LocationV>,
    om: Map<u32, LocationV>,
) -> EntryPointV {
    EntryPointV {
        name: e.name,
        execution_model: e.execution_model,
        uniforms: filter_ids(e.interface, um),
        push_constants: filter_ids(e.interface, pm),
        inputs: filter_ids(e.interface, im),
        outputs: filter_ids(e.interface, om),
    }
}

/// All assembled entry points of a module, in declaration order.
pub open spec fn spec_assemble(
    types: Map<u32, TypeV>,
    vars: Map<u32, RawVariableV>,
    entries: Seq<RawEntryPointV>,
) -> Seq<EntryPointV> {
    Seq::new(
        entries.len(),
        |i: int|
            spec_assemble_entry(
                entries[i],
                spec_uniforms(types, vars),
                spec_push_constants(types, vars),
                spec_locations(types, vars, StorageClass::Input),
                spec_locations(types, vars, StorageClass::Output),
            ),
    )
}

/// Classifies all variables and assembles every entry point.
pub(crate) fn assemble_entry_points(
    types: &IdMap<Type>,
    vars: &IdMap<RawVariable>,
    entries: &Vec<RawEntryPoint>,
) -> (r: Vec<EntryPoint>)
    requires
        types.wf(),
        vars.wf(),
    ensures
        r.deep_view() == spec_assemble(types@, vars@, entries.deep_view()),
{
    let um = classify_uniforms(types, vars);
    let pm = classify_push_constants(types, vars);
    let im = classify_locations(types, vars, false);
    let om = classify_locations(types, vars, true);
    let mut out: Vec<EntryPoint> = Vec::new();
    let n: usize = entries.len();
    let mut k: usize = 0;
    while k < n
        invariant
            k <= n,
            n == entries@.len(),
            um.wf(),
            pm.wf(),
            im.wf(),
            om.wf(),
            um@ == spec_uniforms(types@, vars@),
            pm@ == spec_push_constants(types@, vars@),
            im@ == spec_locations(types@, vars@, StorageClass::Input),
            om@ == spec_locations(types@, vars@, StorageClass::Output),
            out@.len() == k,
            forall|i: int|
                0 <= i < k ==> (#[trigger] out@[i]).deep_view() == spec_assemble_entry(
                    entries@[i].deep_view(),
                    um@,
                    pm@,
                    im@,
                    om@,
                ),
        decreases n - k,
    {
        let e = &entries[k];
        let ep = EntryPoint {
            name: e.name.clone(),
            execution_model: e.execution_model,
            uniforms: filter_uniforms(&e.interface, &um),
            push_constants: filter_push_constants(&e.interface, &pm),
            inputs: filter_locations(&e.interface, &im),
            outputs: filter_locations(&e.interface, &om),
        };
        out.push(ep);
        k = k + 1;
    }
    proof {
        let dv = out.deep_view();
        assert(forall|i: int| 0 <= i < n ==> #[trigger] dv[i] == out@[i].deep_view());
        assert(forall|i: int|
            0 <= i < n ==> entries.deep_view()[i] == (#[trigger] entries@[i]).deep_view());
        assert(dv =~= spec_assemble(types@, vars@, entries.deep_view()));
    }
    out
}

} // verus!
