//! Stated laws of the reflection engine, proved from the specification
//! functions that the public contracts use.

use vstd::prelude::*;
use vstd::seq_lib::group_to_multiset_ensures;

use crate::classify::spec_assemble;
use crate::classify::spec_location_of;
use crate::classify::spec_locations;
use crate::classify::spec_push_constant_of;
use crate::classify::spec_push_constants;
use crate::classify::spec_uniform_of;
use crate::classify::spec_uniforms;
use crate::collect::collect_step;
use crate::collect::collect_upto;
use crate::collect::CollectV;
use crate::ops::spec_decode_op;
use crate::ops::spec_decode_ops;
use crate::ops::spec_decoration;
use crate::ops::OpV;
use crate::size::max_offset_upto;
use crate::size::spec_max_offset_index;
use crate::size::spec_struct_size;
use crate::size::spec_type_size;
use crate::spec_from_words;
use crate::view::MemberV;
use crate::view::ModuleV;
use crate::view::RawEntryPointV;
use crate::view::RawVariableV;
use crate::view::TypeV;
use crate::words::has_zero_byte;
use crate::words::lemma_str_word_count_none;
use crate::words::spec_decode_string;
use crate::words::word_count;
use crate::words::word_opcode;
use crate::Error;
use crate::StorageClass;

verus! {

proof fn lemma_decode_op_no_header_error(op: u32, s: Seq<u32>)
    ensures
        spec_decode_op(op, s) != Err::<OpV, Error>(Error::InvalidHeader),
{
    match spec_decode_string(s.skip(1)) {
        Ok(_) => {},
        Err(e) => {
            assert(e == Error::InvalidOp || e == Error::StringFormat);
        },
    }
    match spec_decode_string(s.skip(2)) {
        Ok(_) => {},
        Err(e) => {
            assert(e == Error::InvalidOp || e == Error::StringFormat);
        },
    }
    match spec_decoration(s.skip(1)) {
        Ok(_) => {},
        Err(e) => {
            assert(e == Error::InvalidOp);
        },
    }
    match spec_decoration(s.skip(2)) {
        Ok(_) => {},
        Err(e) => {
            assert(e == Error::InvalidOp);
        },
    }
}

proof fn lemma_decode_ops_no_header_error(words: Seq<u32>)
    ensures
        spec_decode_ops(words) != Err::<Seq<OpV>, Error>(Error::InvalidHeader),
    decreases words.len(),
{
    if words.len() > 0 {
        let w = words[0];
        let cnt = word_count(w) as int;
        if !(cnt == 0 || cnt > words.len()) {
            lemma_decode_op_no_header_error(word_opcode(w), words.subrange(1, cnt));
            lemma_decode_ops_no_header_error(words.skip(cnt));
        }
    }
}

proof fn lemma_collect_no_header_error(ops: Seq<OpV>, n: int)
    ensures
        collect_upto(ops, n) != Err::<CollectV, Error>(Error::InvalidHeader),
    decreases n,
{
    if n > 0 {
        lemma_collect_no_header_error(ops, n - 1);
    }
}

/// A buffer shorter than six words, or one whose first word is not the
/// magic number, is rejected as an invalid header — and nothing else is.
pub proof fn lemma_invalid_header(words: Seq<u32>)
    ensures
        spec_from_words(words) == Err::<ModuleV, Error>(Error::InvalidHeader) <==> (words.len() < 6
            || words[0] != 0x07230203u32),
{
    if !(words.len() < 6 || words[0] != 0x07230203u32) {
        lemma_decode_ops_no_header_error(words.skip(5));
        match spec_decode_ops(words.skip(5)) {
            Ok(opsv) => {
                lemma_collect_no_header_error(opsv, opsv.len() as int);
            },
            Err(_) => {},
        }
    }
}

/// An integer type resolves by its width and sign flag: 32-bit signed and
/// unsigned integers are kept apart, and every other width degrades to
/// the unknown type without an error.
pub proof fn lemma_int_type_resolution(st: CollectV, result: u32, width: u32, signed: u32)
    ensures
        collect_step(st, OpV::OpTypeInt { result, width, signed }) == Ok::<CollectV, Error>(
            CollectV {
                types: st.types.insert(
                    result,
                    if width != 32 {
                        TypeV::Unknown
                    } else if signed == 0 {
                        TypeV::UInt32
                    } else {
                        TypeV::Int32
                    },
                ),
                ..st
            },
        ),
{
}

/// A vector type whose component id was never declared is a hard parse
/// failure, not a soft unknown.
pub proof fn lemma_vector_component_undeclared(
    st: CollectV,
    result: u32,
    component_type: u32,
    component_count: u32,
)
    requires
        !st.types.contains_key(component_type),
    ensures
        collect_step(st, OpV::OpTypeVector { result, component_type, component_count }) == Err::<
            CollectV,
            Error,
        >(Error::InvalidId),
{
}

/// An array type's length operand must name a previously collected
/// unsigned 32-bit constant: a missing one is a hard failure, a present
/// one gives the array exactly that constant's value as its length.
pub proof fn lemma_array_length(st: CollectV, result: u32, element_type: u32, length: u32)
    ensures
        !st.constants.contains_key(length) ==> collect_step(
            st,
            OpV::OpTypeArray { result, element_type, length },
        ) == Err::<CollectV, Error>(Error::InvalidId),
        st.constants.contains_key(length) ==> collect_step(
            st,
            OpV::OpTypeArray { result, element_type, length },
        ) == Ok::<CollectV, Error>(
            CollectV {
                types: st.types.insert(
                    result,
                    TypeV::Array {
                        element_type_id: element_type,
                        length: Some(st.constants[length]),
                    },
                ),
                ..st
            },
        ),
{
}

proof fn lemma_max_offset_upto_props(elements: Seq<MemberV>, n: int)
    requires
        0 <= n <= elements.len(),
    ensures
        match max_offset_upto(elements, n) {
            Some(i) => {
                &&& 0 <= i < n
                &&& elements[i].offset is Some
                &&& forall|j: int|
                    0 <= j < n && (#[trigger] elements[j]).offset is Some
                        ==> elements[j].offset->Some_0 <= elements[i].offset->Some_0
            },
            None => forall|j: int| 0 <= j < n ==> (#[trigger] elements[j]).offset is None,
        },
    decreases n,
{
    if n > 0 {
        lemma_max_offset_upto_props(elements, n - 1);
    }
}

/// A struct's computed size is the offset of its maximum-offset member
/// plus that member's size; when no member has a known offset, the size
/// is unknown rather than guessed.
pub proof fn lemma_struct_size_formula(types: Map<u32, TypeV>, elements: Seq<MemberV>, fuel: nat)
    ensures
        match spec_max_offset_index(elements) {
            Some(i) => {
                &&& 0 <= i < elements.len()
                &&& elements[i].offset is Some
                &&& forall|j: int|
                    0 <= j < elements.len() && (#[trigger] elements[j]).offset is Some
                        ==> elements[j].offset->Some_0 <= elements[i].offset->Some_0
                &&& spec_struct_size(types, elements, fuel) == (match spec_type_size(
                    types,
                    elements[i].type_id,
                    Some(elements[i].stride),
                    fuel,
                ) {
                    None => None::<u32>,
                    Some(sz) => if elements[i].offset->Some_0 + sz <= u32::MAX {
                        Some((elements[i].offset->Some_0 + sz) as u32)
                    } else {
                        None::<u32>
                    },
                })
            },
            None => {
                &&& spec_struct_size(types, elements, fuel) is None
                &&& forall|j: int| 0 <= j < elements.len() ==> (#[trigger] elements[j]).offset is None
            },
        },
{
    lemma_max_offset_upto_props(elements, elements.len() as int);
}

/// True when no two members carry the same defined offset.
pub open spec fn distinct_defined_offsets(s: Seq<MemberV>) -> bool {
    forall|p: int, q: int|
        0 <= p < q < s.len() && (#[trigger] s[p]).offset is Some && (#[trigger] s[q]).offset
            is Some ==> s[p].offset != s[q].offset
}

/// Permuting a struct's member declaration order, with offsets held fixed
/// and pairwise distinct, does not change the computed size: the size is
/// determined by which members a struct has, not by their order.
pub proof fn lemma_struct_size_permutation(
    types: Map<u32, TypeV>,
    e1: Seq<MemberV>,
    e2: Seq<MemberV>,
    fuel: nat,
)
    requires
        e1.to_multiset() == e2.to_multiset(),
        distinct_defined_offsets(e1),
        distinct_defined_offsets(e2),
    ensures
        spec_struct_size(types, e1, fuel) == spec_struct_size(types, e2, fuel),
{
    broadcast use group_to_multiset_ensures;

    lemma_max_offset_upto_props(e1, e1.len() as int);
    lemma_max_offset_upto_props(e2, e2.len() as int);
    match (spec_max_offset_index(e1), spec_max_offset_index(e2)) {
        (None, None) => {},
        (Some(i1), None) => {
            assert(e1.contains(e1[i1]));
            assert(e1.to_multiset().count(e1[i1]) > 0);
            assert(e2.to_multiset().count(e1[i1]) > 0);
            assert(e2.contains(e1[i1]));
            let j = choose|j: int| 0 <= j < e2.len() && e2[j] == e1[i1];
            assert(e2[j].offset is Some);
            assert(false);
        },
        (None, Some(i2)) => {
            assert(e2.contains(e2[i2]));
            assert(e2.to_multiset().count(e2[i2]) > 0);
            assert(e1.to_multiset().count(e2[i2]) > 0);
            assert(e1.contains(e2[i2]));
            let j = choose|j: int| 0 <= j < e1.len() && e1[j] == e2[i2];
            assert(e1[j].offset is Some);
            assert(false);
        },
        (Some(i1), Some(i2)) => {
            assert(e1.contains(e1[i1]));
            assert(e1.to_multiset().count(e1[i1]) > 0);
            assert(e2.to_multiset().count(e1[i1]) > 0);
            assert(e2.contains(e1[i1]));
            let j2 = choose|j: int| 0 <= j < e2.len() && e2[j] == e1[i1];

            assert(e2.contains(e2[i2]));
            assert(e2.to_multiset().count(e2[i2]) > 0);
            assert(e1.to_multiset().count(e2[i2]) > 0);
            assert(e1.contains(e2[i2]));
            let j1 = choose|j: int| 0 <= j < e1.len() && e1[j] == e2[i2];

            assert(e2[j2].offset->Some_0 <= e2[i2].offset->Some_0);
            assert(e1[j1].offset->Some_0 <= e1[i1].offset->Some_0);
            assert(e1[i1].offset->Some_0 == e2[i2].offset->Some_0);
            if j2 != i2 {
                assert(e2[j2].offset is Some && e2[i2].offset is Some);
                assert(e2[j2].offset == e2[i2].offset);
                assert(false);
            }
            assert(e2[i2] == e1[i1]);
        },
    }
}

/// A uniform-class variable that lacks the descriptor set or the binding
/// decoration never reaches any entry point's uniform list: it classifies
/// into no category at all, so removing it from the variable table leaves
/// every assembled entry point unchanged, even where its id stands in an
/// interface list.
pub proof fn lemma_undecorated_uniform_excluded(
    types: Map<u32, TypeV>,
    vars: Map<u32, RawVariableV>,
    entries: Seq<RawEntryPointV>,
    v: u32,
)
    requires
        vars.contains_key(v),
        types.contains_key(vars[v].type_id),
        (types[vars[v].type_id] matches TypeV::Pointer {
            storage_class: StorageClass::Uniform | StorageClass::UniformConstant,
            ..
        }),
        vars[v].set is None || vars[v].binding is None,
    ensures
        !spec_uniforms(types, vars).contains_key(v),
        spec_assemble(types, vars.remove(v), entries) == spec_assemble(types, vars, entries),
{
    assert(spec_uniform_of(types, vars[v]) is None);
    assert(spec_push_constant_of(types, vars[v]) is None);
    assert(spec_location_of(types, vars[v], StorageClass::Input) is None);
    assert(spec_location_of(types, vars[v], StorageClass::Output) is None);
    assert(spec_uniforms(types, vars.remove(v)) =~= spec_uniforms(types, vars));
    assert(spec_push_constants(types, vars.remove(v)) =~= spec_push_constants(types, vars));
    assert(spec_locations(types, vars.remove(v), StorageClass::Input) =~= spec_locations(
        types,
        vars,
        StorageClass::Input,
    ));
    assert(spec_locations(types, vars.remove(v), StorageClass::Output) =~= spec_locations(
        types,
        vars,
        StorageClass::Output,
    ));
    assert(spec_assemble(types, vars.remove(v), entries) =~= spec_assemble(types, vars, entries));
}

/// A string operand whose words hold no zero byte has no terminator and
/// fails as a malformed instruction.
pub proof fn lemma_unterminated_string(s: Seq<u32>)
    requires
        forall|j: int| 0 <= j < s.len() ==> !has_zero_byte(#[trigger] s[j]),
    ensures
        spec_decode_string(s) == Err::<(Seq<char>, int), Error>(Error::InvalidOp),
{
    lemma_str_word_count_none(s);
}

} // verus!
