//! The recognized instructions of the binary stream and their decoders.
//!
//! Each instruction is framed by its first word (opcode and word count)
//! and carries a fixed shape of operands.  Opcodes outside the recognized
//! set decode to [`Op::Unknown`] and are skipped; malformed framing or
//! operands are errors.

use vstd::prelude::*;

use crate::words::spec_decode_string;
use crate::words::word_count;
use crate::words::word_opcode;
use crate::words::decode_string;
use crate::Error;

verus! {

/// A decoration operand: metadata attached to an id or a struct member.
#[derive(Debug, Clone, Copy, PartialEq, Eq, Structural)]
pub enum Decoration {
    /// A decoration kind outside the modeled set.
    Unknown,
    RowMajor,
    ColMajor,
    MatrixStride { stride: u32 },
    Location { loc: u32 },
    Binding { binding: u32 },
    DescriptorSet { set: u32 },
    Offset { offset: u32 },
}

/// An image dimensionality operand.
#[derive(Debug, Clone, Copy, PartialEq, Eq, Structural)]
pub enum Dim {
    /// A dimensionality code outside the modeled set.
    Unknown,
    D1,
    D2,
    D3,
    Cube,
    Rect,
    Buffer,
    SubpassData,
}

/// A wire-level storage class operand, before the collapse to the
/// reflection-level [`crate::StorageClass`].
#[derive(Debug, Clone, Copy, PartialEq, Eq, Structural)]
pub enum StorageClass {
    /// A storage class code outside the modeled set.
    Unknown,
    UniformConstant,
    Input,
    Uniform,
    Output,
    PushConstant,
}

/// A wire-level execution model operand.
#[derive(Debug, Clone, Copy, PartialEq, Eq, Structural)]
pub enum ExecutionModel {
    /// An execution model code outside the modeled set.
    Unknown,
    Vertex,
    Fragment,
}

/// The decoration encoded by the operand slice `s`: one discriminant word,
/// then the payload the known kinds carry.  An unrecognized discriminant
/// degrades to [`Decoration::Unknown`].
pub open spec fn spec_decoration(s: Seq<u32>) -> Result<Decoration, Error> {
    if s.len() == 0 {
        Err(Error::InvalidOp)
    } else if s[0] == 4 {
        Ok(Decoration::RowMajor)
    } else if s[0] == 5 {
        Ok(Decoration::ColMajor)
    } else if s[0] == 7 {
        if s.len() >= 2 {
            Ok(Decoration::MatrixStride { stride: s[1] })
        } else {
            Err(Error::InvalidOp)
        }
    } else if s[0] == 30 {
        if s.len() >= 2 {
            Ok(Decoration::Location { loc: s[1] })
        } else {
            Err(Error::InvalidOp)
        }
    } else if s[0] == 33 {
        if s.len() >= 2 {
            Ok(Decoration::Binding { binding: s[1] })
        } else {
            Err(Error::InvalidOp)
        }
    } else if s[0] == 34 {
        if s.len() >= 2 {
            Ok(Decoration::DescriptorSet { set: s[1] })
        } else {
            Err(Error::InvalidOp)
        }
    } else if s[0] == 35 {
        if s.len() >= 2 {
            Ok(Decoration::Offset { offset: s[1] })
        } else {
            Err(Error::InvalidOp)
        }
    } else {
        Ok(Decoration::Unknown)
    }
}

/// The dimensionality encoded by the discriminant word `w`.
pub open spec fn spec_dim(w: u32) -> Dim {
    if w == 0 {
        Dim::D1
    } else if w == 1 {
        Dim::D2
    } else if w == 2 {
        Dim::D3
    } else if w == 3 {
        Dim::Cube
    } else if w == 4 {
        Dim::Rect
    } else if w == 5 {
        Dim::Buffer
    } else if w == 6 {
        Dim::SubpassData
    } else {
        Dim::Unknown
    }
}

/// The wire-level storage class encoded by the discriminant word `w`.
pub open spec fn spec_storage_class(w: u32) -> StorageClass {
    if w == 0 {
        StorageClass::UniformConstant
    } else if w == 1 {
        StorageClass::Input
    } else if w == 2 {
        StorageClass::Uniform
    } else if w == 3 {
        StorageClass::Output
    } else if w == 9 {
        StorageClass::PushConstant
    } else {
        StorageClass::Unknown
    }
}

/// The wire-level execution model encoded by the discriminant word `w`.
pub open spec fn spec_execution_model(w: u32) -> ExecutionModel {
    if w == 0 {
        ExecutionModel::Vertex
    } else if w == 4 {
        ExecutionModel::Fragment
    } else {
        ExecutionModel::Unknown
    }
}

fn decode_dim(w: u32) -> (r: Dim)
    ensures
        r == spec_dim(w),
{
    if w == 0 {
        Dim::D1
    } else if w == 1 {
        Dim::D2
    } else if w == 2 {
        Dim::D3
    } else if w == 3 {
        Dim::Cube
    } else if w == 4 {
        Dim::Rect
    } else if w == 5 {
        Dim::Buffer
    } else if w == 6 {
        Dim::SubpassData
    } else {
        Dim::Unknown
    }
}

fn decode_storage_class(w: u32) -> (r: StorageClass)
    ensures
        r == spec_storage_class(w),
{
    if w == 0 {
        StorageClass::UniformConstant
    } else if w == 1 {
        StorageClass::Input
    } else if w == 2 {
        StorageClass::Uniform
    } else if w == 3 {
        StorageClass::Output
    } else if w == 9 {
        StorageClass::PushConstant
    } else {
        StorageClass::Unknown
    }
}

fn decode_execution_model(w: u32) -> (r: ExecutionModel)
    ensures
        r == spec_execution_model(w),
{
    if w == 0 {
        ExecutionModel::Vertex
    } else if w == 4 {
        ExecutionModel::Fragment
    } else {
        ExecutionModel::Unknown
    }
}

fn decode_decoration(words: &[u32], lo: usize, hi: usize) -> (r: Result<Decoration, Error>)
    requires
        lo <= hi <= words@.len(),
    ensures
        match r {
            Ok(d) => spec_decoration(words@.subrange(lo as int, hi as int)) == Ok::<_, Error>(d),
            Err(e) => spec_decoration(words@.subrange(lo as int, hi as int)) == Err::<
                Decoration,
                _,
            >(e),
        },
{
    if lo == hi {
        return Err(Error::InvalidOp);
    }
    let code = words[lo];
    if code == 4 {
        Ok(Decoration::RowMajor)
    } else if code == 5 {
        Ok(Decoration::ColMajor)
    } else if code == 7 || code == 30 || code == 33 || code == 34 || code == 35 {
        if hi - lo < 2 {
            return Err(Error::InvalidOp);
        }
        let payload = words[lo + 1];
        if code == 7 {
            Ok(Decoration::MatrixStride { stride: payload })
        } else if code == 30 {
            Ok(Decoration::Location { loc: payload })
        } else if code == 33 {
            Ok(Decoration::Binding { binding: payload })
        } else if code == 34 {
            Ok(Decoration::DescriptorSet { set: payload })
        } else {
            Ok(Decoration::Offset { offset: payload })
        }
    } else {
        Ok(Decoration::Unknown)
    }
}

/// A decoded instruction, one variant per recognized opcode.
#[derive(Debug)]
pub enum Op {
    /// A recognized-but-unmodeled opcode; skipped, but its framing was
    /// still validated.
    Unknown,
    OpName { target: u32, name: String },
    OpMemberName { target: u32, member_index: u32, name: String },
    OpEntryPoint { execution_model: ExecutionModel, func: u32, name: String, interface: Vec<u32> },
    OpDecorate { target: u32, decoration: Decoration },
    OpMemberDecorate { target: u32, member_index: u32, decoration: Decoration },
    OpTypeVoid { result: u32 },
    OpTypeBool { result: u32 },
    OpTypeInt { result: u32, width: u32, signed: u32 },
    OpTypeFloat { result: u32, width: u32 },
    OpTypeVector { result: u32, component_type: u32, component_count: u32 },
    OpTypeMatrix { result: u32, column_type: u32, column_count: u32 },
    OpTypeImage {
        result: u32,
        sampled_type: u32,
        dim: Dim,
        depth: u32,
        arrayed: u32,
        ms: u32,
        sampled: u32,
        format: u32,
        access: Option<u32>,
    },
    OpTypeSampler { result: u32 },
    OpTypeSampledImage { result: u32, image_type: u32 },
    OpTypeArray { result: u32, element_type: u32, length: u32 },
    OpTypeRuntimeArray { result: u32, element_type: u32 },
    OpTypeStruct { result: u32, element_types: Vec<u32> },
    OpTypePointer { result: u32, storage_class: StorageClass, pointed_type: u32 },
    OpConstant { result_type: u32, result: u32, value: Vec<u32> },
    OpVariable { result_type: u32, result: u32, storage_class: StorageClass, initializer: Option<u32> },
}

/// View of an [`Op`]: strings as character sequences, lists as sequences.
pub enum OpV {
    Unknown,
    OpName { target: u32, name: Seq<char> },
    OpMemberName { target: u32, member_index: u32, name: Seq<char> },
    OpEntryPoint {
        execution_model: ExecutionModel,
        func: u32,
        name: Seq<char>,
        interface: Seq<u32>,
    },
    OpDecorate { target: u32, decoration: Decoration },
    OpMemberDecorate { target: u32, member_index: u32, decoration: Decoration },
    OpTypeVoid { result: u32 },
    OpTypeBool { result: u32 },
    OpTypeInt { result: u32, width: u32, signed: u32 },
    OpTypeFloat { result: u32, width: u32 },
    OpTypeVector { result: u32, component_type: u32, component_count: u32 },
    OpTypeMatrix { result: u32, column_type: u32, column_count: u32 },
    OpTypeImage {
        result: u32,
        sampled_type: u32,
        dim: Dim,
        depth: u32,
        arrayed: u32,
        ms: u32,
        sampled: u32,
        format: u32,
        access: Option<u32>,
    },
    OpTypeSampler { result: u32 },
    OpTypeSampledImage { result: u32, image_type: u32 },
    OpTypeArray { result: u32, element_type: u32, length: u32 },
    OpTypeRuntimeArray { result: u32, element_type: u32 },
    OpTypeStruct { result: u32, element_types: Seq<u32> },
    OpTypePointer { result: u32, storage_class: StorageClass, pointed_type: u32 },
    OpConstant { result_type: u32, result: u32, value: Seq<u32> },
    OpVariable {
        result_type: u32,
        result: u32,
        storage_class: StorageClass,
        initializer: Option<u32>,
    },
}

impl View for Op {
    type V = OpV;

    open spec fn view(&self) -> OpV {
        match *self {
            Op::Unknown => OpV::Unknown,
            Op::OpName { target, name } => OpV::OpName { target, name: name@ },
            Op::OpMemberName { target, member_index, name } => OpV::OpMemberName {
                target,
                member_index,
                name: name@,
            },
            Op::OpEntryPoint { execution_model, func, name, interface } => OpV::OpEntryPoint {
                execution_model,
                func,
                name: name@,
                interface: interface@,
            },
            Op::OpDecorate { target, decoration } => OpV::OpDecorate { target, decoration },
            Op::OpMemberDecorate { target, member_index, decoration } => OpV::OpMemberDecorate {
                target,
                member_index,
                decoration,
            },
            Op::OpTypeVoid { result } => OpV::OpTypeVoid { result },
            Op::OpTypeBool { result } => OpV::OpTypeBool { result },
            Op::OpTypeInt { result, width, signed } => OpV::OpTypeInt { result, width, signed },
            Op::OpTypeFloat { result, width } => OpV::OpTypeFloat { result, width },
            Op::OpTypeVector { result, component_type, component_count } => OpV::OpTypeVector {
                result,
                component_type,
                component_count,
            },
            Op::OpTypeMatrix { result, column_type, column_count } => OpV::OpTypeMatrix {
                result,
                column_type,
                column_count,
            },
            Op::OpTypeImage { result, sampled_type, dim, depth, arrayed, ms, sampled, format, access } => OpV::OpTypeImage {
                result,
                sampled_type,
                dim,
                depth,
                arrayed,
                ms,
                sampled,
                format,
                access,
            },
            Op::OpTypeSampler { result } => OpV::OpTypeSampler { result },
            Op::OpTypeSampledImage { result, image_type } => OpV::OpTypeSampledImage {
                result,
                image_type,
            },
            Op::OpTypeArray { result, element_type, length } => OpV::OpTypeArray {
                result,
                element_type,
                length,
            },
            Op::OpTypeRuntimeArray { result, element_type } => OpV::OpTypeRuntimeArray {
                result,
                element_type,
            },
            Op::OpTypeStruct { result, element_types } => OpV::OpTypeStruct {
                result,
                element_types: element_types@,
            },
            Op::OpTypePointer { result, storage_class, pointed_type } => OpV::OpTypePointer {
                result,
                storage_class,
                pointed_type,
            },
            Op::OpConstant { result_type, result, value } => OpV::OpConstant {
                result_type,
                result,
                value: value@,
            },
            Op::OpVariable { result_type, result, storage_class, initializer } => OpV::OpVariable {
                result_type,
                result,
                storage_class,
                initializer,
            },
        }
    }
}

impl DeepView for Op {
    type V = OpV;

    open spec fn deep_view(&self) -> OpV {
        self.view()
    }
}

/// The instruction encoded by opcode `op` with operand slice `s`, per the
/// fixed operand shape of each recognized opcode.  Operand words beyond an
/// opcode's shape are ignored; a missing operand is a framing error.
pub open spec fn spec_decode_op(op: u32, s: Seq<u32>) -> Result<OpV, Error> {
    if op == 5 {
        if s.len() < 1 {
            Err(Error::InvalidOp)
        } else {
            match spec_decode_string(s.skip(1)) {
                Err(e) => Err(e),
                Ok(p) => Ok(OpV::OpName { target: s[0], name: p.0 }),
            }
        }
    } else if op == 6 {
        if s.len() < 2 {
            Err(Error::InvalidOp)
        } else {
            match spec_decode_string(s.skip(2)) {
                Err(e) => Err(e),
                Ok(p) => Ok(OpV::OpMemberName { target: s[0], member_index: s[1], name: p.0 }),
            }
        }
    } else if op == 15 {
        if s.len() < 2 {
            Err(Error::InvalidOp)
        } else {
            match spec_decode_string(s.skip(2)) {
                Err(e) => Err(e),
                Ok(p) => Ok(OpV::OpEntryPoint {
                    execution_model: spec_execution_model(s[0]),
                    func: s[1],
                    name: p.0,
                    interface: s.skip(2 + p.1),
                }),
            }
        }
    } else if op == 71 {
        if s.len() < 1 {
            Err(Error::InvalidOp)
        } else {
            match spec_decoration(s.skip(1)) {
                Err(e) => Err(e),
                Ok(d) => Ok(OpV::OpDecorate { target: s[0], decoration: d }),
            }
        }
    } else if op == 72 {
        if s.len() < 2 {
            Err(Error::InvalidOp)
        } else {
            match spec_decoration(s.skip(2)) {
                Err(e) => Err(e),
                Ok(d) => Ok(OpV::OpMemberDecorate {
                    target: s[0],
                    member_index: s[1],
                    decoration: d,
                }),
            }
        }
    } else if op == 19 {
        if s.len() < 1 {
            Err(Error::InvalidOp)
        } else {
            Ok(OpV::OpTypeVoid { result: s[0] })
        }
    } else if op == 20 {
        if s.len() < 1 {
            Err(Error::InvalidOp)
        } else {
            Ok(OpV::OpTypeBool { result: s[0] })
        }
    } else if op == 21 {
        if s.len() < 3 {
            Err(Error::InvalidOp)
        } else {
            Ok(OpV::OpTypeInt { result: s[0], width: s[1], signed: s[2] })
        }
    } else if op == 22 {
        if s.len() < 2 {
            Err(Error::InvalidOp)
        } else {
            Ok(OpV::OpTypeFloat { result: s[0], width: s[1] })
        }
    } else if op == 23 {
        if s.len() < 3 {
            Err(Error::InvalidOp)
        } else {
            Ok(OpV::OpTypeVector { result: s[0], component_type: s[1], component_count: s[2] })
        }
    } else if op == 24 {
        if s.len() < 3 {
            Err(Error::InvalidOp)
        } else {
            Ok(OpV::OpTypeMatrix { result: s[0], column_type: s[1], column_count: s[2] })
        }
    } else if op == 25 {
        if s.len() < 8 {
            Err(Error::InvalidOp)
        } else {
            Ok(OpV::OpTypeImage {
                result: s[0],
                sampled_type: s[1],
                dim: spec_dim(s[2]),
                depth: s[3],
                arrayed: s[4],
                ms: s[5],
                sampled: s[6],
                format: s[7],
                access: if s.len() >= 9 {
                    Some(s[8])
                } else {
                    None
                },
            })
        }
    } else if op == 26 {
        if s.len() < 1 {
            Err(Error::InvalidOp)
        } else {
            Ok(OpV::OpTypeSampler { result: s[0] })
        }
    } else if op == 27 {
        if s.len() < 2 {
            Err(Error::InvalidOp)
        } else {
            Ok(OpV::OpTypeSampledImage { result: s[0], image_type: s[1] })
        }
    } else if op == 28 {
        if s.len() < 3 {
            Err(Error::InvalidOp)
        } else {
            Ok(OpV::OpTypeArray { result: s[0], element_type: s[1], length: s[2] })
        }
    } else if op == 29 {
        if s.len() < 2 {
            Err(Error::InvalidOp)
        } else {
            Ok(OpV::OpTypeRuntimeArray { result: s[0], element_type: s[1] })
        }
    } else if op == 30 {
        if s.len() < 1 {
            Err(Error::InvalidOp)
        } else {
            Ok(OpV::OpTypeStruct { result: s[0], element_types: s.skip(1) })
        }
    } else if op == 32 {
        if s.len() < 3 {
            Err(Error::InvalidOp)
        } else {
            Ok(OpV::OpTypePointer {
                result: s[0],
                storage_class: spec_storage_class(s[1]),
                pointed_type: s[2],
            })
        }
    } else if op == 43 {
        if s.len() < 2 {
            Err(Error::InvalidOp)
        } else {
            Ok(OpV::OpConstant { result_type: s[0], result: s[1], value: s.skip(2) })
        }
    } else if op == 59 {
        if s.len() < 3 {
            Err(Error::InvalidOp)
        } else {
            Ok(OpV::OpVariable {
                result_type: s[0],
                result: s[1],
                storage_class: spec_storage_class(s[2]),
                initializer: if s.len() >= 4 {
                    Some(s[3])
                } else {
                    None
                },
            })
        }
    } else {
        Ok(OpV::Unknown)
    }
}

proof fn lemma_word_fields(w: u32)
    by (bit_vector)
    ensures
        w & 0xFFFF < 0x10000,
        (w >> 16) & 0xFFFF < 0x10000,
{
}

/// Copies the words `words[lo..hi]` into a fresh vector.
fn collect_words(words: &[u32], lo: usize, hi: usize) -> (r: Vec<u32>)
    requires
        lo <= hi <= words@.len(),
    ensures
        r@ == words@.subrange(lo as int, hi as int),
{
    let mut out: Vec<u32> = Vec::new();
    let mut j: usize = lo;
    while j < hi
        invariant
            lo <= j <= hi <= words@.len(),
            out@ == words@.subrange(lo as int, j as int),
        decreases hi - j,
    {
        out.push(words[j]);
        proof {
            assert(words@.subrange(lo as int, j + 1) =~= words@.subrange(lo as int, j as int).push(
                words@[j as int],
            ));
        }
        j = j + 1;
    }
    out
}

/// Decodes the single instruction that starts at word `i`: validates its
/// framing, decodes the operands of its opcode, and returns the
/// instruction together with its word count.
#[verifier::rlimit(100)]
#[verifier::spinoff_prover]
pub fn decode_instruction(words: &[u32], i: usize) -> (r: Result<(Op, usize), Error>)
    requires
        i < words@.len(),
    ensures
        ({
            let w = words@[i as int];
            let cnt = word_count(w) as int;
            match r {
                Ok(p) => {
                    &&& 1 <= cnt
                    &&& i + cnt <= words@.len()
                    &&& p.1 == cnt
                    &&& spec_decode_op(word_opcode(w), words@.subrange(i + 1, i + cnt))
                        == Ok::<OpV, Error>(p.0@)
                },
                Err(e) => {
                    ||| ((cnt == 0 || i + cnt > words@.len()) && e == Error::InvalidOp)
                    ||| (1 <= cnt && i + cnt <= words@.len() && spec_decode_op(
                        word_opcode(w),
                        words@.subrange(i + 1, i + cnt),
                    ) == Err::<OpV, Error>(e))
                },
            }
        }),
{
    let w = words[i];
    proof {
        lemma_word_fields(w);
    }
    let opcode = w & 0xFFFF;
    let length = ((w >> 16) & 0xFFFF) as usize;
    if length == 0 || length > words.len() - i {
        return Err(Error::InvalidOp);
    }
    let ghost s = words@.subrange(i + 1, i + length);
    assert(s.len() == length - 1);

    if opcode == 5 {
        if length < 2 {
            return Err(Error::InvalidOp);
        }
        let target = words[i + 1];
        assert(s.skip(1) =~= words@.subrange(i + 2, i + length));
        match decode_string(words, i + 2, i + length) {
            Ok(p) => Ok((Op::OpName { target, name: p.0 }, length)),
            Err(e) => Err(e),
        }
    } else if opcode == 6 {
        if length < 3 {
            return Err(Error::InvalidOp);
        }
        let target = words[i + 1];
        let member_index = words[i + 2];
        assert(s.skip(2) =~= words@.subrange(i + 3, i + length));
        match decode_string(words, i + 3, i + length) {
            Ok(p) => Ok((Op::OpMemberName { target, member_index, name: p.0 }, length)),
            Err(e) => Err(e),
        }
    } else if opcode == 15 {
        if length < 3 {
            return Err(Error::InvalidOp);
        }
        let execution_model = decode_execution_model(words[i + 1]);
        let func = words[i + 2];
        assert(s.skip(2) =~= words@.subrange(i + 3, i + length));
        match decode_string(words, i + 3, i + length) {
            Ok(p) => {
                let name = p.0;
                let consumed = p.1;
                let interface = collect_words(words, i + 3 + consumed, i + length);
                assert(s.skip(2 + consumed) =~= words@.subrange(i + 3 + consumed, i + length));
                Ok((Op::OpEntryPoint { execution_model, func, name, interface }, length))
            },
            Err(e) => Err(e),
        }
    } else if opcode == 71 {
        if length < 2 {
            return Err(Error::InvalidOp);
        }
        let target = words[i + 1];
        assert(s.skip(1) =~= words@.subrange(i + 2, i + length));
        match decode_decoration(words, i + 2, i + length) {
            Ok(decoration) => Ok((Op::OpDecorate { target, decoration }, length)),
            Err(e) => Err(e),
        }
    } else if opcode == 72 {
        if length < 3 {
            return Err(Error::InvalidOp);
        }
        let target = words[i + 1];
        let member_index = words[i + 2];
        assert(s.skip(2) =~= words@.subrange(i + 3, i + length));
        match decode_decoration(words, i + 3, i + length) {
            Ok(decoration) => Ok((Op::OpMemberDecorate { target, member_index, decoration }, length)),
            Err(e) => Err(e),
        }
    } else if opcode == 19 {
        if length < 2 {
            return Err(Error::InvalidOp);
        }
        Ok((Op::OpTypeVoid { result: words[i + 1] }, length))
    } else if opcode == 20 {
        if length < 2 {
            return Err(Error::InvalidOp);
        }
        Ok((Op::OpTypeBool { result: words[i + 1] }, length))
    } else if opcode == 21 {
        if length < 4 {
            return Err(Error::InvalidOp);
        }
        Ok((Op::OpTypeInt { result: words[i + 1], width: words[i + 2], signed: words[i + 3] }, length))
    } else if opcode == 22 {
        if length < 3 {
            return Err(Error::InvalidOp);
        }
        Ok((Op::OpTypeFloat { result: words[i + 1], width: words[i + 2] }, length))
    } else if opcode == 23 {
        if length < 4 {
            return Err(Error::InvalidOp);
        }
        Ok((
            Op::OpTypeVector {
                result: words[i + 1],
                component_type: words[i + 2],
                component_count: words[i + 3],
            },
            length,
        ))
    } else if opcode == 24 {
        if length < 4 {
            return Err(Error::InvalidOp);
        }
        Ok((
            Op::OpTypeMatrix {
                result: words[i + 1],
                column_type: words[i + 2],
                column_count: words[i + 3],
            },
            length,
        ))
    } else if opcode == 25 {
        if length < 9 {
            return Err(Error::InvalidOp);
        }
        let access = if length >= 10 {
            Some(words[i + 9])
        } else {
            None
        };
        Ok((
            Op::OpTypeImage {
                result: words[i + 1],
                sampled_type: words[i + 2],
                dim: decode_dim(words[i + 3]),
                depth: words[i + 4],
                arrayed: words[i + 5],
                ms: words[i + 6],
                sampled: words[i + 7],
                format: words[i + 8],
                access,
            },
            length,
        ))
    } else if opcode == 26 {
        if length < 2 {
            return Err(Error::InvalidOp);
        }
        Ok((Op::OpTypeSampler { result: words[i + 1] }, length))
    } else if opcode == 27 {
        if length < 3 {
            return Err(Error::InvalidOp);
        }
        Ok((Op::OpTypeSampledImage { result: words[i + 1], image_type: words[i + 2] }, length))
    } else if opcode == 28 {
        if length < 4 {
            return Err(Error::InvalidOp);
        }
        Ok((
            Op::OpTypeArray {
                result: words[i + 1],
                element_type: words[i + 2],
                length: words[i + 3],
            },
            length,
        ))
    } else if opcode == 29 {
        if length < 3 {
            return Err(Error::InvalidOp);
        }
        Ok((Op::OpTypeRuntimeArray { result: words[i + 1], element_type: words[i + 2] }, length))
    } else if opcode == 30 {
        if length < 2 {
            return Err(Error::InvalidOp);
        }
        let element_types = collect_words(words, i + 2, i + length);
        assert(s.skip(1) =~= words@.subrange(i + 2, i + length));
        Ok((Op::OpTypeStruct { result: words[i + 1], element_types }, length))
    } else if opcode == 32 {
        if length < 4 {
            return Err(Error::InvalidOp);
        }
        Ok((
            Op::OpTypePointer {
                result: words[i + 1],
                storage_class: decode_storage_class(words[i + 2]),
                pointed_type: words[i + 3],
            },
            length,
        ))
    } else if opcode == 43 {
        if length < 3 {
            return Err(Error::InvalidOp);
        }
        let value = collect_words(words, i + 3, i + length);
        assert(s.skip(2) =~= words@.subrange(i + 3, i + length));
        Ok((Op::OpConstant { result_type: words[i + 1], result: words[i + 2], value }, length))
    } else if opcode == 59 {
        if length < 4 {
            return Err(Error::InvalidOp);
        }
        let initializer = if length >= 5 {
            Some(words[i + 4])
        } else {
            None
        };
        Ok((
            Op::OpVariable {
                result_type: words[i + 1],
                result: words[i + 2],
                storage_class: decode_storage_class(words[i + 3]),
                initializer,
            },
            length,
        ))
    } else {
        Ok((Op::Unknown, length))
    }
}

/// What decoding the whole word slice yields: the instructions in stream
/// order, or the first error.  Decoding continues until the slice is
/// empty; a word count of zero or one that overruns the slice is a
/// framing error.
pub open spec fn spec_decode_ops(words: Seq<u32>) -> Result<Seq<OpV>, Error>
    decreases words.len(),
{
    if words.len() == 0 {
        Ok(Seq::empty())
    } else {
        let w = words[0];
        let cnt = word_count(w) as int;
        if cnt == 0 || cnt > words.len() {
            Err(Error::InvalidOp)
        } else {
            match spec_decode_op(word_opcode(w), words.subrange(1, cnt)) {
                Err(e) => Err(e),
                Ok(op) => match spec_decode_ops(words.skip(cnt)) {
                    Err(e) => Err(e),
                    Ok(rest) => Ok(seq![op] + rest),
                },
            }
        }
    }
}

/// A decoded prefix joined with the outcome of decoding the remainder.
pub open spec fn decode_concat(prefix: Seq<OpV>, rem: Result<Seq<OpV>, Error>) -> Result<
    Seq<OpV>,
    Error,
> {
    match rem {
        Ok(t) => Ok(prefix + t),
        Err(e) => Err(e),
    }
}

proof fn lemma_skip_frame(words: Seq<u32>, i: int, cnt: int)
    requires
        0 <= i < words.len(),
        1 <= cnt,
        i + cnt <= words.len(),
    ensures
        words.skip(i).len() == words.len() - i,
        words.skip(i)[0] == words[i],
        words.skip(i).subrange(1, cnt) == words.subrange(i + 1, i + cnt),
        words.skip(i).skip(cnt) == words.skip(i + cnt),
{
    assert(words.skip(i).subrange(1, cnt) =~= words.subrange(i + 1, i + cnt));
    assert(words.skip(i).skip(cnt) =~= words.skip(i + cnt));
}

/// Decodes every instruction of `words[start..]`, in stream order.
pub fn decode_ops(words: &[u32], start: usize) -> (r: Result<Vec<Op>, Error>)
    requires
        start <= words@.len(),
    ensures
        match r {
            Ok(ops) => spec_decode_ops(words@.skip(start as int)) == Ok::<Seq<OpV>, Error>(
                ops.deep_view(),
            ),
            Err(e) => spec_decode_ops(words@.skip(start as int)) == Err::<Seq<OpV>, Error>(e),
        },
{
    let n: usize = words.len();
    let mut ops: Vec<Op> = Vec::new();
    let mut i: usize = start;
    proof {
        assert(ops.deep_view() =~= Seq::<OpV>::empty());
        match spec_decode_ops(words@.skip(start as int)) {
            Ok(t) => {
                assert(Seq::<OpV>::empty() + t =~= t);
            },
            Err(_) => {},
        }
    }
    while i < n
        invariant
            start <= i <= n,
            n == words@.len(),
            decode_concat(ops.deep_view(), spec_decode_ops(words@.skip(i as int)))
                == spec_decode_ops(words@.skip(start as int)),
        decreases n - i,
    {
        let ghost sk = words@.skip(i as int);
        proof {
            assert(sk.len() == n - i);
            assert(sk[0] == words@[i as int]);
        }
        match decode_instruction(words, i) {
            Err(e) => {
                proof {
                    let w = words@[i as int];
                    let cnt = word_count(w) as int;
                    if cnt == 0 || i + cnt > words@.len() {
                        assert(spec_decode_ops(sk) == Err::<Seq<OpV>, Error>(Error::InvalidOp));
                    } else {
                        lemma_skip_frame(words@, i as int, cnt);
                        assert(spec_decode_ops(sk) == Err::<Seq<OpV>, Error>(e));
                    }
                }
                return Err(e);
            },
            Ok(p) => {
                let op = p.0;
                let cnt = p.1;
                proof {
                    lemma_skip_frame(words@, i as int, cnt as int);
                }
                let ghost old_prefix = ops.deep_view();
                ops.push(op);
                proof {
                    assert(ops.deep_view() =~= old_prefix.push(op@));
                    assert(old_prefix.push(op@) =~= old_prefix + seq![op@]);
                    match spec_decode_ops(words@.skip(i + cnt)) {
                        Err(e2) => {
                            assert(spec_decode_ops(sk) == Err::<Seq<OpV>, Error>(e2));
                        },
                        Ok(rest) => {
                            assert(spec_decode_ops(sk) == Ok::<Seq<OpV>, Error>(seq![op@] + rest));
                            assert((old_prefix + seq![op@]) + rest =~= old_prefix + (seq![op@]
                                + rest));
                        },
                    }
                }
                i = i + cnt;
            },
        }
    }
    proof {
        assert(words@.skip(i as int) =~= Seq::<u32>::empty());
        assert(spec_decode_ops(Seq::<u32>::empty()) == Ok::<Seq<OpV>, Error>(Seq::empty()));
        assert(ops.deep_view() + Seq::<OpV>::empty() =~= ops.deep_view());
    }
    Ok(ops)
}

} // verus!
