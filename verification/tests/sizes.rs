use spirv_layout::Module;
use spirv_layout::PushConstantVariable;
use spirv_layout::StructMember;
use spirv_layout::UniformVariable;

const MAGIC: u32 = 0x07230203;

const OP_TYPE_BOOL: u32 = 20;
const OP_TYPE_INT: u32 = 21;
const OP_TYPE_FLOAT: u32 = 22;
const OP_TYPE_VECTOR: u32 = 23;
const OP_TYPE_MATRIX: u32 = 24;
const OP_TYPE_RUNTIME_ARRAY: u32 = 29;
const OP_TYPE_STRUCT: u32 = 30;
const OP_MEMBER_DECORATE: u32 = 72;

const DECORATION_MATRIX_STRIDE: u32 = 7;
const DECORATION_OFFSET: u32 = 35;

fn instr(opcode: u32, operands: &[u32]) -> Vec<u32> {
    let mut v = vec![((operands.len() as u32 + 1) << 16) | opcode];
    v.extend_from_slice(operands);
    v
}

fn module_words(body: &[Vec<u32>]) -> Vec<u32> {
    let mut v = vec![MAGIC, 0x00010000, 0, 1, 0];
    for part in body {
        v.extend_from_slice(part);
    }
    v
}

fn var_of(type_id: u32) -> UniformVariable {
    UniformVariable { set: 0, binding: 0, type_id, name: None }
}

fn member_of(type_id: u32, stride: u32) -> StructMember {
    StructMember { name: None, type_id, offset: None, row_major: true, stride }
}

fn scalar_types() -> Vec<Vec<u32>> {
    vec![
        instr(OP_TYPE_INT, &[1, 32, 1]),
        instr(OP_TYPE_INT, &[2, 32, 0]),
        instr(OP_TYPE_FLOAT, &[3, 32]),
        instr(OP_TYPE_VECTOR, &[4, 3, 2]),
        instr(OP_TYPE_VECTOR, &[5, 3, 3]),
        instr(OP_TYPE_VECTOR, &[6, 3, 4]),
        instr(OP_TYPE_MATRIX, &[7, 5, 3]),
        instr(OP_TYPE_MATRIX, &[8, 6, 4]),
        instr(OP_TYPE_BOOL, &[9]),
    ]
}

#[test]
fn scalar_and_vector_sizes() {
    let module = Module::from_words(&module_words(&scalar_types())).unwrap();
    assert_eq!(module.get_var_size(&var_of(1)), Some(4));
    assert_eq!(module.get_var_size(&var_of(2)), Some(4));
    assert_eq!(module.get_var_size(&var_of(3)), Some(4));
    assert_eq!(module.get_var_size(&var_of(4)), Some(8));
    assert_eq!(module.get_var_size(&var_of(5)), Some(12));
    assert_eq!(module.get_var_size(&var_of(6)), Some(16));
}

#[test]
fn unsized_shapes_have_no_size() {
    let mut body = scalar_types();
    body.push(instr(OP_TYPE_RUNTIME_ARRAY, &[10, 3]));
    let module = Module::from_words(&module_words(&body)).unwrap();
    assert_eq!(module.get_var_size(&var_of(9)), None);
    assert_eq!(module.get_var_size(&var_of(10)), None);
    assert_eq!(module.get_var_size(&var_of(999)), None);
}

#[test]
fn matrix_sizes_use_the_stride_hint() {
    let module = Module::from_words(&module_words(&scalar_types())).unwrap();
    // A matrix variable without a stride hint has no known size.
    assert_eq!(module.get_var_size(&var_of(7)), None);
    assert_eq!(module.get_var_size(&var_of(8)), None);
    // Two rows/columns plus one Vec3, three rows/columns plus one Vec4.
    assert_eq!(module.get_member_size(&member_of(7, 16)), Some(2 * 16 + 12));
    assert_eq!(module.get_member_size(&member_of(8, 16)), Some(3 * 16 + 16));
    assert_eq!(module.get_member_size(&member_of(7, 12)), Some(2 * 12 + 12));
}

#[test]
fn matrix_stride_overflow_has_no_size() {
    let module = Module::from_words(&module_words(&scalar_types())).unwrap();
    assert_eq!(module.get_member_size(&member_of(8, u32::MAX)), None);
}

#[test]
fn struct_size_is_max_offset_plus_member_size() {
    let mut body = scalar_types();
    // struct { vec4 at 16; float at 0; vec2 at 48 }
    body.push(instr(OP_TYPE_STRUCT, &[20, 6, 3, 4]));
    body.push(instr(OP_MEMBER_DECORATE, &[20, 0, DECORATION_OFFSET, 16]));
    body.push(instr(OP_MEMBER_DECORATE, &[20, 1, DECORATION_OFFSET, 0]));
    body.push(instr(OP_MEMBER_DECORATE, &[20, 2, DECORATION_OFFSET, 48]));
    let module = Module::from_words(&module_words(&body)).unwrap();
    assert_eq!(module.get_var_size(&var_of(20)), Some(48 + 8));
}

#[test]
fn struct_size_ignores_declaration_order() {
    // The same members as above, declared in a different order, with the
    // same offsets: the computed size does not change.
    let mut body = scalar_types();
    body.push(instr(OP_TYPE_STRUCT, &[20, 4, 6, 3]));
    body.push(instr(OP_MEMBER_DECORATE, &[20, 0, DECORATION_OFFSET, 48]));
    body.push(instr(OP_MEMBER_DECORATE, &[20, 1, DECORATION_OFFSET, 16]));
    body.push(instr(OP_MEMBER_DECORATE, &[20, 2, DECORATION_OFFSET, 0]));
    let module = Module::from_words(&module_words(&body)).unwrap();
    assert_eq!(module.get_var_size(&var_of(20)), Some(48 + 8));
}

#[test]
fn struct_with_no_offsets_has_no_size() {
    let mut body = scalar_types();
    body.push(instr(OP_TYPE_STRUCT, &[20, 3, 4]));
    let module = Module::from_words(&module_words(&body)).unwrap();
    assert_eq!(module.get_var_size(&var_of(20)), None);
}

#[test]
fn struct_with_unsized_max_member_has_no_size() {
    // The maximum-offset member is a bool, whose size is unknown.
    let mut body = scalar_types();
    body.push(instr(OP_TYPE_STRUCT, &[20, 3, 9]));
    body.push(instr(OP_MEMBER_DECORATE, &[20, 0, DECORATION_OFFSET, 0]));
    body.push(instr(OP_MEMBER_DECORATE, &[20, 1, DECORATION_OFFSET, 8]));
    let module = Module::from_words(&module_words(&body)).unwrap();
    assert_eq!(module.get_var_size(&var_of(20)), None);
}

#[test]
fn struct_matrix_member_uses_decorated_stride() {
    // struct { mat4 at 0 with stride 32 }
    let mut body = scalar_types();
    body.push(instr(OP_TYPE_STRUCT, &[20, 8]));
    body.push(instr(OP_MEMBER_DECORATE, &[20, 0, DECORATION_OFFSET, 0]));
    body.push(instr(OP_MEMBER_DECORATE, &[20, 0, DECORATION_MATRIX_STRIDE, 32]));
    let module = Module::from_words(&module_words(&body)).unwrap();
    assert_eq!(module.get_var_size(&var_of(20)), Some(3 * 32 + 16));
}

#[test]
fn nested_struct_sizes_recurse() {
    // inner struct { vec4 at 0 }; outer struct { float at 0; inner at 16 }
    let mut body = scalar_types();
    body.push(instr(OP_TYPE_STRUCT, &[20, 6]));
    body.push(instr(OP_MEMBER_DECORATE, &[20, 0, DECORATION_OFFSET, 0]));
    body.push(instr(OP_TYPE_STRUCT, &[21, 3, 20]));
    body.push(instr(OP_MEMBER_DECORATE, &[21, 0, DECORATION_OFFSET, 0]));
    body.push(instr(OP_MEMBER_DECORATE, &[21, 1, DECORATION_OFFSET, 16]));
    let module = Module::from_words(&module_words(&body)).unwrap();
    assert_eq!(module.get_var_size(&var_of(20)), Some(16));
    assert_eq!(module.get_var_size(&var_of(21)), Some(32));
}

#[test]
fn size_queries_work_for_push_constants() {
    let module = Module::from_words(&module_words(&scalar_types())).unwrap();
    let var = PushConstantVariable { type_id: 6, name: None };
    assert_eq!(module.get_var_size(&var), Some(16));
}
