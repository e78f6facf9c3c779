use spirv_layout::Error;
use spirv_layout::Module;
use spirv_layout::StorageClass;
use spirv_layout::Type;

const MAGIC: u32 = 0x07230203;

const OP_TYPE_VOID: u32 = 19;
const OP_TYPE_BOOL: u32 = 20;
const OP_TYPE_INT: u32 = 21;
const OP_TYPE_FLOAT: u32 = 22;
const OP_TYPE_VECTOR: u32 = 23;
const OP_TYPE_MATRIX: u32 = 24;
const OP_TYPE_IMAGE: u32 = 25;
const OP_TYPE_SAMPLER: u32 = 26;
const OP_TYPE_SAMPLED_IMAGE: u32 = 27;
const OP_TYPE_ARRAY: u32 = 28;
const OP_TYPE_RUNTIME_ARRAY: u32 = 29;
const OP_TYPE_STRUCT: u32 = 30;
const OP_TYPE_POINTER: u32 = 32;
const OP_CONSTANT: u32 = 43;

fn instr(opcode: u32, operands: &[u32]) -> Vec<u32> {
    let mut v = vec![((operands.len() as u32 + 1) << 16) | opcode];
    v.extend_from_slice(operands);
    v
}

fn module_words(body: &[Vec<u32>]) -> Vec<u32> {
    let mut v = vec![MAGIC, 0x00010000, 0, 1, 0];
    for part in body {
        v.extend_from_slice(part);
    }
    v
}

#[test]
fn void_and_bool_resolve() {
    let words = module_words(&[instr(OP_TYPE_VOID, &[1]), instr(OP_TYPE_BOOL, &[2])]);
    let module = Module::from_words(&words).unwrap();
    assert!(matches!(module.get_type(1), Some(Type::Void)));
    assert!(matches!(module.get_type(2), Some(Type::Bool)));
    assert!(module.get_type(3).is_none());
}

#[test]
fn int_types_resolve_by_width_and_sign() {
    let words = module_words(&[
        instr(OP_TYPE_INT, &[1, 32, 1]),
        instr(OP_TYPE_INT, &[2, 32, 0]),
        instr(OP_TYPE_INT, &[3, 16, 1]),
        instr(OP_TYPE_INT, &[4, 64, 0]),
    ]);
    let module = Module::from_words(&words).unwrap();
    assert!(matches!(module.get_type(1), Some(Type::Int32)));
    assert!(matches!(module.get_type(2), Some(Type::UInt32)));
    assert!(matches!(module.get_type(3), Some(Type::Unknown)));
    assert!(matches!(module.get_type(4), Some(Type::Unknown)));
}

#[test]
fn float_types_resolve_by_width() {
    let words = module_words(&[
        instr(OP_TYPE_FLOAT, &[1, 32]),
        instr(OP_TYPE_FLOAT, &[2, 64]),
    ]);
    let module = Module::from_words(&words).unwrap();
    assert!(matches!(module.get_type(1), Some(Type::Float32)));
    assert!(matches!(module.get_type(2), Some(Type::Unknown)));
}

#[test]
fn float_vectors_resolve_by_count() {
    let words = module_words(&[
        instr(OP_TYPE_FLOAT, &[1, 32]),
        instr(OP_TYPE_VECTOR, &[2, 1, 2]),
        instr(OP_TYPE_VECTOR, &[3, 1, 3]),
        instr(OP_TYPE_VECTOR, &[4, 1, 4]),
        instr(OP_TYPE_VECTOR, &[5, 1, 5]),
    ]);
    let module = Module::from_words(&words).unwrap();
    assert!(matches!(module.get_type(2), Some(Type::Vec2)));
    assert!(matches!(module.get_type(3), Some(Type::Vec3)));
    assert!(matches!(module.get_type(4), Some(Type::Vec4)));
    assert!(matches!(module.get_type(5), Some(Type::Unknown)));
}

#[test]
fn non_float_vector_is_unknown() {
    let words = module_words(&[
        instr(OP_TYPE_INT, &[1, 32, 0]),
        instr(OP_TYPE_VECTOR, &[2, 1, 4]),
    ]);
    let module = Module::from_words(&words).unwrap();
    assert!(matches!(module.get_type(2), Some(Type::Unknown)));
}

#[test]
fn vector_with_undeclared_component_is_invalid_id() {
    let words = module_words(&[instr(OP_TYPE_VECTOR, &[2, 1, 4])]);
    assert_eq!(Module::from_words(&words).unwrap_err(), Error::InvalidId);
}

#[test]
fn vector_declared_after_use_is_invalid_id() {
    // Forward references are not allowed for vector components.
    let words = module_words(&[
        instr(OP_TYPE_VECTOR, &[2, 1, 4]),
        instr(OP_TYPE_FLOAT, &[1, 32]),
    ]);
    assert_eq!(Module::from_words(&words).unwrap_err(), Error::InvalidId);
}

#[test]
fn matrices_resolve_from_vectors() {
    let words = module_words(&[
        instr(OP_TYPE_FLOAT, &[1, 32]),
        instr(OP_TYPE_VECTOR, &[2, 1, 3]),
        instr(OP_TYPE_VECTOR, &[3, 1, 4]),
        instr(OP_TYPE_MATRIX, &[4, 2, 3]),
        instr(OP_TYPE_MATRIX, &[5, 3, 4]),
        instr(OP_TYPE_MATRIX, &[6, 2, 4]),
        instr(OP_TYPE_MATRIX, &[7, 99, 4]),
    ]);
    let module = Module::from_words(&words).unwrap();
    assert!(matches!(module.get_type(4), Some(Type::Mat3)));
    assert!(matches!(module.get_type(5), Some(Type::Mat4)));
    assert!(matches!(module.get_type(6), Some(Type::Unknown)));
    // An undeclared column id degrades softly for matrices.
    assert!(matches!(module.get_type(7), Some(Type::Unknown)));
}

#[test]
fn images_resolve_only_for_2d_float() {
    let words = module_words(&[
        instr(OP_TYPE_FLOAT, &[1, 32]),
        instr(OP_TYPE_INT, &[2, 32, 0]),
        // result, sampled type, dim, depth, arrayed, ms, sampled, format
        instr(OP_TYPE_IMAGE, &[3, 1, 1, 1, 0, 0, 1, 0]),
        instr(OP_TYPE_IMAGE, &[4, 1, 0, 1, 0, 0, 1, 0]),
        instr(OP_TYPE_IMAGE, &[5, 2, 1, 1, 0, 0, 1, 0]),
    ]);
    let module = Module::from_words(&words).unwrap();
    match module.get_type(3) {
        Some(Type::Image2D { depth, sampled, format }) => {
            assert!(*depth);
            assert!(*sampled);
            assert_eq!(*format, 0);
        }
        _ => panic!("expected an image type"),
    }
    assert!(matches!(module.get_type(4), Some(Type::Unknown)));
    assert!(matches!(module.get_type(5), Some(Type::Unknown)));
}

#[test]
fn sampled_image_needs_an_image() {
    let words = module_words(&[
        instr(OP_TYPE_FLOAT, &[1, 32]),
        instr(OP_TYPE_IMAGE, &[2, 1, 1, 0, 0, 0, 1, 0]),
        instr(OP_TYPE_SAMPLER, &[3]),
        instr(OP_TYPE_SAMPLED_IMAGE, &[4, 2]),
        instr(OP_TYPE_SAMPLED_IMAGE, &[5, 1]),
    ]);
    let module = Module::from_words(&words).unwrap();
    assert!(matches!(module.get_type(3), Some(Type::Sampler)));
    match module.get_type(4) {
        Some(Type::SampledImage { image_type_id }) => assert_eq!(*image_type_id, 2),
        _ => panic!("expected a sampled image"),
    }
    assert!(matches!(module.get_type(5), Some(Type::Unknown)));
}

#[test]
fn array_length_comes_from_a_prior_constant() {
    let words = module_words(&[
        instr(OP_TYPE_INT, &[1, 32, 0]),
        instr(OP_CONSTANT, &[1, 2, 7]),
        instr(OP_TYPE_FLOAT, &[3, 32]),
        instr(OP_TYPE_ARRAY, &[4, 3, 2]),
    ]);
    let module = Module::from_words(&words).unwrap();
    match module.get_type(4) {
        Some(Type::Array { element_type_id, length }) => {
            assert_eq!(*element_type_id, 3);
            assert_eq!(*length, Some(7));
        }
        _ => panic!("expected an array"),
    }
}

#[test]
fn array_with_undeclared_length_is_invalid_id() {
    let words = module_words(&[
        instr(OP_TYPE_FLOAT, &[3, 32]),
        instr(OP_TYPE_ARRAY, &[4, 3, 2]),
    ]);
    assert_eq!(Module::from_words(&words).unwrap_err(), Error::InvalidId);
}

#[test]
fn array_length_from_signed_constant_is_invalid_id() {
    // Only constants of unsigned 32-bit type are collected as lengths.
    let words = module_words(&[
        instr(OP_TYPE_INT, &[1, 32, 1]),
        instr(OP_CONSTANT, &[1, 2, 7]),
        instr(OP_TYPE_FLOAT, &[3, 32]),
        instr(OP_TYPE_ARRAY, &[4, 3, 2]),
    ]);
    assert_eq!(Module::from_words(&words).unwrap_err(), Error::InvalidId);
}

#[test]
fn wide_constant_is_not_an_array_length() {
    // A constant with two value words is not a plain u32 constant.
    let words = module_words(&[
        instr(OP_TYPE_INT, &[1, 32, 0]),
        instr(OP_CONSTANT, &[1, 2, 7, 0]),
        instr(OP_TYPE_FLOAT, &[3, 32]),
        instr(OP_TYPE_ARRAY, &[4, 3, 2]),
    ]);
    assert_eq!(Module::from_words(&words).unwrap_err(), Error::InvalidId);
}

#[test]
fn runtime_array_has_no_length() {
    let words = module_words(&[
        instr(OP_TYPE_FLOAT, &[1, 32]),
        instr(OP_TYPE_RUNTIME_ARRAY, &[2, 1]),
    ]);
    let module = Module::from_words(&words).unwrap();
    match module.get_type(2) {
        Some(Type::Array { element_type_id, length }) => {
            assert_eq!(*element_type_id, 1);
            assert!(length.is_none());
        }
        _ => panic!("expected a runtime array"),
    }
}

#[test]
fn struct_members_start_with_defaults() {
    let words = module_words(&[
        instr(OP_TYPE_FLOAT, &[1, 32]),
        instr(OP_TYPE_VECTOR, &[2, 1, 4]),
        instr(OP_TYPE_STRUCT, &[3, 1, 2]),
    ]);
    let module = Module::from_words(&words).unwrap();
    match module.get_type(3) {
        Some(Type::Struct { name, elements }) => {
            assert!(name.is_none());
            assert_eq!(elements.len(), 2);
            assert_eq!(elements[0].type_id, 1);
            assert_eq!(elements[1].type_id, 2);
            for m in elements {
                assert!(m.name.is_none());
                assert!(m.offset.is_none());
                assert!(m.row_major);
                assert_eq!(m.stride, 16);
            }
        }
        _ => panic!("expected a struct"),
    }
}

#[test]
fn pointer_storage_classes_collapse() {
    let words = module_words(&[
        instr(OP_TYPE_FLOAT, &[1, 32]),
        instr(OP_TYPE_POINTER, &[2, 0, 1]),
        instr(OP_TYPE_POINTER, &[3, 2, 1]),
        instr(OP_TYPE_POINTER, &[4, 9, 1]),
        instr(OP_TYPE_POINTER, &[5, 1, 1]),
        instr(OP_TYPE_POINTER, &[6, 3, 1]),
        instr(OP_TYPE_POINTER, &[7, 42, 1]),
    ]);
    let module = Module::from_words(&words).unwrap();
    let class_of = |id: u32| match module.get_type(id) {
        Some(Type::Pointer { storage_class, pointed_type_id }) => {
            assert_eq!(*pointed_type_id, 1);
            *storage_class
        }
        _ => panic!("expected a pointer"),
    };
    // Wire-level UniformConstant and Uniform both collapse to Uniform.
    assert_eq!(class_of(2), StorageClass::Uniform);
    assert_eq!(class_of(3), StorageClass::Uniform);
    assert_eq!(class_of(4), StorageClass::PushConstant);
    assert_eq!(class_of(5), StorageClass::Input);
    assert_eq!(class_of(6), StorageClass::Output);
    assert_eq!(class_of(7), StorageClass::Unknown);
}

#[test]
fn later_declaration_overwrites_earlier_id() {
    let words = module_words(&[
        instr(OP_TYPE_VOID, &[1]),
        instr(OP_TYPE_BOOL, &[1]),
    ]);
    let module = Module::from_words(&words).unwrap();
    assert!(matches!(module.get_type(1), Some(Type::Bool)));
}
