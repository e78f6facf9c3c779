use spirv_layout::ExecutionModel;
use spirv_layout::Module;

const MAGIC: u32 = 0x07230203;

const OP_NAME: u32 = 5;
const OP_MEMBER_NAME: u32 = 6;
const OP_ENTRY_POINT: u32 = 15;
const OP_TYPE_FLOAT: u32 = 22;
const OP_TYPE_VECTOR: u32 = 23;
const OP_TYPE_STRUCT: u32 = 30;
const OP_TYPE_POINTER: u32 = 32;
const OP_VARIABLE: u32 = 59;
const OP_DECORATE: u32 = 71;

const DECORATION_LOCATION: u32 = 30;
const DECORATION_BINDING: u32 = 33;
const DECORATION_DESCRIPTOR_SET: u32 = 34;

const SC_UNIFORM_CONSTANT: u32 = 0;
const SC_INPUT: u32 = 1;
const SC_UNIFORM: u32 = 2;
const SC_OUTPUT: u32 = 3;
const SC_PUSH_CONSTANT: u32 = 9;

fn instr(opcode: u32, operands: &[u32]) -> Vec<u32> {
    let mut v = vec![((operands.len() as u32 + 1) << 16) | opcode];
    v.extend_from_slice(operands);
    v
}

fn str_operands(s: &str) -> Vec<u32> {
    let mut bytes: Vec<u8> = s.as_bytes().to_vec();
    bytes.push(0);
    while bytes.len() % 4 != 0 {
        bytes.push(0);
    }
    bytes
        .chunks(4)
        .map(|c| u32::from_le_bytes([c[0], c[1], c[2], c[3]]))
        .collect()
}

fn entry_point(model: u32, func: u32, name: &str, interface: &[u32]) -> Vec<u32> {
    let mut op = vec![model, func];
    op.extend_from_slice(&str_operands(name));
    op.extend_from_slice(interface);
    instr(OP_ENTRY_POINT, &op)
}

fn module_words(body: &[Vec<u32>]) -> Vec<u32> {
    let mut v = vec![MAGIC, 0x00010000, 0, 1, 0];
    for part in body {
        v.extend_from_slice(part);
    }
    v
}

#[test]
fn fragment_output_end_to_end() {
    // float -> vec4 -> pointer(Output) -> variable, used by one fragment
    // entry point named "main", with location 0.
    let words = module_words(&[
        instr(OP_TYPE_FLOAT, &[1, 32]),
        instr(OP_TYPE_VECTOR, &[2, 1, 4]),
        instr(OP_TYPE_POINTER, &[3, SC_OUTPUT, 2]),
        instr(OP_VARIABLE, &[3, 4, SC_OUTPUT]),
        entry_point(4, 100, "main", &[4]),
        instr(OP_DECORATE, &[4, DECORATION_LOCATION, 0]),
    ]);
    let module = Module::from_words(&words).unwrap();
    let eps = module.get_entry_points();
    assert_eq!(eps.len(), 1);
    let ep = &eps[0];
    assert_eq!(ep.name, "main");
    assert!(matches!(ep.execution_model, ExecutionModel::Fragment));
    assert!(ep.uniforms.is_empty());
    assert!(ep.push_constants.is_empty());
    assert!(ep.inputs.is_empty());
    assert_eq!(ep.outputs.len(), 1);
    let out = &ep.outputs[0];
    assert_eq!(out.location, 0);
    assert_eq!(out.type_id, 2);
    assert!(out.name.is_none());
    assert_eq!(module.get_var_size(out), Some(16));
}

#[test]
fn undecorated_uniform_never_appears() {
    // The variable is in the interface list, but carries neither a
    // descriptor set nor a binding, so it is dropped entirely.
    let words = module_words(&[
        instr(OP_TYPE_FLOAT, &[1, 32]),
        instr(OP_TYPE_POINTER, &[3, SC_UNIFORM, 1]),
        instr(OP_VARIABLE, &[3, 4, SC_UNIFORM]),
        entry_point(0, 100, "main", &[4]),
    ]);
    let module = Module::from_words(&words).unwrap();
    let ep = &module.get_entry_points()[0];
    assert!(ep.uniforms.is_empty());
    assert!(ep.push_constants.is_empty());
    assert!(ep.inputs.is_empty());
    assert!(ep.outputs.is_empty());
}

#[test]
fn uniform_with_only_binding_is_dropped() {
    let words = module_words(&[
        instr(OP_TYPE_FLOAT, &[1, 32]),
        instr(OP_TYPE_POINTER, &[3, SC_UNIFORM, 1]),
        instr(OP_VARIABLE, &[3, 4, SC_UNIFORM]),
        entry_point(0, 100, "main", &[4]),
        instr(OP_DECORATE, &[4, DECORATION_BINDING, 2]),
    ]);
    let module = Module::from_words(&words).unwrap();
    assert!(module.get_entry_points()[0].uniforms.is_empty());
}

#[test]
fn decorated_uniform_appears_with_set_and_binding() {
    let words = module_words(&[
        instr(OP_TYPE_FLOAT, &[1, 32]),
        instr(OP_TYPE_POINTER, &[3, SC_UNIFORM, 1]),
        instr(OP_VARIABLE, &[3, 4, SC_UNIFORM]),
        entry_point(0, 100, "main", &[4]),
        instr(OP_DECORATE, &[4, DECORATION_DESCRIPTOR_SET, 1]),
        instr(OP_DECORATE, &[4, DECORATION_BINDING, 2]),
        {
            let mut op = vec![4u32];
            op.extend_from_slice(&str_operands("ubo"));
            instr(OP_NAME, &op)
        },
    ]);
    let module = Module::from_words(&words).unwrap();
    let ep = &module.get_entry_points()[0];
    assert_eq!(ep.uniforms.len(), 1);
    let u = &ep.uniforms[0];
    assert_eq!(u.set, 1);
    assert_eq!(u.binding, 2);
    // The pointed-to type, not the pointer, is recorded.
    assert_eq!(u.type_id, 1);
    assert_eq!(u.name.as_deref(), Some("ubo"));
}

#[test]
fn uniform_constant_class_counts_as_uniform() {
    let words = module_words(&[
        instr(OP_TYPE_FLOAT, &[1, 32]),
        instr(OP_TYPE_POINTER, &[3, SC_UNIFORM_CONSTANT, 1]),
        instr(OP_VARIABLE, &[3, 4, SC_UNIFORM_CONSTANT]),
        entry_point(0, 100, "main", &[4]),
        instr(OP_DECORATE, &[4, DECORATION_DESCRIPTOR_SET, 0]),
        instr(OP_DECORATE, &[4, DECORATION_BINDING, 0]),
    ]);
    let module = Module::from_words(&words).unwrap();
    assert_eq!(module.get_entry_points()[0].uniforms.len(), 1);
}

#[test]
fn push_constants_need_no_decorations() {
    let words = module_words(&[
        instr(OP_TYPE_FLOAT, &[1, 32]),
        instr(OP_TYPE_POINTER, &[3, SC_PUSH_CONSTANT, 1]),
        instr(OP_VARIABLE, &[3, 4, SC_PUSH_CONSTANT]),
        entry_point(0, 100, "main", &[4]),
    ]);
    let module = Module::from_words(&words).unwrap();
    let ep = &module.get_entry_points()[0];
    assert_eq!(ep.push_constants.len(), 1);
    assert_eq!(ep.push_constants[0].type_id, 1);
}

#[test]
fn input_needs_a_location() {
    let words = module_words(&[
        instr(OP_TYPE_FLOAT, &[1, 32]),
        instr(OP_TYPE_POINTER, &[3, SC_INPUT, 1]),
        instr(OP_VARIABLE, &[3, 4, SC_INPUT]),
        instr(OP_VARIABLE, &[3, 5, SC_INPUT]),
        entry_point(0, 100, "main", &[4, 5]),
        instr(OP_DECORATE, &[4, DECORATION_LOCATION, 3]),
    ]);
    let module = Module::from_words(&words).unwrap();
    let ep = &module.get_entry_points()[0];
    assert_eq!(ep.inputs.len(), 1);
    assert_eq!(ep.inputs[0].location, 3);
    assert!(ep.outputs.is_empty());
}

#[test]
fn interface_order_is_preserved() {
    let words = module_words(&[
        instr(OP_TYPE_FLOAT, &[1, 32]),
        instr(OP_TYPE_POINTER, &[3, SC_INPUT, 1]),
        instr(OP_VARIABLE, &[3, 4, SC_INPUT]),
        instr(OP_VARIABLE, &[3, 5, SC_INPUT]),
        entry_point(0, 100, "main", &[5, 4]),
        instr(OP_DECORATE, &[4, DECORATION_LOCATION, 0]),
        instr(OP_DECORATE, &[5, DECORATION_LOCATION, 1]),
    ]);
    let module = Module::from_words(&words).unwrap();
    let ep = &module.get_entry_points()[0];
    assert_eq!(ep.inputs.len(), 2);
    assert_eq!(ep.inputs[0].location, 1);
    assert_eq!(ep.inputs[1].location, 0);
}

#[test]
fn interfaces_are_scoped_per_entry_point() {
    let words = module_words(&[
        instr(OP_TYPE_FLOAT, &[1, 32]),
        instr(OP_TYPE_POINTER, &[3, SC_INPUT, 1]),
        instr(OP_TYPE_POINTER, &[6, SC_OUTPUT, 1]),
        instr(OP_VARIABLE, &[3, 4, SC_INPUT]),
        instr(OP_VARIABLE, &[6, 5, SC_OUTPUT]),
        entry_point(0, 100, "vs", &[4]),
        entry_point(4, 101, "fs", &[5]),
        instr(OP_DECORATE, &[4, DECORATION_LOCATION, 0]),
        instr(OP_DECORATE, &[5, DECORATION_LOCATION, 0]),
    ]);
    let module = Module::from_words(&words).unwrap();
    let eps = module.get_entry_points();
    assert_eq!(eps.len(), 2);
    assert_eq!(eps[0].inputs.len(), 1);
    assert!(eps[0].outputs.is_empty());
    assert!(eps[1].inputs.is_empty());
    assert_eq!(eps[1].outputs.len(), 1);
}

#[test]
fn ids_absent_from_every_category_are_dropped() {
    // Interface ids that name nothing classified are silently ignored.
    let words = module_words(&[
        instr(OP_TYPE_FLOAT, &[1, 32]),
        entry_point(0, 100, "main", &[40, 41, 42]),
    ]);
    let module = Module::from_words(&words).unwrap();
    let ep = &module.get_entry_points()[0];
    assert!(ep.uniforms.is_empty());
    assert!(ep.push_constants.is_empty());
    assert!(ep.inputs.is_empty());
    assert!(ep.outputs.is_empty());
}

#[test]
fn struct_and_member_names_resolve() {
    let words = module_words(&[
        instr(OP_TYPE_FLOAT, &[1, 32]),
        instr(OP_TYPE_STRUCT, &[2, 1, 1]),
        {
            let mut op = vec![2u32];
            op.extend_from_slice(&str_operands("Globals"));
            instr(OP_NAME, &op)
        },
        {
            let mut op = vec![2u32, 1];
            op.extend_from_slice(&str_operands("time"));
            instr(OP_MEMBER_NAME, &op)
        },
        {
            // An out-of-range member index is silently ignored.
            let mut op = vec![2u32, 9];
            op.extend_from_slice(&str_operands("nothing"));
            instr(OP_MEMBER_NAME, &op)
        },
    ]);
    let module = Module::from_words(&words).unwrap();
    match module.get_type(2) {
        Some(spirv_layout::Type::Struct { name, elements }) => {
            assert_eq!(name.as_deref(), Some("Globals"));
            assert!(elements[0].name.is_none());
            assert_eq!(elements[1].name.as_deref(), Some("time"));
        }
        _ => panic!("expected a struct"),
    }
}

#[test]
fn variable_name_wins_over_struct_name() {
    // OpName targets a variable id where one exists; only otherwise a
    // struct type of that id.
    let words = module_words(&[
        instr(OP_TYPE_FLOAT, &[1, 32]),
        instr(OP_TYPE_POINTER, &[3, SC_PUSH_CONSTANT, 1]),
        instr(OP_VARIABLE, &[3, 4, SC_PUSH_CONSTANT]),
        entry_point(0, 100, "main", &[4]),
        {
            let mut op = vec![4u32];
            op.extend_from_slice(&str_operands("pc"));
            instr(OP_NAME, &op)
        },
    ]);
    let module = Module::from_words(&words).unwrap();
    let ep = &module.get_entry_points()[0];
    assert_eq!(ep.push_constants[0].name.as_deref(), Some("pc"));
}
