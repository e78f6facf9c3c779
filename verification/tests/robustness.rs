use spirv_layout::Module;

const MAGIC: u32 = 0x07230203;

const OP_ENTRY_POINT: u32 = 15;
const OP_TYPE_FLOAT: u32 = 22;
const OP_TYPE_VECTOR: u32 = 23;
const OP_TYPE_POINTER: u32 = 32;
const OP_VARIABLE: u32 = 59;
const OP_DECORATE: u32 = 71;

fn instr(opcode: u32, operands: &[u32]) -> Vec<u32> {
    let mut v = vec![((operands.len() as u32 + 1) << 16) | opcode];
    v.extend_from_slice(operands);
    v
}

fn str_operands(s: &str) -> Vec<u32> {
    let mut bytes: Vec<u8> = s.as_bytes().to_vec();
    bytes.push(0);
    while bytes.len() % 4 != 0 {
        bytes.push(0);
    }
    bytes
        .chunks(4)
        .map(|c| u32::from_le_bytes([c[0], c[1], c[2], c[3]]))
        .collect()
}

fn sample_module() -> Vec<u32> {
    let mut entry = vec![4u32, 100];
    entry.extend_from_slice(&str_operands("main"));
    entry.push(4);
    let mut v = vec![MAGIC, 0x00010000, 0, 1, 0];
    for part in [
        instr(OP_TYPE_FLOAT, &[1, 32]),
        instr(OP_TYPE_VECTOR, &[2, 1, 4]),
        instr(OP_TYPE_POINTER, &[3, 3, 2]),
        instr(OP_VARIABLE, &[3, 4, 3]),
        instr(OP_ENTRY_POINT, &entry),
        instr(OP_DECORATE, &[4, 30, 0]),
    ] {
        v.extend_from_slice(&part);
    }
    v
}

#[test]
fn sample_module_parses() {
    let module = Module::from_words(&sample_module()).unwrap();
    assert_eq!(module.get_entry_points().len(), 1);
}

#[test]
fn every_truncation_terminates() {
    let words = sample_module();
    for n in 0..words.len() {
        // Either outcome is fine; reaching the next iteration is the point.
        let _ = Module::from_words(&words[..n]);
    }
}

#[test]
fn every_single_bit_flip_terminates() {
    let words = sample_module();
    for i in 0..words.len() {
        for bit in 0..32 {
            let mut flipped = words.clone();
            flipped[i] ^= 1u32 << bit;
            let _ = Module::from_words(&flipped);
        }
    }
}

#[test]
fn arbitrary_word_soup_terminates() {
    // A crude deterministic generator; no buffer may hang or panic.
    let mut x: u32 = 0x12345678;
    for len in 0..64usize {
        let mut words = vec![MAGIC, 0, 0, 0, 0];
        for _ in 0..len {
            x = x.wrapping_mul(1664525).wrapping_add(1013904223);
            words.push(x);
        }
        let _ = Module::from_words(&words);
    }
}
