use spirv_layout::Error;
use spirv_layout::Module;

const MAGIC: u32 = 0x07230203;

fn instr(opcode: u32, operands: &[u32]) -> Vec<u32> {
    let mut v = vec![((operands.len() as u32 + 1) << 16) | opcode];
    v.extend_from_slice(operands);
    v
}

fn module_words(body: &[Vec<u32>]) -> Vec<u32> {
    let mut v = vec![MAGIC, 0x00010000, 0, 1, 0];
    for part in body {
        v.extend_from_slice(part);
    }
    v
}

#[test]
fn empty_buffer_is_invalid_header() {
    assert_eq!(Module::from_words(&[]).unwrap_err(), Error::InvalidHeader);
}

#[test]
fn five_words_are_invalid_header() {
    let words = [MAGIC, 0, 0, 0, 0];
    assert_eq!(Module::from_words(&words).unwrap_err(), Error::InvalidHeader);
}

#[test]
fn wrong_magic_is_invalid_header() {
    let words = [0x07230202, 0, 0, 0, 0, 0];
    assert_eq!(Module::from_words(&words).unwrap_err(), Error::InvalidHeader);
}

#[test]
fn magic_in_later_word_does_not_help() {
    let words = [0, MAGIC, 0, 0, 0, 0];
    assert_eq!(Module::from_words(&words).unwrap_err(), Error::InvalidHeader);
}

#[test]
fn minimal_module_parses() {
    // One unrecognized single-word instruction after the header.
    let words = module_words(&[instr(0xABC, &[])]);
    assert_eq!(words.len(), 6);
    let module = Module::from_words(&words).unwrap();
    assert!(module.get_entry_points().is_empty());
}

#[test]
fn header_fields_are_not_interpreted() {
    // Arbitrary version, generator, bound and schema words are accepted.
    let mut words = vec![MAGIC, 0xDEAD_BEEF, 0xFFFF_FFFF, 0, 0x1234_5678];
    words.extend_from_slice(&instr(19, &[1]));
    let module = Module::from_words(&words).unwrap();
    assert!(matches!(
        module.get_type(1),
        Some(spirv_layout::Type::Void)
    ));
}
