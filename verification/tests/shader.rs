use radial_overlay::error::StartupError;
use radial_overlay::shader::read_spirv_shader;

#[test]
fn words_are_little_endian() {
    let bytes = [0x03, 0x02, 0x23, 0x07, 0x00, 0x00, 0x01, 0x00, 0xFF, 0xFF, 0xFF, 0xFF];
    assert_eq!(read_spirv_shader(&bytes), Ok(vec![0x0723_0203, 0x0001_0000, 0xFFFF_FFFF]));
}

#[test]
fn words_agree_with_from_le_bytes() {
    let bytes: Vec<u8> = (0..=255u8).rev().collect();
    let expected: Vec<u32> = bytes
        .chunks_exact(4)
        .map(|chunk| u32::from_le_bytes([chunk[0], chunk[1], chunk[2], chunk[3]]))
        .collect();
    assert_eq!(read_spirv_shader(&bytes), Ok(expected));
}

#[test]
fn empty_bytecode_has_no_words() {
    assert_eq!(read_spirv_shader(&[]), Ok(vec![]));
}

#[test]
fn misaligned_bytecode_is_refused() {
    for length in [1usize, 2, 3, 5, 6, 7, 9, 1023] {
        let bytes = vec![0u8; length];
        assert_eq!(read_spirv_shader(&bytes), Err(StartupError::ShaderLoad), "length {length}");
    }
    assert!(read_spirv_shader(&vec![0u8; 1024]).is_ok());
}
