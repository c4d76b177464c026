use lattice::error::RtxError;
use lattice::pipeline::read_spv;

#[test]
fn little_endian_module_is_decoded() {
    let bytes = [0x03, 0x02, 0x23, 0x07, 0x00, 0x00, 0x01, 0x00, 0x78, 0x56, 0x34, 0x12];
    assert_eq!(read_spv(&bytes), Ok(vec![0x0723_0203, 0x0001_0000, 0x1234_5678]));
}

#[test]
fn big_endian_module_is_decoded_to_the_same_words() {
    let bytes = [0x07, 0x23, 0x02, 0x03, 0x00, 0x01, 0x00, 0x00, 0x12, 0x34, 0x56, 0x78];
    assert_eq!(read_spv(&bytes), Ok(vec![0x0723_0203, 0x0001_0000, 0x1234_5678]));
}

#[test]
fn unaligned_input_is_refused() {
    assert_eq!(
        read_spv(&[0x03, 0x02, 0x23, 0x07, 0x00]),
        Err(RtxError::Init("SPIR-V size not aligned to 4".to_string()))
    );
}

#[test]
fn input_without_magic_number_is_refused() {
    let e = Err(RtxError::Init("read_spv: input missing SPIR-V magic number".to_string()));
    assert_eq!(read_spv(&[1, 2, 3, 4]), e);
    assert_eq!(read_spv(&[]), e);
}
