use windows_kernel_rs::parameters::{PARAMETERS_READ_SIZE, Parameters, ParametersRead, ParametersWrite};

fn union_bytes(length: u32, key: u32, flags: u32, offset: i64) -> Vec<u8> {
    let mut b = Vec::new();
    b.extend_from_slice(&length.to_le_bytes());
    b.extend_from_slice(&0xAAAA_AAAAu32.to_le_bytes());
    b.extend_from_slice(&key.to_le_bytes());
    b.extend_from_slice(&flags.to_le_bytes());
    b.extend_from_slice(&offset.to_le_bytes());
    b.extend_from_slice(&[0xEE; 8]);
    b
}

#[test]
fn read_parameters_decode() {
    let b = union_bytes(0x1234_5678, 7, 0x8000_0001, -2);
    let p = Parameters::Read(&b);
    assert_eq!(p, ParametersRead { length: 0x1234_5678, key: 7, flags: 0x8000_0001, byte_offset: -2 });
}

#[test]
fn write_parameters_share_layout() {
    let b = union_bytes(512, 1, 2, 0x0102_0304_0506_0708);
    assert_eq!(Parameters::Write(&b), Parameters::Read(&b));
    assert_eq!(ParametersWrite(&b).length, 512);
    assert_eq!(ParametersWrite(&b).byte_offset, 0x0102_0304_0506_0708);
}

#[test]
fn parameters_need_only_their_size() {
    let b = union_bytes(3, 4, 5, i64::MIN);
    let p = Parameters::Read(&b[..PARAMETERS_READ_SIZE]);
    assert_eq!(p.byte_offset, i64::MIN);
    assert_eq!(p.length, 3);
}
