use vm::error::ItrErrCode;
use vm::extensions::{
    buf_scan_u32, buf_u16, buf_u32, buf_u64, fee_add_bps_ceil, read, sha2_prefix_u160,
    sha2_prefix_u64, sha2_prefix_u64_cat,
};
use vm::value::Value;

#[test]
fn buffer_reads_are_big_endian_and_bounded() {
    let buf = [0x12u8, 0x34, 0x56, 0x78, 0x9a, 0xbc, 0xde, 0xf0, 0x11];
    assert_eq!(read(&buf, 2, 3).unwrap(), &[0x56, 0x78, 0x9a]);
    assert_eq!(read(&buf, 8, 2).unwrap_err().0, ItrErrCode::NativeFuncError);
    assert_eq!(read(&buf, u64::MAX, 1).unwrap_err().0, ItrErrCode::NativeFuncError);
    assert_eq!(buf_u16(&buf, 1).unwrap(), 0x3456);
    assert_eq!(buf_u32(&buf, 0).unwrap(), 0x1234_5678);
    assert_eq!(buf_u64(&buf, 1).unwrap(), 0x3456_789a_bcde_f011);
    assert_eq!(buf_u64(&buf, 2).unwrap_err().0, ItrErrCode::NativeFuncError);
}

#[test]
fn fee_rounds_up_and_must_fit() {
    assert_eq!(fee_add_bps_ceil(10_000, 30).unwrap(), 10_030);
    assert_eq!(fee_add_bps_ceil(1, 1).unwrap(), 2);
    assert_eq!(fee_add_bps_ceil(0, 9_999).unwrap(), 0);
    assert_eq!(fee_add_bps_ceil(20_000, 10_000).unwrap(), 40_000);
    assert_eq!(fee_add_bps_ceil(u64::MAX, 1).unwrap_err().0, ItrErrCode::NativeFuncError);
}

#[test]
fn scan_finds_the_first_matching_slot() {
    let buf = [0u8, 0, 0, 1, 9, 0, 0, 0, 2, 9, 0, 0, 0, 2, 9];
    assert_eq!(buf_scan_u32(&buf, 0, 3, 5, 2).unwrap(), (5, true));
    assert_eq!(buf_scan_u32(&buf, 0, 3, 5, 7).unwrap(), (0, false));
    assert_eq!(buf_scan_u32(&buf, 0, 0, 5, 2).unwrap(), (0, false));
    assert_eq!(buf_scan_u32(&buf, 0, 4, 5, 2).unwrap_err().0, ItrErrCode::NativeFuncError);
    assert_eq!(buf_scan_u32(&buf, 0, 3, 3, 2).unwrap_err().0, ItrErrCode::NativeFuncError);
    assert_eq!(buf_scan_u32(&buf, 0, 65, 5, 2).unwrap_err().0, ItrErrCode::NativeFuncError);
    assert_eq!(buf_scan_u32(&buf, 0, 3, 5, 1 << 32).unwrap_err().0, ItrErrCode::NativeFuncError);
}

#[test]
fn sha2_prefixes_of_abc() {
    assert_eq!(sha2_prefix_u64(b"abc"), 0xba78_16bf_8f01_cfea);
    assert_eq!(
        sha2_prefix_u160(b"abc"),
        hex::decode("ba7816bf8f01cfea414140de5dae2223b00361a3").unwrap()
    );
    let parts = vec![Value::bytes(b"a".to_vec()), Value::bytes(b"bc".to_vec())];
    assert_eq!(sha2_prefix_u64_cat(&parts).unwrap(), 0xba78_16bf_8f01_cfea);
    let bad = vec![Value::bytes(b"a".to_vec()), Value::U8(1)];
    assert_eq!(sha2_prefix_u64_cat(&bad).unwrap_err().0, ItrErrCode::NativeFuncError);
    let many: Vec<Value> = (0..17).map(|_| Value::bytes(vec![])).collect();
    assert_eq!(sha2_prefix_u64_cat(&many).unwrap_err().0, ItrErrCode::NativeFuncError);
}
