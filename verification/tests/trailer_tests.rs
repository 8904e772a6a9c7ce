use spwn_cmpl::trailer::{encode_trailer, parse_trailer, TrailerError};

#[test]
fn round_trip_basic() {
    let exe: Vec<u8> = vec![1, 2, 3, 4];
    let archive: Vec<u8> = vec![5, 0, 7, 0];
    let args: Vec<u8> = b"--flag value".to_vec();
    let mut data: Vec<u8> = b"launcher code with \0 bytes \0 inside".to_vec();
    data.extend(encode_trailer(&exe, &archive, &args));
    let t = parse_trailer(&data).unwrap();
    assert_eq!(t.exe_size, 4);
    assert_eq!(t.zip_size, 4);
    assert_eq!(t.args, args);
    assert_eq!(t.archive_payload, archive);
    assert_eq!(t.exe_payload, exe);
}

#[test]
fn round_trip_no_prefix() {
    let exe: Vec<u8> = vec![9; 300];
    let archive: Vec<u8> = vec![0; 5];
    let args: Vec<u8> = b"a b c".to_vec();
    let data = encode_trailer(&exe, &archive, &args);
    let t = parse_trailer(&data).unwrap();
    assert_eq!(t.exe_size, 300);
    assert_eq!(t.zip_size, 5);
    assert_eq!(t.args, args);
    assert_eq!(t.archive_payload, archive);
    assert_eq!(t.exe_payload, exe);
}

#[test]
fn round_trip_empty_everything() {
    let data = encode_trailer(&Vec::new(), &Vec::new(), &Vec::new());
    let t = parse_trailer(&data).unwrap();
    assert_eq!(t.exe_size, 0);
    assert_eq!(t.zip_size, 0);
    assert!(t.args.is_empty());
    assert!(t.archive_payload.is_empty());
    assert!(t.exe_payload.is_empty());
}

#[test]
fn zero_exe_size_is_accepted() {
    let archive: Vec<u8> = vec![80, 75, 0, 0];
    let mut data: Vec<u8> = b"code".to_vec();
    data.extend(encode_trailer(&Vec::new(), &archive, &b"x".to_vec()));
    let t = parse_trailer(&data).unwrap();
    assert_eq!(t.exe_size, 0);
    assert!(t.exe_payload.is_empty());
    assert_eq!(t.archive_payload, archive);
}

#[test]
fn zero_zip_size_is_accepted() {
    let exe: Vec<u8> = vec![1, 2, 3, 4];
    let mut data: Vec<u8> = b"code".to_vec();
    data.extend(encode_trailer(&exe, &Vec::new(), &b"--flag value".to_vec()));
    let t = parse_trailer(&data).unwrap();
    assert_eq!(t.zip_size, 0);
    assert!(t.archive_payload.is_empty());
    assert_eq!(t.exe_payload, exe);
}

#[test]
fn encode_exact_bytes() {
    let data = encode_trailer(&vec![1], &vec![2], &b"x".to_vec());
    assert_eq!(data, vec![1, 2, 0, 120, 0, 49, 0, 49, 0]);
}

#[test]
fn empty_file_is_rejected() {
    let data: Vec<u8> = Vec::new();
    assert!(matches!(parse_trailer(&data), Err(TrailerError::BadSizeField)));
}

#[test]
fn nondigit_size_field_is_rejected() {
    let data: Vec<u8> = b"abc".to_vec();
    assert!(matches!(parse_trailer(&data), Err(TrailerError::BadSizeField)));
}

#[test]
fn overflowing_size_field_is_rejected() {
    // twenty nines exceed what 64 bits can hold
    let mut data: Vec<u8> = vec![57; 20];
    data.push(0);
    assert!(matches!(parse_trailer(&data), Err(TrailerError::BadSizeField)));
}

#[test]
fn oversized_declared_payloads_are_rejected() {
    // sizes 9 and 9 with nothing before the fields
    let data: Vec<u8> = vec![0, 57, 0, 57, 0];
    assert!(matches!(
        parse_trailer(&data),
        Err(TrailerError::PayloadOutOfBounds)
    ));
}

#[test]
fn sizes_just_too_large_by_one_are_rejected() {
    // a well-formed trailer, then one byte chopped off the front
    let exe: Vec<u8> = vec![1, 2, 3];
    let archive: Vec<u8> = vec![4, 5];
    let data = encode_trailer(&exe, &archive, &b"go".to_vec());
    let chopped: Vec<u8> = data[1..].to_vec();
    assert!(matches!(
        parse_trailer(&chopped),
        Err(TrailerError::PayloadOutOfBounds)
    ));
}
