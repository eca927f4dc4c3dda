use sync_stores::contentsignature::{decode_root_hash, split_pem, ErrorKind};

const ROOT_HASH: &str = "3C:01:44:6A:BE:90:36:CE:A9:A0:9A:CA:A3:A5:20:AC:62:8F:20:A7:AE:32:CE:86:1C:B2:EF:B7:0F:A0:C7:45";

#[test]
fn test_decode_root_hash() {
    assert!(decode_root_hash("meh!").is_err());
    assert!(decode_root_hash("3C:01:44").is_err());

    let result = decode_root_hash(ROOT_HASH).unwrap();
    assert_eq!(
        result,
        vec![
            60, 1, 68, 106, 190, 144, 54, 206, 169, 160, 154, 202, 163, 165, 32, 172, 98, 143,
            32, 167, 174, 50, 206, 134, 28, 178, 239, 183, 15, 160, 199, 69
        ]
    );
}

#[test]
fn test_split_pem() {
    assert!(split_pem(b"meh!").is_err());

    assert!(split_pem(
        b"-----BEGIN CERTIFICATE-----
invalidCertificate
-----END CERTIFICATE-----"
    )
    .is_err());

    assert!(split_pem(
        b"-----BEGIN CERTIFICATE-----
bGxhIEFNTyBQcm9kdWN0aW9uIFNp
-----BEGIN CERTIFICATE-----"
    )
    .is_err());

    let result = split_pem(
        b"-----BEGIN CERTIFICATE-----
010203
040506
-----END CERTIFICATE-----
-----BEGIN CERTIFICATE-----
fdfeff
-----END CERTIFICATE-----",
    )
    .unwrap();
    assert_eq!(result, vec![vec![1, 2, 3, 4, 5, 6], vec![253, 254, 255]]);
}

#[test]
fn root_hash_errors_hold_the_input() {
    assert_eq!(
        decode_root_hash("meh!"),
        Err(ErrorKind::RootHashFormatError("meh!".to_string()))
    );
    assert_eq!(decode_root_hash(""), Err(ErrorKind::RootHashFormatError("".to_string())));
    let too_long = format!("{}:00", ROOT_HASH);
    assert_eq!(
        decode_root_hash(&too_long),
        Err(ErrorKind::RootHashFormatError(too_long.clone()))
    );
    let odd_piece = ROOT_HASH.replacen("3C:01", "3:C01", 1);
    assert!(decode_root_hash(&odd_piece).is_err());
}

#[test]
fn root_hash_pieces_may_be_of_any_even_length() {
    let expected = decode_root_hash(ROOT_HASH).unwrap();
    let without_colons = ROOT_HASH.replace(':', "");
    assert_eq!(decode_root_hash(&without_colons), Ok(expected.clone()));
    let lower = ROOT_HASH.to_lowercase();
    assert_eq!(decode_root_hash(&lower), Ok(expected.clone()));
    let with_empty_pieces = format!(":{}::", ROOT_HASH.replacen("3C:01", "3C01", 1));
    assert_eq!(decode_root_hash(&with_empty_pieces), Ok(expected));
}

#[test]
fn pem_messages() {
    assert_eq!(
        split_pem(b"meh!"),
        Err(ErrorKind::PEMFormatError("Missing PEM data".to_string()))
    );
    assert_eq!(split_pem(b""), Err(ErrorKind::PEMFormatError("Missing PEM data".to_string())));
    assert_eq!(
        split_pem(b"-----BEGIN CERTIFICATE-----\n0102"),
        Err(ErrorKind::PEMFormatError("Missing end header".to_string()))
    );
    assert_eq!(
        split_pem(b"-----BEGIN CERTIFICATE-----\n012\n-----END CERTIFICATE-----"),
        Err(ErrorKind::PEMFormatError("Odd number of digits".to_string()))
    );
    assert_eq!(
        split_pem(b"-----BEGIN CERTIFICATE-----\n01zz\nqq\n-----END CERTIFICATE-----"),
        Err(ErrorKind::PEMFormatError("Invalid character 'z' at position 2".to_string()))
    );
    assert_eq!(
        split_pem(&[0x2d, 0xff, 0x0a]),
        Err(ErrorKind::PEMFormatError(
            "invalid utf-8 sequence of 1 bytes from index 1".to_string()
        ))
    );
}

#[test]
fn pem_lines_outside_a_certificate_are_passed_over() {
    let result = split_pem(
        b"comment, not hex
-----BEGIN CERTIFICATE-----
0a
-----END CERTIFICATE-----
more text
",
    )
    .unwrap();
    assert_eq!(result, vec![vec![10]]);
}

#[test]
fn pem_end_without_begin_completes_an_empty_certificate() {
    assert_eq!(split_pem(b"-----END CERTIFICATE-----"), Ok(vec![vec![]]));
    assert_eq!(
        split_pem(b"xx -----BEGIN CERTIFICATE yy\n\nAb\n-----END CERTIFICATE"),
        Ok(vec![vec![0xab]])
    );
}

#[test]
fn pem_carriage_returns_are_no_hex() {
    assert!(split_pem(b"-----BEGIN CERTIFICATE-----\r\n0102\r\n-----END CERTIFICATE-----").is_err());
}
