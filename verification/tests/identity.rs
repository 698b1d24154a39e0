use s3mt_presale::{Config, Identity};

#[test]
fn identity_keeps_its_bytes() {
    let mut bytes = [0u8; 32];
    for (i, byte) in bytes.iter_mut().enumerate() {
        *byte = (i * 7 + 3) as u8;
    }
    let id = Identity::new(bytes);
    assert_eq!(id.bytes, bytes);
    assert_eq!(id.to_bytes(), bytes);
    assert_eq!(id.to_vec(), bytes.to_vec());
    assert_eq!(id.to_vec().len(), 32);
}

#[test]
fn identities_are_equal_when_their_bytes_are() {
    let a = Identity::new([5u8; 32]);
    let b = Identity::new([5u8; 32]);
    assert!(a == b);
    assert!(!(a != b));
}

#[test]
fn identities_differ_in_any_byte() {
    let a = Identity::new([5u8; 32]);
    for i in 0..32 {
        let mut bytes = [5u8; 32];
        bytes[i] = 6;
        let b = Identity::new(bytes);
        assert!(a != b, "byte {} was not compared", i);
        assert!(!(a == b));
    }
}

#[test]
fn config_record_takes_97_bytes() {
    assert_eq!(Config::SIZE, 97);
}
