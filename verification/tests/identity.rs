use garmin_run_tracker::generate_uuid;
use garmin_run_tracker::identity::format_uuid;

#[test]
fn fingerprint_of_empty_input() {
    assert_eq!(generate_uuid(&[]), "e3b0c442-98fc-4c14-9afb-b4c8996fb924");
}

#[test]
fn fingerprint_of_abc() {
    assert_eq!(generate_uuid(b"abc"), "ba7816bf-8f01-4fea-4141-80de5dae2223");
}

#[test]
fn fingerprint_is_deterministic() {
    let data: Vec<u8> = (0..=255u8).collect();
    assert_eq!(generate_uuid(&data), generate_uuid(&data.clone()));
    assert_ne!(generate_uuid(&data), generate_uuid(&data[1..]));
}

#[test]
fn fingerprint_layout() {
    for data in [&b""[..], &b"abc"[..], &b"some other file"[..]] {
        let uuid = generate_uuid(data);
        let chars: Vec<char> = uuid.chars().collect();
        assert_eq!(chars.len(), 36);
        for (i, c) in chars.iter().enumerate() {
            if i == 8 || i == 13 || i == 18 || i == 23 {
                assert_eq!(*c, '-');
            } else {
                assert!(c.is_ascii_digit() || ('a'..='f').contains(c));
            }
        }
        assert_eq!(chars[14], '4');
        assert!(matches!(chars[24], '8' | '9' | 'a' | 'b'));
    }
}

#[test]
fn format_uuid_marks_version_and_variant() {
    let mut digest = [0u8; 32];
    assert_eq!(format_uuid(&digest), "00000000-0000-4000-0000-800000000000");
    digest = [0xff; 32];
    assert_eq!(format_uuid(&digest), "ffffffff-ffff-4fff-ffff-bfffffffffff");
    for (i, byte) in digest.iter_mut().enumerate() {
        *byte = (i as u8) * 17;
    }
    assert_eq!(format_uuid(&digest), "00112233-4455-4677-8899-aabbccddeeff");
}

#[test]
fn format_uuid_ignores_the_second_half_of_the_digest() {
    let mut digest = [7u8; 32];
    let first = format_uuid(&digest);
    digest[16] = 0;
    digest[31] = 0;
    assert_eq!(format_uuid(&digest), first);
}
