use atranscoder::job_id::{fresh_id, id_string};

#[test]
fn identifier_is_written_hyphenated_in_lower_case() {
    assert_eq!(
        id_string(0xA1A2A3A4B1B2C1C2D1D2D3D4D5D6D7D8),
        "a1a2a3a4-b1b2-c1c2-d1d2-d3d4d5d6d7d8"
    );
}

#[test]
fn small_identifier_is_padded_with_zeros() {
    assert_eq!(id_string(0), "00000000-0000-0000-0000-000000000000");
    assert_eq!(id_string(0x1f), "00000000-0000-0000-0000-00000000001f");
    assert_eq!(id_string(u128::MAX), "ffffffff-ffff-ffff-ffff-ffffffffffff");
}

#[test]
fn fresh_identifiers_are_random_version_four() {
    let a = fresh_id();
    let b = fresh_id();
    assert_ne!(a, b);
    for id in [a, b] {
        assert_eq!(id & 0xf000_c000_0000_0000_0000, 0x4000_8000_0000_0000_0000);
        let text = id_string(id);
        assert_eq!(text.len(), 36);
        assert_eq!(&text[14..15], "4");
    }
}
