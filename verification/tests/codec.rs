use package_room::codec::{decode, encode, text_from_bytes, NFCCardData, CAPACITY, PAGE_COUNT};
use package_room::errors::ErrorKind;
use package_room::text::{to_decimal, to_escaped, to_hex};

fn card(uid: &str, resident_id: u32, apt: &str, added_date: &str) -> NFCCardData {
    NFCCardData {
        uid: uid.to_string(),
        resident_id,
        apt: apt.to_string(),
        added_date: added_date.to_string(),
    }
}

#[test]
fn identity_joins_the_fields_with_colons() {
    let data = card("04A1B2C3", 7, "12B", "2024-01-01 10:00:00");
    assert_eq!(data.identity(), "04A1B2C3:7:12B:2024-01-01 10:00:00");
}

#[test]
fn identity_of_empty_fields_keeps_the_colons() {
    assert_eq!(card("", 0, "", "").identity(), ":0::");
}

#[test]
fn hash_is_the_sha256_of_the_identity_in_lower_hex() {
    let data = card("04A1B2C3", 7, "12B", "2024-01-01 10:00:00");
    assert_eq!(
        data.generate_hash(),
        "fb513fac5597106e92b51e222cecddf0d0b8c0e09c4827e24911770f5c3241e8"
    );
}

#[test]
fn hash_of_other_inputs() {
    assert_eq!(
        card("04A1B2C3", 0, "12B", "x").generate_hash(),
        "7467e162ad3d1816cc037dc25bcbe1a2f57a85c0e0d39886d49b63e5690b222a"
    );
    assert_eq!(
        card("AA", 4294967295, "1", "2").generate_hash(),
        "2408d4fdb1121070f2f5c3ab11a841415f30523b3d9895d6be5264b479ed4399"
    );
}

#[test]
fn hash_is_deterministic_and_depends_on_every_field() {
    let base = card("04A1B2C3", 7, "12B", "2024-01-01 10:00:00");
    assert_eq!(base.generate_hash(), base.clone().generate_hash());
    assert_ne!(base.generate_hash(), card("04A1B2C4", 7, "12B", "2024-01-01 10:00:00").generate_hash());
    assert_ne!(base.generate_hash(), card("04A1B2C3", 8, "12B", "2024-01-01 10:00:00").generate_hash());
    assert_ne!(base.generate_hash(), card("04A1B2C3", 7, "12C", "2024-01-01 10:00:00").generate_hash());
    assert_ne!(base.generate_hash(), card("04A1B2C3", 7, "12B", "2024-01-01 10:00:01").generate_hash());
}

#[test]
fn hash_has_64_characters() {
    assert_eq!(card("", 0, "", "").generate_hash().len(), 64);
}

#[test]
fn encode_fills_all_pages_of_a_full_digest() {
    let digest = "fb513fac5597106e92b51e222cecddf0d0b8c0e09c4827e24911770f5c3241e8";
    let chunks = encode(digest).unwrap();
    assert_eq!(chunks.len(), PAGE_COUNT);
    assert_eq!(chunks[0], *b"fb51");
    assert_eq!(chunks[1], *b"3fac");
    assert_eq!(chunks[15], *b"41e8");
}

#[test]
fn encode_pads_a_short_digest_with_zeros() {
    let chunks = encode("abcde").unwrap();
    assert_eq!(chunks.len(), 16);
    assert_eq!(chunks[0], [b'a', b'b', b'c', b'd']);
    assert_eq!(chunks[1], [b'e', 0, 0, 0]);
    for page in 2..16 {
        assert_eq!(chunks[page], [0, 0, 0, 0]);
    }
}

#[test]
fn encode_of_nothing_is_all_zeros() {
    let chunks = encode("").unwrap();
    assert_eq!(chunks, vec![[0u8; 4]; 16]);
}

#[test]
fn encode_refuses_what_exceeds_the_capacity() {
    let digest = "a".repeat(CAPACITY + 1);
    assert_eq!(encode(&digest), Err(ErrorKind::CapacityExceeded));
    assert_eq!(encode(&"a".repeat(200)), Err(ErrorKind::CapacityExceeded));
}

#[test]
fn encode_accepts_exactly_the_capacity() {
    let digest = "z".repeat(CAPACITY);
    let chunks = encode(&digest).unwrap();
    assert_eq!(chunks[15], *b"zzzz");
}

#[test]
fn encode_counts_bytes_not_characters() {
    // 33 characters of two bytes each: 66 bytes.
    let digest = "\u{e9}".repeat(33);
    assert_eq!(encode(&digest), Err(ErrorKind::CapacityExceeded));
    // 32 of them fit exactly.
    assert!(encode(&"\u{e9}".repeat(32)).is_ok());
}

#[test]
fn decode_gives_back_what_was_encoded() {
    for digest in [
        "fb513fac5597106e92b51e222cecddf0d0b8c0e09c4827e24911770f5c3241e8",
        "abcde",
        "",
        "a",
        "gr\u{fc}\u{df}e \u{2764}",
    ] {
        let chunks = encode(digest).unwrap();
        assert_eq!(decode(&chunks), Ok(digest.to_string()));
    }
}

#[test]
fn decode_drops_only_the_zeros_at_the_end() {
    let chunks = vec![[b'a', 0, b'b', 0], [0, 0, 0, 0]];
    assert_eq!(decode(&chunks), Ok("a\0b".to_string()));
}

#[test]
fn decode_takes_a_final_nul_for_padding() {
    let chunks = encode("a\0").unwrap();
    assert_eq!(decode(&chunks), Ok("a".to_string()));
}

#[test]
fn decode_refuses_bytes_that_are_no_text() {
    let chunks = vec![[0xff, 0xfe, 0, 0]];
    assert_eq!(decode(&chunks), Err(ErrorKind::MalformedData));
    let cut = vec![[b'a', 0xc3, 0, 0]];
    assert_eq!(decode(&cut), Err(ErrorKind::MalformedData));
}

#[test]
fn decode_of_no_chunks_is_empty() {
    assert_eq!(decode(&[]), Ok(String::new()));
}

#[test]
fn text_from_bytes_trims_and_checks() {
    assert_eq!(text_from_bytes(vec![b'h', b'i', 0, 0, 0]), Ok("hi".to_string()));
    assert_eq!(text_from_bytes(vec![0, 0]), Ok(String::new()));
    assert_eq!(text_from_bytes(vec![0x80]), Err(ErrorKind::MalformedData));
}

#[test]
fn hex_in_both_cases() {
    assert_eq!(to_hex(&[0x04, 0xa1, 0xb2, 0xc3], true), "04A1B2C3");
    assert_eq!(to_hex(&[0x04, 0xa1, 0xb2, 0xc3], false), "04a1b2c3");
    assert_eq!(to_hex(&[0x00, 0xff, 0x10, 0x9f], false), "00ff109f");
    assert_eq!(to_hex(&[], true), "");
}

#[test]
fn decimal_without_leading_zeros() {
    assert_eq!(to_decimal(0), "0");
    assert_eq!(to_decimal(7), "7");
    assert_eq!(to_decimal(10), "10");
    assert_eq!(to_decimal(1905), "1905");
    assert_eq!(to_decimal(u32::MAX), "4294967295");
}

#[test]
fn messages_name_the_failure() {
    assert_eq!(ErrorKind::Timeout.message(), "Timeout waiting for card");
    assert_eq!(ErrorKind::NoReader.message(), "No reader selected");
    assert_eq!(
        ErrorKind::WriteFailed(12).message(),
        "Failed to write page 12 after 5 attempts. Card may be write-protected or incompatible."
    );
    assert_eq!(
        ErrorKind::VerificationMismatch.message(),
        "Hash verification failed - data mismatch"
    );
}

#[test]
fn identity_escapes_colons_and_backslashes_in_uid_and_apartment() {
    assert_eq!(card("A", 1, "1:2", "x").identity(), "A:1:1\\c2:x");
    assert_eq!(card("A", 1, "1", "2:x").identity(), "A:1:1:2:x");
    assert_eq!(card("a:b", 3, "c\\d", "10:00").identity(), "a\\cb:3:c\\\\d:10:00");
    assert_eq!(card("\\c", 3, "", "").identity(), "\\\\c:3::");
    assert_eq!(card(":", 3, "", "").identity(), "\\c:3::");
}

#[test]
fn cards_that_differ_only_in_where_a_colon_stands_have_different_hashes() {
    let a = card("A", 1, "1:2", "x");
    let b = card("A", 1, "1", "2:x");
    assert_ne!(a.identity(), b.identity());
    assert_ne!(a.generate_hash(), b.generate_hash());
    let c = card("A:1", 1, "2", "x");
    let d = card("A", 1, "1:2", "x");
    assert_ne!(c.generate_hash(), d.generate_hash());
    assert_ne!(card(":", 3, "", "").generate_hash(), card("\\c", 3, "", "").generate_hash());
}

#[test]
fn escaping_leaves_plain_fields_alone() {
    assert_eq!(to_escaped("04A1B2C3"), "04A1B2C3");
    assert_eq!(to_escaped(""), "");
    assert_eq!(to_escaped("gr\u{fc}n 12B"), "gr\u{fc}n 12B");
    assert_eq!(to_escaped("a:b\\c:"), "a\\cb\\\\c\\c");
}
