use planet_server::ids::{new_participant_id, participant_from_text, participant_text};

#[test]
fn participant_text_is_hyphenated_lowercase() {
    let text = participant_text(0x0123_4567_89ab_cdef_0123_4567_89ab_cdef);
    assert_eq!(text, "01234567-89ab-cdef-0123-456789abcdef");
}

#[test]
fn participant_text_of_zero() {
    assert_eq!(participant_text(0), "00000000-0000-0000-0000-000000000000");
}

#[test]
fn participant_from_text_reads_what_was_written() {
    let id: u128 = 0xfedc_ba98_7654_3210_0f1e_2d3c_4b5a_6978;
    let text = participant_text(id);
    assert_eq!(participant_from_text(&text), Some(id));
}

#[test]
fn participant_from_text_reads_upper_case_and_plain_forms() {
    assert_eq!(
        participant_from_text("01234567-89AB-CDEF-0123-456789ABCDEF"),
        Some(0x0123_4567_89ab_cdef_0123_4567_89ab_cdef)
    );
    assert_eq!(
        participant_from_text("0123456789abcdef0123456789abcdef"),
        Some(0x0123_4567_89ab_cdef_0123_4567_89ab_cdef)
    );
}

#[test]
fn participant_from_text_refuses_what_is_no_identifier() {
    assert_eq!(participant_from_text(""), None);
    assert_eq!(participant_from_text("rock_1"), None);
    assert_eq!(participant_from_text("01234567-89ab-cdef-0123-456789abcde"), None);
}

#[test]
fn new_participant_ids_differ() {
    let a = new_participant_id();
    let b = new_participant_id();
    assert_ne!(a, b);
}

#[test]
fn new_participant_id_is_a_version_four_identifier() {
    for _ in 0..64 {
        let id = new_participant_id();
        assert_eq!(id / 0x1000_0000_0000_0000_0000 % 16, 4);
        assert_eq!(id / 0x4000_0000_0000_0000 % 4, 2);
        let text = participant_text(id);
        assert_eq!(text.len(), 36);
        assert_eq!(text.as_bytes()[14], b'4');
        assert!(matches!(text.as_bytes()[19], b'8' | b'9' | b'a' | b'b'));
    }
}
