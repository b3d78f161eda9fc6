use npc_imager::encode::make_name_urlsafe;
use npc_imager::encode::url_encode_str;

#[test]
fn simple_name_keeps_letters_and_digits() {
    assert_eq!(make_name_urlsafe("Guard2"), "Guard2");
}

#[test]
fn spaces_become_underscores() {
    assert_eq!(make_name_urlsafe("King Black Dragon"), "King_Black_Dragon");
}

#[test]
fn parentheses_are_escaped() {
    assert_eq!(
        make_name_urlsafe("Zulrah (serpentine)"),
        "Zulrah_%28serpentine%29"
    );
}

#[test]
fn ampersand_and_quotes_are_escaped() {
    assert_eq!(make_name_urlsafe("a&b \"c\""), "a%26b_%22c%22");
}

#[test]
fn empty_name_encodes_to_empty() {
    assert_eq!(make_name_urlsafe(""), "");
}

#[test]
fn unreserved_marks_survive() {
    assert_eq!(make_name_urlsafe("a-b.c_d~e"), "a-b.c_d~e");
}

#[test]
fn non_ascii_is_utf8_percent_encoded() {
    assert_eq!(make_name_urlsafe("\u{e9}"), "%C3%A9");
}

#[test]
fn output_has_no_raw_specials() {
    let out = make_name_urlsafe("A (very) odd & \"name\" +%!");
    for c in out.chars() {
        assert!(c != ' ' && c != '(' && c != ')' && c != '&' && c != '"');
    }
}

#[test]
fn url_encode_str_leaves_spaces_encoded_not_substituted() {
    assert_eq!(url_encode_str("a b"), "a%20b");
}

#[test]
fn encoder_matches_urlencoding_crate() {
    for name in [
        "Zulrah_(serpentine)",
        "TzTok-Jad",
        "K'ril Tsutsaroth",
        "Vet'ion \u{2764}",
        "100% luck",
    ] {
        assert_eq!(
            url_encode_str(name),
            urlencoding::encode(name).into_owned()
        );
    }
}

#[test]
fn round_trip_decodes_to_space_substituted_name() {
    for name in ["Zulrah (serpentine)", "K'ril & friends", "caf\u{e9} au lait"] {
        let token = make_name_urlsafe(name);
        let decoded = urlencoding::decode(&token).expect("token decodes");
        assert_eq!(decoded.into_owned(), name.replace(' ', "_"));
    }
}
