use ck3_community_title_project::text::{concat2, concat3, str_eq, with_bom};

#[test]
fn str_eq_tells_equal_from_different() {
    assert!(str_eq("", ""));
    assert!(str_eq("l_english", "l_english"));
    assert!(str_eq("Badawī", "Badawī"));
    assert!(!str_eq("l_english", "l_english:"));
    assert!(!str_eq("l_english", "l_englisH"));
    assert!(!str_eq("a", ""));
    assert!(!str_eq("é", "e\u{301}"));
}

#[test]
fn concat_joins_in_order() {
    assert_eq!(concat2("bedouin", "_prefix"), "bedouin_prefix");
    assert_eq!(concat2("", ""), "");
    assert_eq!(concat3("heritage_", "arabic", "_name"), "heritage_arabic_name");
    assert_eq!(concat3("ʿ", "", "ī"), "ʿī");
}

#[test]
fn with_bom_puts_the_marker_before_the_utf8_text() {
    assert_eq!(with_bom(""), vec![0xEF, 0xBB, 0xBF]);
    assert_eq!(with_bom("l_english:\n"), b"\xEF\xBB\xBFl_english:\n".to_vec());
    let bytes = with_bom("Badawī");
    assert_eq!(&bytes[..3], &[0xEF, 0xBB, 0xBF]);
    assert_eq!(&bytes[3..], "Badawī".as_bytes());
    assert_eq!(bytes.len(), 3 + 7);
}
