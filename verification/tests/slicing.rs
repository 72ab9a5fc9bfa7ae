use stringslice::range_to_begin_end;
use stringslice::CharBound;
use stringslice::CharRange;
use stringslice::StringSlice;

#[test]
#[should_panic]
fn test_bad_range() {
    "string".slice(CharRange { start: CharBound::Included(4), end: CharBound::Excluded(1) });
}

#[test]
fn test_try_bad_range() {
    assert_eq!(
        "string".try_slice(CharRange { start: CharBound::Included(4), end: CharBound::Excluded(1) }),
        None
    );
}

#[test]
fn test_large_range() {
    assert_eq!(
        "test_string".slice(CharRange { start: CharBound::Included(0), end: CharBound::Excluded(500) }),
        "test_string"
    );
}

#[test]
fn test_range_types() {
    assert_eq!(
        "test_string".slice(CharRange { start: CharBound::Unbounded, end: CharBound::Unbounded }),
        "test_string"
    );
    assert_eq!(
        "test_string".slice(CharRange { start: CharBound::Included(5), end: CharBound::Unbounded }),
        "string"
    );
    assert_eq!(
        "test_string".slice(CharRange { start: CharBound::Unbounded, end: CharBound::Excluded(8) }),
        "test_str"
    );
    assert_eq!(
        "test_string".slice(CharRange { start: CharBound::Included(5), end: CharBound::Excluded(8) }),
        "str"
    );
    assert_eq!(
        "test_string".slice(CharRange { start: CharBound::Included(5), end: CharBound::Included(7) }),
        "str"
    );
    assert_eq!(
        "test_string".slice(CharRange { start: CharBound::Excluded(4), end: CharBound::Included(7) }),
        "str"
    );
}

#[test]
fn test_wide_symbol() {
    assert_eq!(
        "Ùníc😎de".slice(CharRange { start: CharBound::Included(4), end: CharBound::Excluded(5) }),
        "😎"
    );
    assert_eq!(
        "Ùníc😎de".try_slice(CharRange { start: CharBound::Included(4), end: CharBound::Excluded(5) }),
        Some("😎")
    );
}

#[test]
fn test_multibyte_tail() {
    assert_eq!(
        "世界こんにちは".slice(CharRange { start: CharBound::Included(2), end: CharBound::Unbounded }),
        "こんにちは"
    );
}

#[test]
fn test_substring() {
    assert_eq!("Γεια σου κόσμε".substring(9, 14), "κόσμε");
    assert_eq!("Ùníc😎de".substring(4, 5), "😎");
}

#[test]
fn test_try_substring() {
    assert_eq!("Ùníc😎de".try_substring(4, 5), Some("😎"));
    assert_eq!("string".try_substring(4, 1), None);
}

#[test]
fn test_begin_past_end_clamps_to_empty() {
    assert_eq!("abc".substring(10, 20), "");
    assert_eq!("abc".try_substring(10, 20), Some(""));
    assert_eq!("".substring(0, 5), "");
}

#[test]
fn test_begin_equals_end() {
    assert_eq!("abc".substring(2, 2), "");
    assert_eq!("abc".try_substring(0, 0), Some(""));
    assert_eq!(
        "Ùníc😎de".slice(CharRange { start: CharBound::Included(4), end: CharBound::Excluded(4) }),
        ""
    );
}

#[test]
fn test_end_clamps_to_text_end() {
    assert_eq!("abc".substring(1, 10), "bc");
    assert_eq!("世界こんにちは".substring(5, 100), "ちは");
}

#[test]
fn test_identity_range() {
    assert_eq!(
        "Ùníc😎de".slice(CharRange { start: CharBound::Unbounded, end: CharBound::Unbounded }),
        "Ùníc😎de"
    );
    assert_eq!("".slice(CharRange { start: CharBound::Unbounded, end: CharBound::Unbounded }), "");
}

#[test]
fn test_range_to_begin_end_values() {
    assert_eq!(
        range_to_begin_end(CharRange { start: CharBound::Included(5), end: CharBound::Excluded(8) }),
        (5, 8)
    );
    assert_eq!(
        range_to_begin_end(CharRange { start: CharBound::Excluded(4), end: CharBound::Included(7) }),
        (5, 8)
    );
    assert_eq!(
        range_to_begin_end(CharRange { start: CharBound::Unbounded, end: CharBound::Unbounded }),
        (0, usize::MAX)
    );
}

#[test]
fn test_bound_kind_equivalence_values() {
    let excluded_start =
        "test_string".slice(CharRange { start: CharBound::Excluded(4), end: CharBound::Excluded(8) });
    let included_start =
        "test_string".slice(CharRange { start: CharBound::Included(5), end: CharBound::Excluded(8) });
    assert_eq!(excluded_start, included_start);

    let included_end =
        "test_string".slice(CharRange { start: CharBound::Included(5), end: CharBound::Included(7) });
    let excluded_end =
        "test_string".slice(CharRange { start: CharBound::Included(5), end: CharBound::Excluded(8) });
    assert_eq!(included_end, excluded_end);
}

#[test]
fn test_result_lies_on_scalar_boundaries() {
    let text = "Ùníc😎de";
    let r = text.slice(CharRange { start: CharBound::Included(4), end: CharBound::Excluded(5) });
    assert_eq!(r.as_bytes(), "😎".as_bytes());
    assert_eq!(r.as_bytes().len(), 4);

    let tail = "世界こんにちは".slice(CharRange { start: CharBound::Included(2), end: CharBound::Unbounded });
    assert_eq!(tail.as_bytes(), "こんにちは".as_bytes());
}
