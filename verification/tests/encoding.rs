use httpmock::encoding::{url_encoded, Encoding, MaybeEncoded, URLEncodedExtension};

#[test]
fn tagged_value_from_string_keeps_text_and_has_no_tag() {
    let tagged = MaybeEncoded::<String>::from(String::from("a b&c=d/e?f"));
    assert_eq!(tagged.value(), "a b&c=d/e?f");
    assert_eq!(tagged.encoding(), None);
    assert!(!tagged.is_url_encoded());
}

#[test]
fn tagged_value_from_str_keeps_text_and_has_no_tag() {
    let tagged = MaybeEncoded::<String>::from("100% \u{e9}t\u{e9}");
    assert_eq!(tagged.value().as_bytes(), "100% \u{e9}t\u{e9}".as_bytes());
    assert_eq!(tagged.encoding(), None);
}

#[test]
fn conversion_into_tagged_value() {
    let tagged: MaybeEncoded<String> = "plain".into();
    assert_eq!(tagged.value(), "plain");
    let tagged: MaybeEncoded<String> = String::from("owned").into();
    assert_eq!(tagged.into_value(), "owned");
}

#[test]
fn url_encoded_marks_the_value_and_does_not_encode_it() {
    let tagged: MaybeEncoded<String> = url_encoded(String::from("a b&c=d/e?f"));
    assert_eq!(tagged.value(), "a b&c=d/e?f");
    assert_eq!(tagged.encoding(), Some(Encoding::URL));
    assert!(tagged.is_url_encoded());
}

#[test]
fn url_encoded_of_a_slice_stores_the_text_as_it_is() {
    let tagged = url_encoded::<String, &str>("a b/%20&c");
    assert_eq!(tagged.value(), "a b/%20&c");
    assert_ne!(tagged.value(), "a%20b%2F%2520%26c");
    assert_ne!(tagged.value(), "a b/ &c");
    assert_eq!(tagged.encoding(), Some(Encoding::URL));
}

#[test]
fn url_encoded_takes_what_converts_into_the_stored_type() {
    let tagged: MaybeEncoded<String> = url_encoded("x y");
    assert_eq!(tagged.value(), "x y");
    assert!(tagged.is_url_encoded());
    let number: MaybeEncoded<u64> = url_encoded(7u32);
    assert_eq!(*number.value(), 7u64);
    assert!(number.is_url_encoded());
}

#[test]
fn url_encoded_on_text_where_it_stands() {
    let from_str = "a/b c".url_encoded();
    assert_eq!(from_str.value(), "a/b c");
    assert!(from_str.is_url_encoded());
    let owned = String::from("%41 stays %41");
    let from_string = owned.url_encoded();
    assert_eq!(from_string.value(), "%41 stays %41");
    assert!(from_string.is_url_encoded());
    assert_eq!(owned, "%41 stays %41");
}

#[test]
fn copying_preserves_value_and_tag() {
    let tagged: MaybeEncoded<String> = url_encoded(String::from("q=1 2"));
    let copy: MaybeEncoded<String> = (&tagged).into();
    assert_eq!(copy.value(), tagged.value());
    assert_eq!(copy.encoding(), Some(Encoding::URL));
    let plain = MaybeEncoded::<String>::from("p");
    let copy = MaybeEncoded::<String>::from(&plain);
    assert_eq!(copy.value(), "p");
    assert_eq!(copy.encoding(), None);
}

#[test]
fn text_is_read_back_unchanged_whatever_the_tag() {
    let texts = ["", " ", "a+b", "caf\u{e9}", "\u{1F600} face", "line\nbreak", "%zz"];
    for text in texts {
        let plain = MaybeEncoded::<String>::from(text);
        let marked: MaybeEncoded<String> = url_encoded(String::from(text));
        assert_eq!(plain.value().as_bytes(), text.as_bytes());
        assert_eq!(marked.value().as_bytes(), text.as_bytes());
    }
}
