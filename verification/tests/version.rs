use baker_link_env::version::{build_version_label, short_hash};

#[test]
fn hashes_are_shortened_to_eight_characters() {
    assert_eq!(short_hash("0123456789abcdef"), "01234567");
    assert_eq!(short_hash("abc"), "abc");
    assert_eq!(short_hash(""), "");
    assert_eq!(short_hash("12345678"), "12345678");
}

#[test]
fn an_untagged_build_is_labelled_by_its_hash() {
    assert_eq!(build_version_label("", "0123456789abcdef"), "build 01234567");
}

#[test]
fn a_tagged_build_shows_the_tag_and_the_hash() {
    assert_eq!(build_version_label("v1.2.3", "0123456789abcdef"), "v1.2.3 (01234567)");
}
