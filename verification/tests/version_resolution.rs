use plum_vendor::version::release_tag_of;

#[test]
fn tag_is_the_build_metadata_segment() {
    assert_eq!(release_tag_of(b"0.1.0+v1.2"), b"v1.2".to_vec());
    assert_eq!(release_tag_of(b"2.3.4-rc.1+v20.1"), b"v20.1".to_vec());
}

#[test]
fn tag_keeps_everything_after_the_first_plus() {
    assert_eq!(release_tag_of(b"1.0.0+a+b"), b"a+b".to_vec());
}

#[test]
fn version_without_build_metadata_has_no_tag() {
    assert_eq!(release_tag_of(b"0.1.0"), Vec::<u8>::new());
    assert_eq!(release_tag_of(b""), Vec::<u8>::new());
}

#[test]
fn empty_build_metadata_has_no_tag() {
    assert_eq!(release_tag_of(b"0.1.0+"), Vec::<u8>::new());
}
