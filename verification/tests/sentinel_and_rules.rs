use plum_vendor::rules::{is_copy_restricted, is_surfaced, member_binding_name};
use plum_vendor::sentinel::{
    PLUM_MAX_MEMORY_SIZE, PLUM_MODE_BUFFER, PLUM_MODE_CALLBACK, PLUM_MODE_FILENAME,
};

#[test]
fn sentinels_are_the_four_highest_values() {
    assert_eq!(PLUM_MODE_FILENAME, usize::MAX);
    assert_eq!(PLUM_MODE_BUFFER, usize::MAX - 1);
    assert_eq!(PLUM_MODE_CALLBACK, usize::MAX - 2);
    assert_eq!(PLUM_MAX_MEMORY_SIZE, usize::MAX - 3);
}

#[test]
fn sentinels_are_pairwise_distinct_and_descending() {
    let all = [
        PLUM_MODE_FILENAME,
        PLUM_MODE_BUFFER,
        PLUM_MODE_CALLBACK,
        PLUM_MAX_MEMORY_SIZE,
    ];
    for i in 0..all.len() {
        for j in 0..all.len() {
            if i != j {
                assert_ne!(all[i], all[j]);
            }
        }
    }
    assert!(PLUM_MODE_FILENAME > PLUM_MODE_BUFFER);
    assert!(PLUM_MODE_BUFFER > PLUM_MODE_CALLBACK);
    assert!(PLUM_MODE_CALLBACK > PLUM_MAX_MEMORY_SIZE);
}

#[test]
fn namespaced_identifiers_are_surfaced() {
    assert!(is_surfaced(b"plum_load_image"));
    assert!(is_surfaced(b"plum_image_types"));
    assert!(is_surfaced(b"plum_"));
}

#[test]
fn other_identifiers_are_not_surfaced() {
    assert!(!is_surfaced(b"plu"));
    assert!(!is_surfaced(b"PLUM_MODE_FILENAME"));
    assert!(!is_surfaced(b"jpeg_read_header"));
    assert!(!is_surfaced(b""));
    assert!(!is_surfaced(b"plumx_thing"));
}

#[test]
fn exactly_the_four_allocator_owned_shapes_are_copy_restricted() {
    assert!(is_copy_restricted(b"plum_buffer"));
    assert!(is_copy_restricted(b"plum_callback"));
    assert!(is_copy_restricted(b"plum_metadata"));
    assert!(is_copy_restricted(b"plum_image"));

    assert!(!is_copy_restricted(b"plum_rectangle"));
    assert!(!is_copy_restricted(b"plum_buffer2"));
    assert!(!is_copy_restricted(b"plum_imag"));
    assert!(!is_copy_restricted(b"buffer"));
    assert!(!is_copy_restricted(b""));
}

#[test]
fn enum_members_keep_their_bare_names() {
    let bare = member_binding_name(b"plum_image_types", b"PLUM_IMAGE_PNG", false);
    assert_eq!(bare, b"PLUM_IMAGE_PNG".to_vec());
}

#[test]
fn prepending_the_container_joins_the_names() {
    let joined = member_binding_name(b"plum_image_types", b"PLUM_IMAGE_PNG", true);
    assert_eq!(joined, b"plum_image_types_PLUM_IMAGE_PNG".to_vec());
}
