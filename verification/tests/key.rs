use filestorage_core::key::{inspect_key, invalid_key, validate_key, KeyFault};
use filestorage_core::StorageError;

fn rejected(reason: &str) -> Result<(), StorageError> {
    Err(StorageError::InvalidKey(reason.to_string()))
}

#[test]
fn plain_keys_are_accepted() {
    for key in [
        "a",
        "sample.txt",
        "a/b",
        "a/b/c/object.bin",
        "never-written",
        ".hidden",
        "..a",
        "a..",
        "...",
        "a/.../b",
        "a b/c d",
        "back\\slash",
        "C:",
        "clé/ß/文件",
    ] {
        assert_eq!(validate_key(key), Ok(()), "{key}");
    }
}

#[test]
fn empty_key_is_the_first_fault() {
    assert_eq!(validate_key(""), rejected("key cannot be empty"));
    assert_eq!(inspect_key(""), Err(KeyFault::Empty));
}

#[test]
fn absolute_key_is_the_second_fault() {
    for key in ["/", "/a", "/a/b", "//", "/..", "/a/../b", "/."] {
        assert_eq!(validate_key(key), rejected("absolute paths are not allowed"), "{key}");
        assert_eq!(inspect_key(key), Err(KeyFault::Absolute), "{key}");
    }
}

#[test]
fn parent_segments_are_rejected() {
    for key in ["..", "../escape", "../bad", "a/..", "a/../b", "a/b/..", "../..", "a/../../b"] {
        assert_eq!(validate_key(key), rejected("contains unsupported segments"), "{key}");
        assert_eq!(inspect_key(key), Err(KeyFault::UnsupportedSegment), "{key}");
    }
}

#[test]
fn current_directory_segments_are_rejected() {
    for key in [".", "./a", "a/.", "a/./b"] {
        assert_eq!(validate_key(key), rejected("contains unsupported segments"), "{key}");
    }
}

#[test]
fn empty_segments_are_rejected() {
    for key in ["a//b", "a/", "a/b/", "a///b", "a//"] {
        assert_eq!(validate_key(key), rejected("contains unsupported segments"), "{key}");
    }
}

#[test]
fn inspection_finds_the_last_segment() {
    assert_eq!(inspect_key("a"), Ok(0));
    assert_eq!(inspect_key("object.bin"), Ok(0));
    assert_eq!(inspect_key("a/b"), Ok(2));
    assert_eq!(inspect_key("a/b/c/object.bin"), Ok(6));
    assert_eq!(inspect_key("clé/ß/文件"), Ok(6));
}

#[test]
fn each_fault_has_its_reason() {
    assert_eq!(
        invalid_key(KeyFault::Empty),
        StorageError::InvalidKey("key cannot be empty".to_string())
    );
    assert_eq!(
        invalid_key(KeyFault::Absolute),
        StorageError::InvalidKey("absolute paths are not allowed".to_string())
    );
    assert_eq!(
        invalid_key(KeyFault::UnsupportedSegment),
        StorageError::InvalidKey("contains unsupported segments".to_string())
    );
}
