use lightweight_mmap::HandleOpenError;
use lightweight_mmap::MmapError;

#[test]
fn open_error_keeps_code_and_path() {
    let e = HandleOpenError::failed_to_open_file_handle_unix(2, "/tmp/missing.bin");
    assert_eq!(
        e,
        HandleOpenError::FailedToOpenFileHandle(2, String::from("/tmp/missing.bin"))
    );
    let e = HandleOpenError::failed_to_open_file_handle(13, "/tmp/locked.bin");
    assert_eq!(
        e,
        HandleOpenError::FailedToOpenFileHandle(13, String::from("/tmp/locked.bin"))
    );
}

#[test]
fn convert_path_error_keeps_code_and_path() {
    let e = HandleOpenError::failed_to_convert_path(122, "bad\u{fffd}path");
    assert_eq!(
        e,
        HandleOpenError::FailedToConvertPath(122, String::from("bad\u{fffd}path"))
    );
}

#[test]
fn file_mapping_error_keeps_code_and_path() {
    let e = HandleOpenError::failed_to_create_file_mapping(8, "/tmp/map.bin");
    assert_eq!(
        e,
        HandleOpenError::FailedToCreateFileMapping(8, String::from("/tmp/map.bin"))
    );
}

#[test]
fn set_file_size_error_keeps_code() {
    let e = HandleOpenError::failed_to_set_file_size(28);
    assert_eq!(e, HandleOpenError::FailedToSetFileSize(28));
}

#[test]
fn handle_error_messages_are_exact() {
    assert_eq!(
        HandleOpenError::failed_to_open_file_handle_unix(2, "/tmp/missing.bin").message(),
        "Failed to open file handle. Error code: 2, Path: /tmp/missing.bin"
    );
    assert_eq!(
        HandleOpenError::failed_to_convert_path(122, "p").message(),
        "Failed to convert path to wide string. Error code: 122, Path: p"
    );
    assert_eq!(
        HandleOpenError::failed_to_create_file_mapping(0, "q").message(),
        "Failed to create file mapping. Error code: 0, Path: q"
    );
    assert_eq!(
        HandleOpenError::FailedToGetFileSize(-9).message(),
        "Failed to get file size. Error code: -9"
    );
    assert_eq!(
        HandleOpenError::failed_to_set_file_size(28).message(),
        "Failed to set file size. Error code: 28"
    );
}

#[test]
fn mmap_error_messages_are_exact() {
    assert_eq!(
        MmapError::failed_to_map_memory_unix(-22).message(),
        "Failed to map memory. Error code: -22"
    );
    assert_eq!(
        MmapError::failed_to_map_memory(12).message(),
        "Failed to map memory. Error code: 12"
    );
    assert_eq!(
        MmapError::mapping_failed("region collision").message(),
        "Mapping failed: region collision"
    );
    assert_eq!(
        MmapError::failed_to_get_file_size().message(),
        "Failed to get file size"
    );
}

#[test]
fn extreme_codes_format_exactly() {
    assert_eq!(
        MmapError::failed_to_map_memory_unix(i32::MIN).message(),
        "Failed to map memory. Error code: -2147483648"
    );
    assert_eq!(
        MmapError::failed_to_map_memory_unix(i32::MAX).message(),
        "Failed to map memory. Error code: 2147483647"
    );
    assert_eq!(
        HandleOpenError::failed_to_convert_path(u32::MAX, "w").message(),
        "Failed to convert path to wide string. Error code: 4294967295, Path: w"
    );
}

#[test]
fn mmap_error_constructors_agree() {
    assert_eq!(
        MmapError::failed_to_map_memory(5),
        MmapError::FailedToMapMemory(5)
    );
    assert_eq!(
        MmapError::failed_to_map_memory_unix(5),
        MmapError::FailedToMapMemory(5)
    );
    assert_eq!(
        MmapError::mapping_failed("x"),
        MmapError::MappingFailed(String::from("x"))
    );
    assert_eq!(
        MmapError::failed_to_get_file_size(),
        MmapError::FailedToGetFileSize
    );
}
