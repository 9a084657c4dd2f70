use lrnprof::errors::{LocateError, ReadError};
use lrnprof::locate::{
    base_from_region_reply, executable_path_from_listing, leading_bytes_from_reply, leading_magic,
};
use lrnprof::remote::{check_read, ReadReply};

#[test]
fn full_read_passes_the_bytes_through() {
    let bytes = vec![1, 2, 3, 4];
    let out = check_read(0x1000, 4, ReadReply::Bytes(bytes.clone())).expect("full read");
    assert_eq!(out, bytes);
}

#[test]
fn failed_read_carries_address_and_code() {
    match check_read(0x1000, 16, ReadReply::Failed(2)) {
        Err(ReadError::RemoteRead {
            address,
            requested_length,
            kernel_code,
        }) => {
            assert_eq!(address, 0x1000);
            assert_eq!(requested_length, 16);
            assert_eq!(kernel_code, 2);
        }
        other => panic!("expected RemoteRead, got {:?}", other),
    }
}

#[test]
fn short_read_is_its_own_error() {
    match check_read(0x2000, 16, ReadReply::Bytes(vec![0; 7])) {
        Err(ReadError::ShortRead {
            address,
            requested_length,
            actual_length,
        }) => {
            assert_eq!(address, 0x2000);
            assert_eq!(requested_length, 16);
            assert_eq!(actual_length, 7);
        }
        other => panic!("expected ShortRead, got {:?}", other),
    }
}

#[test]
fn region_reply_success_gives_base_address() {
    assert_eq!(base_from_region_reply(0, 0x100000000), Ok(0x100000000));
    match base_from_region_reply(1, 0) {
        Err(LocateError::ImageLocate { kernel_code }) => assert_eq!(kernel_code, 1),
        other => panic!("expected ImageLocate, got {:?}", other),
    }
}

#[test]
fn leading_bytes_pass_through_on_a_full_read() {
    let bytes = vec![0xcf, 0xfa, 0xed, 0xfe];
    let window = leading_bytes_from_reply(0x100000000, 4, ReadReply::Bytes(bytes.clone()))
        .expect("a full read locates the image");
    assert_eq!(window, bytes);
}

#[test]
fn failed_leading_bytes_read_fails_the_locate_stage() {
    match leading_bytes_from_reply(0x100000000, 32, ReadReply::Failed(2)) {
        Err(LocateError::ImageLocate { kernel_code }) => assert_eq!(kernel_code, 2),
        other => panic!("expected ImageLocate, got {:?}", other),
    }
}

#[test]
fn short_leading_bytes_read_fails_the_locate_stage() {
    match leading_bytes_from_reply(0x100000000, 32, ReadReply::Bytes(vec![0; 5])) {
        Err(LocateError::ImageLocate { kernel_code }) => assert_eq!(kernel_code, 0),
        other => panic!("expected ImageLocate, got {:?}", other),
    }
}

#[test]
fn listing_first_line_is_the_path() {
    let listing = b"/usr/bin/target\n/another/line\n".to_vec();
    let path = executable_path_from_listing(&listing).expect("a path is listed");
    assert_eq!(path, b"/usr/bin/target".to_vec());
}

#[test]
fn listing_without_newline_is_taken_whole() {
    let listing = b"/usr/bin/target".to_vec();
    let path = executable_path_from_listing(&listing).expect("a path is listed");
    assert_eq!(path, b"/usr/bin/target".to_vec());
}

#[test]
fn empty_listing_is_path_not_found() {
    assert_eq!(
        executable_path_from_listing(&Vec::new()),
        Err(LocateError::PathNotFound)
    );
    assert_eq!(
        executable_path_from_listing(&b"\nlate line".to_vec()),
        Err(LocateError::PathNotFound)
    );
}

#[test]
fn leading_magic_reads_the_first_word() {
    let bytes = vec![0xcf, 0xfa, 0xed, 0xfe, 0x99];
    assert_eq!(leading_magic(&bytes), Some(0xfeedfacf));
    assert_eq!(leading_magic(&vec![1, 2, 3]), None);
}
