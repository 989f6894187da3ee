use nimbus::host::{CoreHostError, HostFxr, STATUS_BUFFER_TOO_SMALL};

fn probe_buffer(path: &[u8], capacity: usize) -> (Vec<u8>, usize) {
    let mut buffer = vec![0u8; capacity];
    buffer[..path.len()].copy_from_slice(path);
    (buffer, path.len() + 1)
}

#[test]
fn a_successful_probe_yields_the_path_without_its_terminator() {
    let (buffer, len) = probe_buffer(b"/usr/lib/host", 64);
    let host = HostFxr::load(0, buffer, len).expect("well-formed probe answer");
    assert_eq!(host.path, b"/usr/lib/host".to_vec());
}

#[test]
fn a_nonzero_status_means_the_buffer_was_too_small() {
    let (buffer, len) = probe_buffer(b"/usr/lib/host", 64);
    let err = HostFxr::load(STATUS_BUFFER_TOO_SMALL, buffer, len).unwrap_err();
    assert_eq!(err, CoreHostError::BufferTooSmall);
    let err = HostFxr::load(1, vec![0u8; 4], 1).unwrap_err();
    assert_eq!(err, CoreHostError::BufferTooSmall);
}

#[test]
fn a_missing_terminator_is_rejected() {
    // Last reported byte is not nul.
    let err = HostFxr::load(0, b"abcd".to_vec(), 4).unwrap_err();
    assert_eq!(err, CoreHostError::MissingNulTerminator);
    // Empty answer.
    let err = HostFxr::load(0, vec![0u8; 8], 0).unwrap_err();
    assert_eq!(err, CoreHostError::MissingNulTerminator);
    // Reported length beyond the buffer.
    let err = HostFxr::load(0, vec![0u8; 2], 3).unwrap_err();
    assert_eq!(err, CoreHostError::MissingNulTerminator);
}

#[test]
fn an_interior_nul_is_rejected() {
    let err = HostFxr::load(0, b"ab\0cd\0".to_vec(), 6).unwrap_err();
    assert_eq!(err, CoreHostError::MissingNulTerminator);
}

#[test]
fn an_empty_path_is_accepted() {
    let host = HostFxr::load(0, vec![0u8; 8], 1).expect("a lone terminator is a valid answer");
    assert!(host.path.is_empty());
}

#[test]
fn load_from_path_wraps_the_given_path() {
    let host = HostFxr::load_from_path(b"/opt/runtime".to_vec()).expect("always succeeds");
    assert_eq!(host.path, b"/opt/runtime".to_vec());
}

#[test]
fn status_words_map_to_errors() {
    assert_eq!(CoreHostError::from(STATUS_BUFFER_TOO_SMALL), CoreHostError::BufferTooSmall);
    assert_eq!(CoreHostError::from(0xDEAD), CoreHostError::UnknownError);
    assert_eq!(CoreHostError::from(0), CoreHostError::UnknownError);
}
