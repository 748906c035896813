use socketpair::peek_request_len;

#[test]
fn peek_request_is_whole_small_buffer() {
    assert_eq!(peek_request_len(11), 11);
    assert_eq!(peek_request_len(0), 0);
    assert_eq!(peek_request_len(4096), 4096);
}

#[test]
fn peek_request_is_capped_at_u32_max() {
    assert_eq!(peek_request_len(u32::MAX as usize), u32::MAX);
    assert_eq!(peek_request_len(usize::MAX), u32::MAX);
}
