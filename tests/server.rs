use favicon_rover::server::requested_size;

#[test]
fn sizes_asked_for() {
    assert_eq!(requested_size(Some("32")), 32);
    assert_eq!(requested_size(Some("0")), 256);
    assert_eq!(requested_size(Some("big")), 256);
    assert_eq!(requested_size(Some("-5")), 256);
    assert_eq!(requested_size(None), 256);
}
