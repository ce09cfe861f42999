use seriesq::channel::Channel;

#[test]
fn channel_starts_quiet() {
    let ch = Channel::new();
    assert!(!ch.brq);
    assert!(!ch.bgr);
    assert!(!ch.check_pending());
}

#[test]
fn request_raises_brq() {
    let mut ch = Channel::new();
    ch.request();
    assert!(ch.brq);
    assert!(ch.check_pending());
}

#[test]
fn open_ends_the_handshake() {
    let mut ch = Channel::new();
    ch.request();
    ch.open();
    assert!(!ch.brq);
    assert!(!ch.bgr);
    assert!(!ch.check_pending());
}

#[test]
fn clone_observes_the_same_lines() {
    let mut ch = Channel::new();
    ch.request();
    let handle = Channel::clone(&ch);
    assert_eq!(handle, ch);
    assert!(handle.check_pending());
}
