use filey::error::Error;
use filey::lifecycle::ServerLifecycle;

#[test]
fn start_twice_fails_with_already_running() {
    let mut l: ServerLifecycle<&str> = ServerLifecycle::new();
    let t = l.start("first").unwrap();
    assert!(l.is_running());
    assert!(matches!(l.start("second"), Err(Error::AlreadyRunning)));
    assert_eq!(l.stop(), Some("first"));
    assert!(!l.is_running());
    let t2 = l.start("third").unwrap();
    assert_ne!(t, t2);
}

#[test]
fn stop_before_start_is_a_no_op() {
    let mut l: ServerLifecycle<u8> = ServerLifecycle::new();
    assert_eq!(l.stop(), None);
    assert!(!l.is_running());
    assert_eq!(l.stop(), None);
}

#[test]
fn finish_clears_only_its_own_server() {
    let mut l: ServerLifecycle<u8> = ServerLifecycle::new();
    let a = l.start(1).unwrap();
    assert_eq!(l.stop(), Some(1));
    let b = l.start(2).unwrap();
    assert_eq!(l.finish(a), None);
    assert!(l.is_running());
    assert_eq!(l.finish(b), Some(2));
    assert!(!l.is_running());
}
