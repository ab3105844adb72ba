use filey::device::reveal_outcome;
use filey::error::Error;
use filey::model::{OsType, Visibility};
use filey::routes::{content_disposition, error_response, info, preflight, Mode, STATUS_INTERNAL_ERROR};
use filey::text::{extension, parent_dir, same_text, starts_with};

#[test]
fn visibility_tags_round_trip() {
    for v in [Visibility::Public, Visibility::Private] {
        assert_eq!(Visibility::from_tag(v.as_str()), Some(v));
    }
    assert_eq!(Visibility::Public.as_str(), "public");
    assert_eq!(Visibility::from_tag("Public"), None);
}

#[test]
fn os_tags_round_trip() {
    let all = [OsType::Linux, OsType::Windows, OsType::Macos, OsType::Ios, OsType::Android];
    let tags = ["linux", "windows", "macos", "ios", "android"];
    for (os, tag) in all.iter().zip(tags.iter()) {
        assert_eq!(os.as_str(), *tag);
        assert_eq!(OsType::from_tag(tag), Some(*os));
    }
    assert_eq!(OsType::from_tag("darwin"), None);
}

#[test]
fn fixed_envelopes() {
    assert_eq!(preflight().message, "Preflight request passed");
    let i = info(OsType::Linux);
    assert_eq!(i.message, "This Filey server is healthy");
    assert_eq!(i.data, OsType::Linux);
}

#[test]
fn error_envelope_carries_message() {
    assert_eq!(STATUS_INTERNAL_ERROR, 500);
    assert_eq!(error_response(&Error::NotFound).message, "File not found");
    assert_eq!(
        error_response(&Error::CatalogError("disk full".to_string())).message,
        "Catalog error: disk full"
    );
    assert_eq!(Error::AlreadyRunning.message(), "The server is already running");
}

#[test]
fn dispositions() {
    assert_eq!(content_disposition(Mode::View, "a b.txt"), "inline; filename=a b.txt");
    assert_eq!(content_disposition(Mode::Download, "x"), "attachment; filename=x");
}

#[test]
fn reveal_judges_error_stream() {
    assert!(reveal_outcome("/a", "").is_ok());
    match reveal_outcome("/a", "boom") {
        Err(Error::CommandExecutionFailure(d)) => assert_eq!(d, "Cannot reveal path: /a.\nError: boom"),
        other => panic!("unexpected {:?}", other),
    }
}

#[test]
fn text_helpers() {
    assert_eq!(extension("photo.jpg"), Some("jpg".to_string()));
    assert_eq!(extension("a.b.c"), Some("c".to_string()));
    assert_eq!(extension("file."), Some(String::new()));
    assert_eq!(extension("content://abc"), None);
    assert_eq!(parent_dir("/home/u/data.db", '/'), Some("/home/u".to_string()));
    assert_eq!(parent_dir("data.db", '/'), None);
    assert!(same_text("é", "é"));
    assert!(!same_text("ab", "abc"));
    assert!(starts_with("192.168.0.1", "192.168."));
    assert!(!starts_with("19", "192"));
}

#[test]
fn every_error_has_its_text() {
    let cases = [
        (Error::AlreadyRunning, "The server is already running"),
        (Error::BindFailure("in use".to_string()), "Cannot listen on the peer port: in use"),
        (Error::PeerUnreachable("timeout".to_string()), "Peer unreachable: timeout"),
        (Error::NotFound, "File not found"),
        (Error::FilesystemError("denied".to_string()), "File system error: denied"),
        (Error::CatalogError("locked".to_string()), "Catalog error: locked"),
        (Error::CommandExecutionFailure("x".to_string()), "Command ran and returned error: x"),
    ];
    for (err, text) in cases {
        assert_eq!(err.message(), text);
    }
}
