use filey::catalog::{Catalog, UpsertOutcome};
use filey::error::Error;
use filey::mime::{finalize, record_from_guess, record_from_signature};
use filey::model::{File, FileModel, Visibility};
use filey::routes::{get_file, get_files, Mode};

const PNG_HEAD: [u8; 16] = [
    0x89, 0x50, 0x4E, 0x47, 0x0D, 0x0A, 0x1A, 0x0A, 0x00, 0x00, 0x00, 0x0D, 0x49, 0x48, 0x44, 0x52,
];

fn draft(id: u128, name: &str, visibility: Visibility, path: &str) -> File {
    File { id, name: name.to_string(), visibility, path: path.to_string() }
}

fn record(id: u128, name: &str, mime: &str, visibility: Visibility, path: &str) -> FileModel {
    FileModel {
        id,
        name: name.to_string(),
        mime: mime.to_string(),
        visibility,
        path: path.to_string(),
    }
}

#[test]
fn upsert_named_file_then_change_visibility() {
    let mut c = Catalog::new();
    let out = c.upsert(draft(7, "photo.jpg", Visibility::Public, "/tmp/photo.jpg"), &[]).unwrap();
    match out {
        UpsertOutcome::Inserted(m) => {
            assert_eq!(m.mime, "image/jpeg");
            assert_eq!(m.name, "photo.jpg");
        }
        other => panic!("expected an insert, got {:?}", other),
    }
    let out = c.upsert(draft(7, "other.png", Visibility::Private, "/elsewhere"), &[]).unwrap();
    assert!(matches!(out, UpsertOutcome::Updated { id: 7, visibility: Visibility::Private }));
    let all = c.list();
    assert_eq!(all.len(), 1);
    assert_eq!(all[0].id, 7);
    assert_eq!(all[0].name, "photo.jpg");
    assert_eq!(all[0].mime, "image/jpeg");
    assert_eq!(all[0].path, "/tmp/photo.jpg");
    assert_eq!(all[0].visibility, Visibility::Private);
}

#[test]
fn upsert_content_uri_sniffs_png() {
    let mut c = Catalog::new();
    let f = draft(1, "content://abc", Visibility::Public, "content://abc");
    assert!(c.needs_content(&f));
    c.upsert(f, &PNG_HEAD).unwrap();
    let all = c.list();
    assert_eq!(all[0].name, "content://abc.png");
    assert_eq!(all[0].mime, "image/png");
}

#[test]
fn upsert_unrecognised_content_fails_and_keeps_catalog() {
    let mut c = Catalog::new();
    let r = c.upsert(draft(1, "content://xyz", Visibility::Public, "content://xyz"), &[1, 2, 3]);
    assert!(matches!(r, Err(Error::FilesystemError(_))));
    assert!(c.list().is_empty());
}

#[test]
fn upsert_unknown_extension_is_octet_stream() {
    let mut c = Catalog::new();
    c.upsert(draft(3, "notes.zzqx", Visibility::Public, "/n"), &[]).unwrap();
    assert_eq!(c.list()[0].mime, "application/octet-stream");
}

#[test]
fn upsert_uses_last_dot() {
    let mut c = Catalog::new();
    c.upsert(draft(4, "archive.tar.gz", Visibility::Public, "/a"), &[]).unwrap();
    assert_eq!(c.list()[0].name, "archive.tar.gz");
    assert_eq!(c.list()[0].mime, "application/gzip");
}

#[test]
fn repeated_upsert_keeps_one_record_per_id() {
    let mut c = Catalog::new();
    for _ in 0..3 {
        c.upsert(draft(10, "a.txt", Visibility::Public, "/a.txt"), &[]).unwrap();
        c.upsert(draft(11, "b.txt", Visibility::Private, "/b.txt"), &[]).unwrap();
    }
    let all = c.list();
    assert_eq!(all.len(), 2);
    assert_eq!(all[0].id, 10);
    assert_eq!(all[1].id, 11);
    assert_eq!(all[0].mime, "text/plain");
}

#[test]
fn needs_content_only_for_new_names_without_extension() {
    let mut c = Catalog::new();
    assert!(!c.needs_content(&draft(1, "a.txt", Visibility::Public, "/a")));
    assert!(c.needs_content(&draft(1, "content://a", Visibility::Public, "/a")));
    c.upsert(draft(1, "content://a", Visibility::Public, "/a"), &PNG_HEAD).unwrap();
    assert!(!c.needs_content(&draft(1, "content://a", Visibility::Private, "/a")));
}

#[test]
fn private_record_is_neither_listed_nor_served() {
    let mut c = Catalog::new();
    c.upsert(draft(1, "pub.txt", Visibility::Public, "/pub.txt"), &[]).unwrap();
    c.upsert(draft(2, "secret.txt", Visibility::Private, "/secret.txt"), &[]).unwrap();
    let listing = get_files(&c);
    assert_eq!(listing.message, "Get all files success");
    assert_eq!(listing.data.len(), 1);
    assert_eq!(listing.data[0].id, 1);
    assert_eq!(listing.data[0].name, "pub.txt");
    assert_eq!(listing.data[0].mime, "text/plain");
    assert!(matches!(get_file(&c, 2, None), Err(Error::NotFound)));
}

#[test]
fn served_file_carries_type_and_disposition() {
    let mut c = Catalog::new();
    c.upsert(draft(5, "clip.mp4", Visibility::Public, "/v/clip.mp4"), &[]).unwrap();
    let s = get_file(&c, 5, None).unwrap();
    assert_eq!(s.path, "/v/clip.mp4");
    assert_eq!(s.content_type, "video/mp4");
    assert_eq!(s.disposition, "inline; filename=clip.mp4");
    let s = get_file(&c, 5, Some(Mode::Download)).unwrap();
    assert_eq!(s.disposition, "attachment; filename=clip.mp4");
    let s = get_file(&c, 5, Some(Mode::View)).unwrap();
    assert_eq!(s.disposition, "inline; filename=clip.mp4");
}

#[test]
fn deleted_file_is_not_found() {
    let mut c = Catalog::new();
    c.upsert(draft(9, "a.txt", Visibility::Public, "/a.txt"), &[]).unwrap();
    assert!(get_file(&c, 9, None).is_ok());
    c.delete(9).unwrap();
    assert!(matches!(get_file(&c, 9, None), Err(Error::NotFound)));
    assert!(c.list().is_empty());
}

#[test]
fn delete_missing_id_is_not_found() {
    let mut c = Catalog::new();
    c.upsert(draft(1, "a.txt", Visibility::Public, "/a.txt"), &[]).unwrap();
    assert!(matches!(c.delete(2), Err(Error::NotFound)));
    assert_eq!(c.list().len(), 1);
}

#[test]
fn delete_removes_exactly_one() {
    let mut c = Catalog::new();
    for id in 1..=3u128 {
        c.upsert(draft(id, "f.txt", Visibility::Public, "/f"), &[]).unwrap();
    }
    c.delete(2).unwrap();
    let ids: Vec<u128> = c.list().iter().map(|f| f.id).collect();
    assert_eq!(ids, vec![1, 3]);
}

#[test]
fn from_records_refuses_shared_ids() {
    let ok = Catalog::from_records(vec![
        record(1, "a.txt", "text/plain", Visibility::Public, "/a"),
        record(2, "b.txt", "text/plain", Visibility::Private, "/b"),
    ]);
    assert_eq!(ok.unwrap().list().len(), 2);
    let bad = Catalog::from_records(vec![
        record(1, "a.txt", "text/plain", Visibility::Public, "/a"),
        record(1, "b.txt", "text/plain", Visibility::Private, "/b"),
    ]);
    assert!(matches!(bad, Err(Error::CatalogError(_))));
}

#[test]
fn finalize_steps_take_outside_results() {
    let m = record_from_guess(draft(1, "x.jpg", Visibility::Public, "/x"), "image/jpeg".to_string());
    assert_eq!(m.name, "x.jpg");
    assert_eq!(m.mime, "image/jpeg");
    let m = record_from_signature(
        draft(2, "content://q", Visibility::Private, "content://q"),
        Some(("gif".to_string(), "image/gif".to_string())),
    )
    .unwrap();
    assert_eq!(m.name, "content://q.gif");
    assert_eq!(m.mime, "image/gif");
    assert_eq!(m.visibility, Visibility::Private);
    let e = record_from_signature(draft(3, "content://r", Visibility::Public, "/r"), None);
    assert!(matches!(e, Err(Error::FilesystemError(_))));
}

#[test]
fn finalize_reads_content_only_without_extension() {
    let m = finalize(draft(1, "doc.pdf", Visibility::Public, "/d"), &PNG_HEAD).unwrap();
    assert_eq!(m.name, "doc.pdf");
    assert_eq!(m.mime, "application/pdf");
    let m = finalize(draft(1, "doc", Visibility::Public, "/d"), &PNG_HEAD).unwrap();
    assert_eq!(m.name, "doc.png");
}
