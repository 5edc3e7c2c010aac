use file::dto::object::FileObject;
use file::ServiceError;

#[test]
fn key_from_name_and_guessed_type() {
    let f = FileObject::from_filename("report.pdf", None);
    assert_eq!(f.key, "report.pdf");
    assert_eq!(f.mimetype, "application/pdf");
    assert!(f.url.is_none());
}

#[test]
fn key_lists_every_extension_of_the_type() {
    let f = FileObject::from_filename("photo.png", None);
    assert_eq!(f.key, "photo.png.pnz");
    assert_eq!(f.mimetype, "image/png");
}

#[test]
fn given_type_decides_the_extension() {
    let f = FileObject::from_filename("doc.txt", Some("application/json"));
    assert_eq!(f.key, "doc.json");
    assert_eq!(f.mimetype, "application/json");
}

#[test]
fn unknown_type_keeps_the_name_extension() {
    let f = FileObject::from_filename("archive.tar.gz", Some("application/x-made-up"));
    assert_eq!(f.key, "archive.tar.gz");
    assert_eq!(f.mimetype, "application/x-made-up");
}

#[test]
fn unparsable_type_is_octet_stream() {
    let f = FileObject::from_filename("notes.pdf", Some("not a type"));
    assert_eq!(f.mimetype, "application/octet-stream");
    assert!(f.key.starts_with("notes."));
}

#[test]
fn name_without_extension_is_octet_stream() {
    let f = FileObject::from_filename("README", None);
    assert_eq!(f.mimetype, "application/octet-stream");
    assert!(f.key.starts_with("README"));
}

#[test]
fn from_key_keeps_the_key() {
    let f = FileObject::from_key("public/age.txt");
    assert_eq!(f.key, "public/age.txt");
    assert_eq!(f.mimetype, "");
    assert!(f.url.is_none());
}

#[test]
fn new_keeps_its_parts() {
    let f = FileObject::new("k".to_string(), "text/plain".to_string(), Some("u".to_string()));
    assert_eq!(f.key, "k");
    assert_eq!(f.mimetype, "text/plain");
    assert_eq!(f.url, Some("u".to_string()));
}

#[test]
fn from_url_resolves_a_path() {
    let f = FileObject::from_url("public/age.txt").unwrap();
    assert_eq!(f.key, "public/age.txt");
    assert_eq!(f.mimetype, "text/plain");
    assert_eq!(f.url, Some("https://example.com/public/age.txt".to_string()));
}

#[test]
fn from_url_reads_a_full_url() {
    let f = FileObject::from_url("https://cdn.example.com/a/b.json").unwrap();
    assert_eq!(f.key, "a/b.json");
    assert_eq!(f.mimetype, "application/json");
    assert_eq!(f.url, Some("https://cdn.example.com/a/b.json".to_string()));
}

#[test]
fn from_url_without_extension_is_octet_stream() {
    let f = FileObject::from_url("/folder/").unwrap();
    assert_eq!(f.key, "folder");
    assert_eq!(f.mimetype, "application/octet-stream");
}

#[test]
fn from_url_refuses_a_broken_url() {
    assert_eq!(FileObject::from_url("http://[::1").err(), Some(ServiceError::ServerError));
}
