use ocomp::upload::{field_file_name, UploadError, UploadSession};

#[test]
fn zero_fields_is_no_file_uploaded() {
    let s = UploadSession::new("/up/build-1".to_string());
    let r = s.finish();
    assert_eq!(r, Err(UploadError::NoFileUploaded));
    assert_eq!(UploadError::NoFileUploaded.message(), "No file uploaded");
}

#[test]
fn one_field_stages_one_identical_file() {
    let mut s = UploadSession::new("/up/build-1".to_string());
    let data = b"fn main(){}".to_vec();
    let w = s.receive_field(Some("main.rs".to_string()), data.clone()).expect("plain name");
    assert_eq!(w.path, "/up/build-1/main.rs");
    assert_eq!(w.bytes, data);
    assert_eq!(s.finish(), Ok(vec![("main.rs".to_string(), 11)]));
}

#[test]
fn unnamed_fields_share_the_default_name() {
    assert_eq!(field_file_name(None), "uploaded_file");
    assert_eq!(field_file_name(Some("a.go".to_string())), "a.go");
    let mut s = UploadSession::new("/w".to_string());
    let a = s.receive_field(None, vec![1]).expect("default name");
    let b = s.receive_field(None, vec![2, 3]).expect("default name");
    assert_eq!(a.path, "/w/uploaded_file");
    assert_eq!(b.path, a.path);
    assert_eq!(
        s.finish(),
        Ok(vec![("uploaded_file".to_string(), 1), ("uploaded_file".to_string(), 2)])
    );
}

#[test]
fn upload_error_messages() {
    let e = UploadError::ReadField { error: "bad boundary".to_string() };
    assert_eq!(e.message(), "Error reading field: bad boundary");
    let e = UploadError::ReadFile { error: "eof".to_string() };
    assert_eq!(e.message(), "Error reading file: eof");
    let e = UploadError::SaveFile { error: "denied".to_string() };
    assert_eq!(e.message(), "Failed to save file: denied");
    let e = UploadError::InvalidFileName { name: "../x".to_string() };
    assert_eq!(e.message(), "Invalid file name: ../x");
}

#[test]
fn names_that_leave_the_workspace_are_refused() {
    let mut s = UploadSession::new("/up/build-1".to_string());
    for bad in ["/etc/passwd", "../build-2/main.rs", "..", ".", "a/b", "a\\b", ""] {
        assert_eq!(
            s.receive_field(Some(bad.to_string()), vec![1]).err(),
            Some(UploadError::InvalidFileName { name: bad.to_string() })
        );
    }
    assert_eq!(s.finish(), Err(UploadError::NoFileUploaded));
}

#[test]
fn dotted_plain_names_are_accepted() {
    let mut s = UploadSession::new("/w".to_string());
    let w = s.receive_field(Some("..hidden".to_string()), vec![7]).expect("plain name");
    assert_eq!(w.path, "/w/..hidden");
    let w = s.receive_field(Some(".env".to_string()), vec![]).expect("plain name");
    assert_eq!(w.path, "/w/.env");
}
