use hugo_server::server_error::{
    middleware_failure_status, site_failure_error, ErrorReply, ServerError, ServiceFailure,
};
use hugo_server::uploads::{
    download_source, file_not_found, upload_destination, upload_field_step, UploadFieldStep,
};

#[test]
fn internal_errors_hide_their_message() {
    let e = ServerError::internal("database password leaked".to_string());
    assert_eq!(e.status, 500);
    match e.reply() {
        ErrorReply::StatusOnly(s) => assert_eq!(s, 500),
        ErrorReply::WithMessage(..) => panic!("an internal error must not carry its message"),
    }
}

#[test]
fn other_errors_carry_their_message() {
    let e = ServerError::new(400, "Invalid path".to_string());
    match e.reply() {
        ErrorReply::WithMessage(s, m) => {
            assert_eq!(s, 400);
            assert_eq!(m, "Invalid path");
        }
        ErrorReply::StatusOnly(_) => panic!("expected a message"),
    }
}

#[test]
fn site_failures_map_to_statuses() {
    let t = site_failure_error(ServiceFailure::TimedOut);
    assert_eq!((t.status, t.message.as_str()), (408, "request timed out"));
    let o = site_failure_error(ServiceFailure::Overloaded);
    assert_eq!(
        (o.status, o.message.as_str()),
        (503, "service is overloaded, try again later")
    );
    let x = site_failure_error(ServiceFailure::Other("boom".to_string()));
    assert_eq!(
        (x.status, x.message.as_str()),
        (500, "unhandled internal error: boom")
    );
}

#[test]
fn middleware_failures_map_to_statuses() {
    assert_eq!(middleware_failure_status(&ServiceFailure::Overloaded), 503);
    assert_eq!(middleware_failure_status(&ServiceFailure::TimedOut), 500);
    assert_eq!(
        middleware_failure_status(&ServiceFailure::Other("x".to_string())),
        500
    );
}

#[test]
fn uploads_land_in_the_uploads_directory() {
    assert_eq!(upload_destination("photo.jpg").ok().unwrap(), "uploads/photo.jpg");
    // the sanitiser drops characters that are not allowed in file names
    assert_eq!(upload_destination("a:b?.txt").ok().unwrap(), "uploads/ab.txt");
}

#[test]
fn uploads_with_paths_are_refused() {
    for bad in ["../x", "/x", "a/b", "", "."] {
        let e = upload_destination(bad).err().unwrap();
        assert_eq!(e.status, 400);
        assert_eq!(e.message, "Invalid path");
    }
}

#[test]
fn downloads_read_from_the_uploads_directory() {
    assert_eq!(download_source("photo.jpg").ok().unwrap(), "uploads/photo.jpg");
    let e = download_source("../Cargo.toml").err().unwrap();
    assert_eq!((e.status, e.message.as_str()), (400, "Invalid path"));
}

#[test]
fn missing_downloads_are_not_found() {
    let e = file_not_found("No such file or directory (os error 2)");
    assert_eq!(e.status, 404);
    assert_eq!(
        e.message,
        "File not found: `No such file or directory (os error 2)`"
    );
}

#[test]
fn sanitising_removes_what_file_names_cannot_hold() {
    assert_eq!(upload_destination("a\u{85}b\u{1}c.txt").ok().unwrap(), "uploads/abc.txt");
    assert_eq!(upload_destination("\"q\"|*.md").ok().unwrap(), "uploads/q.md");
    // a name of dots only becomes empty
    assert_eq!(upload_destination("...").ok().unwrap(), "uploads/");
}

#[test]
fn sanitising_cuts_long_names_at_a_character_boundary() {
    let long = "a".repeat(300);
    assert_eq!(
        upload_destination(&long).ok().unwrap(),
        format!("uploads/{}", "a".repeat(255))
    );
    let wide = "é".repeat(200);
    assert_eq!(
        upload_destination(&wide).ok().unwrap(),
        format!("uploads/{}", "é".repeat(127))
    );
}

#[test]
fn multipart_parts_are_stored_skipped_or_end_the_upload() {
    assert!(matches!(upload_field_step(None), UploadFieldStep::Stop));
    assert!(matches!(upload_field_step(Some(None)), UploadFieldStep::Skip));
    match upload_field_step(Some(Some("a.txt".to_string()))) {
        UploadFieldStep::Store(name) => assert_eq!(name, "a.txt"),
        _ => panic!("expected the part to be stored"),
    }
}
