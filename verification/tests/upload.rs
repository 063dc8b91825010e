use violetta::handle_upload;
use violetta::retrieve_media;
use violetta::rocket;

#[test]
fn upload_file() {
    let mut app = rocket();
    let body = vec![0u8; 1024];
    let (status, response_body) = handle_upload(
        &app.config,
        &mut app.store,
        None,
        "image/png",
        body,
    );
    assert_eq!(status, 200);
    assert_eq!(response_body.successful, true);
    assert!(response_body.file_id.is_some());
    let file_id = response_body.file_id.unwrap();
    let retrieved = retrieve_media(&file_id, &app.config, &app.store);
    assert_eq!(retrieved.unwrap().1.as_slice(), [0u8; 1024]);
}

#[test]
fn upload_png_scenario() {
    // PUT with 1024 zero bytes as image/png, no secret configured:
    // a successful envelope carrying the derived digest, and a GET of
    // that digest serving the same 1024 zero bytes back.
    let mut app = rocket();
    let body = vec![0u8; 1024];
    let (status, response) = handle_upload(&app.config, &mut app.store, None, "image/png", body);
    assert_eq!(status, 200);
    assert!(response.successful);
    let file_id = response.file_id.expect("a successful upload carries the identifier");
    let expected =
        uuid::Uuid::new_v5(&uuid::Uuid::NAMESPACE_OID, &[0u8; 1024]).to_string();
    assert_eq!(file_id, expected);
    let (ext, data) = retrieve_media(&file_id, &app.config, &app.store).expect("stored");
    assert_eq!(ext, "png");
    assert_eq!(data, vec![0u8; 1024]);
}

#[test]
fn upload_text_plain_rejected() {
    // PUT with a disallowed content type: a failure envelope, and no
    // file created under any identifier.
    let mut app = rocket();
    let body = vec![1u8, 2, 3];
    let (status, response) = handle_upload(&app.config, &mut app.store, None, "text/plain", body);
    assert_eq!(status, 200);
    assert!(!response.successful);
    assert!(response.file_id.is_none());
    let would_be = uuid::Uuid::new_v5(&uuid::Uuid::NAMESPACE_OID, &[1u8, 2, 3]).to_string();
    assert!(retrieve_media(&would_be, &app.config, &app.store).is_none());
    assert!(app.store.files.is_empty());
}

#[test]
fn upload_mp4_round_trip() {
    let mut app = rocket();
    let body = vec![9u8, 8, 7, 6];
    let (_, response) = handle_upload(&app.config, &mut app.store, None, "video/mp4", body);
    assert!(response.successful);
    let file_id = response.file_id.unwrap();
    let (ext, data) = retrieve_media(&file_id, &app.config, &app.store).expect("stored");
    assert_eq!(ext, "mp4");
    assert_eq!(data, vec![9u8, 8, 7, 6]);
}

#[test]
fn upload_is_idempotent() {
    // The same payload twice: the same identifier both times, and the
    // stored content still intact after the second write.
    let mut app = rocket();
    let payload = b"some media bytes".to_vec();
    let (_, first) = handle_upload(&app.config, &mut app.store, None, "image/png", payload.clone());
    let (_, second) = handle_upload(&app.config, &mut app.store, None, "image/png", payload.clone());
    let first_id = first.file_id.unwrap();
    let second_id = second.file_id.unwrap();
    assert_eq!(first_id, second_id);
    let (_, data) = retrieve_media(&first_id, &app.config, &app.store).expect("stored");
    assert_eq!(data, payload);
}

#[test]
fn identifiers_are_deterministic_and_content_keyed() {
    // Equal payloads derive equal identifiers; distinct payloads derive
    // distinct identifiers for these concrete values.
    let mut app = rocket();
    let (_, a) = handle_upload(&app.config, &mut app.store, None, "image/png", vec![0u8; 16]);
    let (_, b) = handle_upload(&app.config, &mut app.store, None, "image/png", vec![0u8; 16]);
    let (_, c) = handle_upload(&app.config, &mut app.store, None, "image/png", vec![1u8; 16]);
    let a = a.file_id.unwrap();
    let b = b.file_id.unwrap();
    let c = c.file_id.unwrap();
    assert_eq!(a, b);
    assert_ne!(a, c);
}

#[test]
fn empty_payload_round_trips() {
    // The deriver is total over all byte sequences, the empty one included.
    let mut app = rocket();
    let (status, response) = handle_upload(&app.config, &mut app.store, None, "image/png", vec![]);
    assert_eq!(status, 200);
    assert!(response.successful);
    let file_id = response.file_id.unwrap();
    assert_eq!(file_id, uuid::Uuid::new_v5(&uuid::Uuid::NAMESPACE_OID, &[]).to_string());
    let (ext, data) = retrieve_media(&file_id, &app.config, &app.store).expect("stored");
    assert_eq!(ext, "png");
    assert!(data.is_empty());
}

#[test]
fn oversized_upload_is_truncated() {
    // A zero-mebibyte ceiling truncates every payload to nothing: the
    // stored bytes and the identifier are those of the empty payload.
    let mut app = rocket();
    app.config.max_size = 0;
    let (_, response) = handle_upload(&app.config, &mut app.store, None, "image/png", vec![5u8; 10]);
    assert!(response.successful);
    let file_id = response.file_id.unwrap();
    let empty_id = uuid::Uuid::new_v5(&uuid::Uuid::NAMESPACE_OID, &[]).to_string();
    assert_eq!(file_id, empty_id);
    let (_, data) = retrieve_media(&file_id, &app.config, &app.store).expect("stored");
    assert!(data.is_empty());
}
