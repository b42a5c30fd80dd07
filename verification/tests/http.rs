use std::collections::HashMap;

use filestorage_core::http::{
    delete_object, delete_response, ensure_key_present, get_object, get_response, put_object,
    put_response, ApiError, ErrorBody, ErrorResponse, Response,
};
use filestorage_core::storage::FileStorage;
use filestorage_core::{IoFailure, StorageError};

/// The files of a filesystem held in memory.
type Files = HashMap<String, Vec<u8>>;

fn missing() -> IoFailure {
    IoFailure { not_found: true, detail: "No such file or directory (os error 2)".to_string() }
}

fn storage() -> FileStorage {
    FileStorage::new("data").complete(Ok(())).unwrap()
}

fn serve_put(storage: &FileStorage, files: &mut Files, key: &str, body: &[u8]) -> Result<Response, ErrorResponse> {
    let pending = put_object(storage, key, body).map_err(ApiError::into_response)?;
    let result = match pending.dirs_created(Ok(())) {
        Ok(write) => {
            files.insert(write.path().to_string(), write.data().to_vec());
            write.complete(Ok(()))
        }
        Err(error) => Err(error),
    };
    put_response(result).map_err(ApiError::into_response)
}

fn serve_get(storage: &FileStorage, files: &Files, key: &str) -> Result<Response, ErrorResponse> {
    let pending = get_object(storage, key).map_err(ApiError::into_response)?;
    let read = files.get(pending.path()).cloned().ok_or_else(missing);
    get_response(pending.complete(read)).map_err(ApiError::into_response)
}

fn serve_delete(storage: &FileStorage, files: &mut Files, key: &str) -> Result<Response, ErrorResponse> {
    let pending = delete_object(storage, key).map_err(ApiError::into_response)?;
    let removed = files.remove(pending.path()).map(|_| ()).ok_or_else(missing);
    delete_response(pending.complete(removed)).map_err(ApiError::into_response)
}

fn error(status: u16, text: &str) -> ErrorResponse {
    ErrorResponse { status, body: ErrorBody { error: text.to_string() } }
}

#[test]
fn put_get_delete_get_over_http() {
    let storage = storage();
    let mut files = Files::new();

    let put = serve_put(&storage, &mut files, "sample", b"X").unwrap();
    assert_eq!(put, Response { status: 201, content_type: None, content_length: None, body: vec![] });

    let get = serve_get(&storage, &files, "sample").unwrap();
    assert_eq!(get.status, 200);
    assert_eq!(get.body, b"X");
    assert_eq!(get.content_length, Some(1));
    assert_eq!(get.content_type, Some("application/octet-stream"));

    let delete = serve_delete(&storage, &mut files, "sample").unwrap();
    assert_eq!(
        delete,
        Response { status: 204, content_type: None, content_length: None, body: vec![] }
    );

    let gone = serve_get(&storage, &files, "sample").unwrap_err();
    assert_eq!(gone.status, 404);
    assert!(gone.body.error.contains("sample"));
    assert_eq!(gone, error(404, "object `sample` not found"));
}

#[test]
fn get_response_counts_the_bytes() {
    let body: Vec<u8> = (0..1000).map(|i| (i % 7) as u8).collect();
    let response = get_response(Ok(body.clone())).unwrap();
    assert_eq!(response.status, 200);
    assert_eq!(response.content_length, Some(1000));
    assert_eq!(response.body, body);
    let response = get_response(Ok(Vec::new())).unwrap();
    assert_eq!(response.content_length, Some(0));
    assert_eq!(response.content_type, Some("application/octet-stream"));
}

#[test]
fn request_without_a_key_is_turned_away_first() {
    let storage = storage();
    let mut files = Files::new();
    let expected = || error(400, "object key cannot be empty");
    assert_eq!(serve_put(&storage, &mut files, "", b"X"), Err(expected()));
    assert_eq!(serve_get(&storage, &files, ""), Err(expected()));
    assert_eq!(serve_delete(&storage, &mut files, ""), Err(expected()));
    assert!(files.is_empty());
    assert_eq!(
        ensure_key_present(""),
        Err(ApiError::BadRequest("object key cannot be empty".to_string()))
    );
    assert_eq!(ensure_key_present("k"), Ok(()));
    assert_eq!(ensure_key_present("../k"), Ok(()));
}

#[test]
fn invalid_key_is_a_bad_request() {
    let storage = storage();
    let mut files = Files::new();
    assert_eq!(
        serve_put(&storage, &mut files, "../escape", b"X"),
        Err(error(400, "contains unsupported segments"))
    );
    assert_eq!(
        serve_get(&storage, &files, "/etc/passwd"),
        Err(error(400, "absolute paths are not allowed"))
    );
    assert_eq!(
        serve_delete(&storage, &mut files, "a//b"),
        Err(error(400, "contains unsupported segments"))
    );
    assert!(files.is_empty());
}

#[test]
fn missing_object_is_not_found() {
    let storage = storage();
    let mut files = Files::new();
    assert_eq!(
        serve_get(&storage, &files, "never-written"),
        Err(error(404, "object `never-written` not found"))
    );
    assert_eq!(
        serve_delete(&storage, &mut files, "a/b"),
        Err(error(404, "object `a/b` not found"))
    );
}

#[test]
fn filesystem_failure_is_an_internal_error() {
    let failed = || StorageError::Io("Permission denied (os error 13)".to_string());
    let expected = || error(500, "storage I/O error: Permission denied (os error 13)");
    assert_eq!(put_response(Err(failed())).map_err(ApiError::into_response), Err(expected()));
    assert_eq!(get_response(Err(failed())).map_err(ApiError::into_response), Err(expected()));
    assert_eq!(delete_response(Err(failed())).map_err(ApiError::into_response), Err(expected()));
}

#[test]
fn storage_errors_become_api_errors() {
    assert_eq!(
        ApiError::from(StorageError::InvalidKey("key cannot be empty".to_string())),
        ApiError::BadRequest("key cannot be empty".to_string())
    );
    assert_eq!(
        ApiError::from(StorageError::NotFound("a/b".to_string())),
        ApiError::NotFound("a/b".to_string())
    );
    assert_eq!(
        ApiError::from(StorageError::Io("disk full".to_string())),
        ApiError::Internal("storage I/O error: disk full".to_string())
    );
}

#[test]
fn api_errors_and_their_status() {
    assert_eq!(ApiError::bad_request("nope"), ApiError::BadRequest("nope".to_string()));
    assert_eq!(ApiError::internal("broken"), ApiError::Internal("broken".to_string()));
    assert_eq!(ApiError::bad_request("nope").status(), 400);
    assert_eq!(ApiError::NotFound("k".to_string()).status(), 404);
    assert_eq!(ApiError::internal("broken").status(), 500);
    assert_eq!(ApiError::bad_request("nope").into_response(), error(400, "nope"));
    assert_eq!(ApiError::internal("broken").into_response(), error(500, "broken"));
    assert_eq!(
        ApiError::NotFound("a`b".to_string()).into_response(),
        error(404, "object `a`b` not found")
    );
}

#[test]
fn put_object_hands_the_body_to_the_write() {
    let storage = storage();
    let pending = put_object(&storage, "a/b", b"body").unwrap();
    assert_eq!(pending.dir(), "data/a");
    let write = pending.dirs_created(Ok(())).unwrap();
    assert_eq!(write.path(), "data/a/b");
    assert_eq!(write.data(), b"body");
    assert_eq!(get_object(&storage, "a/b").unwrap().path(), "data/a/b");
    assert_eq!(delete_object(&storage, "a/b").unwrap().path(), "data/a/b");
}
