use markdown_publish::errors::{status_of, ApiError};
use markdown_publish::router::{delete, publish, setting, upload};
use markdown_publish::store::DocumentStore;

fn secret() -> String {
    String::from("test_api_key")
}

fn upload_ok(store: &mut DocumentStore, name: &str, body: &str) -> Result<(), ApiError> {
    let key = secret();
    upload(store, &key, Some(&key), &String::from(name), String::from(body))
}

#[test]
fn upload_file() {
    let mut store = DocumentStore::new();
    let r = upload_ok(&mut store, "sample_1", "# Sample\nbody");
    assert_eq!(status_of(&r), 200);
}

#[test]
fn upload_then_fetch_returns_rendered_form() {
    let mut store = DocumentStore::new();
    upload_ok(&mut store, "notes_1", "# Title\nhello").unwrap();
    let page = publish(&store, &String::from("notes_1"));
    assert!(page.starts_with("<!DOCTYPE html><html><body>"));
    assert!(page.ends_with("</body></html>"));
    assert!(page.contains("<h1>Title</h1>"));
    assert!(page.contains("<p>hello</p>"));
    assert!(!page.contains("# Title"));
}

#[test]
fn same_source_renders_identically() {
    let mut store_a = DocumentStore::new();
    let mut store_b = DocumentStore::new();
    upload_ok(&mut store_a, "doc", "*em* text").unwrap();
    upload_ok(&mut store_b, "doc", "*em* text").unwrap();
    let page_a = publish(&store_a, &String::from("doc"));
    let page_b = publish(&store_b, &String::from("doc"));
    assert_eq!(page_a, page_b);
}

#[test]
fn upload_delete_fetch_reports_not_found() {
    let mut store = DocumentStore::new();
    upload_ok(&mut store, "gone", "text").unwrap();
    let key = secret();
    let r = delete(&mut store, &key, Some(&key), &String::from("gone"));
    assert_eq!(status_of(&r), 200);
    assert_eq!(publish(&store, &String::from("gone")), "error");
}

#[test]
fn fetch_of_unknown_name_reports_not_found() {
    let store = DocumentStore::new();
    assert_eq!(publish(&store, &String::from("nowhere")), "error");
}

#[test]
fn list_shows_each_name_exactly_once() {
    let mut store = DocumentStore::new();
    let key = secret();
    upload_ok(&mut store, "first", "a").unwrap();
    upload_ok(&mut store, "second", "b").unwrap();
    upload_ok(&mut store, "first", "c").unwrap();
    let page = setting(&store, &key, Some(&key)).unwrap();
    assert_eq!(page.matches("<li>first</li>").count(), 1);
    assert_eq!(page.matches("<li>second</li>").count(), 1);
    let r = delete(&mut store, &key, Some(&key), &String::from("first"));
    assert!(r.is_ok());
    let page = setting(&store, &key, Some(&key)).unwrap();
    assert!(!page.contains("<li>first</li>"));
    assert_eq!(page.matches("<li>second</li>").count(), 1);
}

#[test]
fn listing_page_of_empty_store() {
    let store = DocumentStore::new();
    let key = secret();
    let page = setting(&store, &key, Some(&key)).unwrap();
    assert_eq!(page, "<!DOCTYPE html><html><body><ul></ul></body></html>");
}

#[test]
fn replaced_upload_serves_new_body() {
    let mut store = DocumentStore::new();
    upload_ok(&mut store, "doc", "old words").unwrap();
    upload_ok(&mut store, "doc", "new words").unwrap();
    let page = publish(&store, &String::from("doc"));
    assert!(page.contains("new words"));
    assert!(!page.contains("old words"));
}

#[test]
fn missing_credential_is_rejected_without_any_change() {
    let mut store = DocumentStore::new();
    let key = secret();
    let r = upload(&mut store, &key, None, &String::from("doc"), String::from("body"));
    assert_eq!(r, Err(ApiError::AuthMissing));
    assert_eq!(status_of(&r), 400);
    assert_eq!(publish(&store, &String::from("doc")), "error");
    let page = setting(&store, &key, Some(&key)).unwrap();
    assert!(!page.contains("<li>"));
}

#[test]
fn wrong_credential_is_rejected_without_any_change() {
    let mut store = DocumentStore::new();
    let key = secret();
    let wrong = String::from("not the secret");
    let r = upload(&mut store, &key, Some(&wrong), &String::from("doc"), String::from("body"));
    assert_eq!(r, Err(ApiError::AuthInvalid));
    assert_eq!(status_of(&r), 400);
    let r = delete(&mut store, &key, Some(&wrong), &String::from("doc"));
    assert_eq!(r, Err(ApiError::AuthInvalid));
    let r = setting(&store, &key, Some(&wrong));
    assert_eq!(r, Err(ApiError::AuthInvalid));
    let r = setting(&store, &key, None);
    assert_eq!(r, Err(ApiError::AuthMissing));
    assert_eq!(publish(&store, &String::from("doc")), "error");
}

#[test]
fn invalid_name_is_rejected() {
    let mut store = DocumentStore::new();
    let key = secret();
    let r = upload(&mut store, &key, Some(&key), &String::from("../etc"), String::from("body"));
    assert_eq!(r, Err(ApiError::InvalidName));
    assert_eq!(status_of(&r), 422);
    let r = delete(&mut store, &key, Some(&key), &String::from("a/b"));
    assert_eq!(r, Err(ApiError::InvalidName));
}

#[test]
fn empty_name_is_rejected_by_the_router() {
    let mut store = DocumentStore::new();
    let key = secret();
    let r = upload(&mut store, &key, Some(&key), &String::from(""), String::from("body"));
    assert_eq!(r, Err(ApiError::InvalidName));
    let r = delete(&mut store, &key, Some(&key), &String::from(""));
    assert_eq!(r, Err(ApiError::InvalidName));
}

#[test]
fn delete_of_missing_document_fails() {
    let mut store = DocumentStore::new();
    let key = secret();
    let r = delete(&mut store, &key, Some(&key), &String::from("absent"));
    assert_eq!(r, Err(ApiError::FileNotFound));
    assert_eq!(status_of(&r), 422);
}

#[test]
fn oversized_payload_never_becomes_readable() {
    let mut store = DocumentStore::with_cap(8);
    let key = secret();
    let r = upload(
        &mut store,
        &key,
        Some(&key),
        &String::from("big"),
        String::from("123456789"),
    );
    assert_eq!(r, Err(ApiError::PayloadTooLarge));
    assert_eq!(status_of(&r), 422);
    assert_eq!(publish(&store, &String::from("big")), "error");
    let page = setting(&store, &key, Some(&key)).unwrap();
    assert!(!page.contains("<li>big</li>"));
}

#[test]
fn payload_at_the_cap_is_accepted() {
    let mut store = DocumentStore::with_cap(8);
    let key = secret();
    let r = upload(&mut store, &key, Some(&key), &String::from("fits"), String::from("12345678"));
    assert_eq!(r, Ok(()));
}

#[test]
fn fetch_and_list_are_idempotent() {
    let mut store = DocumentStore::new();
    let key = secret();
    upload_ok(&mut store, "alpha", "a").unwrap();
    upload_ok(&mut store, "beta", "b").unwrap();
    let first_fetch = publish(&store, &String::from("alpha"));
    let second_fetch = publish(&store, &String::from("alpha"));
    assert_eq!(first_fetch, second_fetch);
    let first_list = setting(&store, &key, Some(&key)).unwrap();
    let second_list = setting(&store, &key, Some(&key)).unwrap();
    assert_eq!(first_list, second_list);
}

#[test]
fn publish_cycle_scenario() {
    let mut store = DocumentStore::new();
    let key = secret();
    let r = upload(
        &mut store,
        &key,
        Some(&key),
        &String::from("notes_1"),
        String::from("# Title\nhello"),
    );
    assert_eq!(status_of(&r), 200);
    let page = publish(&store, &String::from("notes_1"));
    assert!(page.contains("<h1>Title</h1>"));
    assert!(page.contains("<p>hello</p>"));
    let listing = setting(&store, &key, Some(&key)).unwrap();
    assert!(listing.contains("<li>notes_1</li>"));
    let r = delete(&mut store, &key, Some(&key), &String::from("notes_1"));
    assert_eq!(status_of(&r), 200);
    assert_eq!(publish(&store, &String::from("notes_1")), "error");
    let listing = setting(&store, &key, Some(&key)).unwrap();
    assert!(!listing.contains("notes_1"));
}
