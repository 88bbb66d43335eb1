//! The four externally visible operations, composed from the guard, the
//! validator, the store and the page builders. Upload, delete and list
//! require the credential; fetching a published page is open to everyone.

use vstd::prelude::*;
use vstd::string::StringExecFns;
use crate::auth::{auth_of, check_auth, key_view, AuthOutcome};
use crate::errors::ApiError;
use crate::page::{list_page_of, publish_page_of, render_doc_page, render_list_page};
use crate::store::DocumentStore;
use crate::validate::{check_file_name, valid_name};

verus! {

/// Handles an upload request: with the right credential, a valid name and a
/// body within the cap, stores the document and its rendered form; any
/// failure leaves the store exactly as it was, and each failure is told
/// apart by its error.
pub fn upload(
    store: &mut DocumentStore,
    secret: &String,
    api_key: Option<&String>,
    file_name: &String,
    data: String,
) -> (r: Result<(), ApiError>)
    ensures
        final(store).spec_cap() == old(store).spec_cap(),
        r is Ok <==> auth_of(key_view(api_key), secret@) is Authorized && valid_name(file_name@)
            && data@.len() <= old(store).spec_cap(),
        r is Err ==> final(store).contents() == old(store).contents() && final(store).names()
            == old(store).names(),
        key_view(api_key) is None ==> r == Err::<(), ApiError>(ApiError::AuthMissing),
        auth_of(key_view(api_key), secret@) is Invalid ==> r == Err::<(), ApiError>(
            ApiError::AuthInvalid,
        ),
        auth_of(key_view(api_key), secret@) is Authorized && !valid_name(file_name@) ==> r
            == Err::<(), ApiError>(ApiError::InvalidName),
        auth_of(key_view(api_key), secret@) is Authorized && valid_name(file_name@)
            && data@.len() > old(store).spec_cap() ==> r == Err::<(), ApiError>(
            ApiError::PayloadTooLarge,
        ),
        r is Ok ==> final(store).contents() == old(store).contents().insert(file_name@, data@),
        r is Ok && old(store).contents().dom().contains(file_name@) ==> final(store).names()
            == old(store).names(),
        r is Ok && !old(store).contents().dom().contains(file_name@) ==> final(store).names()
            == old(store).names().push(file_name@),
{
    match check_auth(api_key, secret) {
        AuthOutcome::Missing => Err(ApiError::AuthMissing),
        AuthOutcome::Invalid => Err(ApiError::AuthInvalid),
        AuthOutcome::Authorized => {
            if !check_file_name(file_name.as_str()) {
                Err(ApiError::InvalidName)
            } else {
                store.put(file_name, data)
            }
        },
    }
}

/// Handles a delete request: with the right credential and a valid name,
/// removes the document and both its artifacts; any failure leaves the store
/// exactly as it was.
pub fn delete(
    store: &mut DocumentStore,
    secret: &String,
    api_key: Option<&String>,
    file_name: &String,
) -> (r: Result<(), ApiError>)
    ensures
        final(store).spec_cap() == old(store).spec_cap(),
        r is Ok <==> auth_of(key_view(api_key), secret@) is Authorized && valid_name(file_name@)
            && old(store).contents().dom().contains(file_name@),
        r is Err ==> final(store).contents() == old(store).contents() && final(store).names()
            == old(store).names(),
        key_view(api_key) is None ==> r == Err::<(), ApiError>(ApiError::AuthMissing),
        auth_of(key_view(api_key), secret@) is Invalid ==> r == Err::<(), ApiError>(
            ApiError::AuthInvalid,
        ),
        auth_of(key_view(api_key), secret@) is Authorized && !valid_name(file_name@) ==> r
            == Err::<(), ApiError>(ApiError::InvalidName),
        auth_of(key_view(api_key), secret@) is Authorized && valid_name(file_name@)
            && !old(store).contents().dom().contains(file_name@) ==> r == Err::<(), ApiError>(
            ApiError::FileNotFound,
        ),
        r is Ok ==> final(store).contents() == old(store).contents().remove(file_name@),
        r is Ok ==> exists|i: int|
            0 <= i < old(store).names().len() && old(store).names()[i] == file_name@
                && final(store).names() == old(store).names().remove(i),
{
    match check_auth(api_key, secret) {
        AuthOutcome::Missing => Err(ApiError::AuthMissing),
        AuthOutcome::Invalid => Err(ApiError::AuthInvalid),
        AuthOutcome::Authorized => {
            if !check_file_name(file_name.as_str()) {
                Err(ApiError::InvalidName)
            } else {
                store.delete(file_name)
            }
        },
    }
}

/// Handles a listing request: with the right credential, returns the listing
/// page holding one entry per published name, in insertion order.
pub fn setting(store: &DocumentStore, secret: &String, api_key: Option<&String>) -> (r: Result<
    String,
    ApiError,
>)
    ensures
        r is Ok <==> auth_of(key_view(api_key), secret@) is Authorized,
        key_view(api_key) is None ==> r == Err::<String, ApiError>(ApiError::AuthMissing),
        auth_of(key_view(api_key), secret@) is Invalid ==> r == Err::<String, ApiError>(
            ApiError::AuthInvalid,
        ),
        r matches Ok(page) ==> page@ == list_page_of(store.names()),
{
    match check_auth(api_key, secret) {
        AuthOutcome::Missing => Err(ApiError::AuthMissing),
        AuthOutcome::Invalid => Err(ApiError::AuthInvalid),
        AuthOutcome::Authorized => {
            let names = store.list();
            Ok(render_list_page(&names))
        },
    }
}

/// Handles a fetch request, with no credential asked: the rendered artifact
/// wrapped in a minimal HTML document when the name is published, the error
/// placeholder when it is not.
pub fn publish(store: &DocumentStore, file_path: &String) -> (r: String)
    ensures
        r@ == publish_page_of(store.contents(), file_path@),
{
    match store.read_rendered(file_path) {
        None => String::from_str("error"),
        Some(rendered) => render_doc_page(&rendered),
    }
}

} // verus!
