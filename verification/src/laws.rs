//! The guarantees that hold across operations, stated over the store's
//! abstract contents and listing and proved once for every input.

use vstd::prelude::*;
use crate::page::{doc_page_of, list_page_of, publish_page_of};
use crate::render::render_of;
use crate::validate::{is_allowed_char, valid_name};

verus! {

/// How many entries of a listing carry the given name.
pub open spec fn count_of(names: Seq<Seq<char>>, name: Seq<char>) -> nat
    decreases names.len(),
{
    if names.len() == 0 {
        0
    } else {
        count_of(names.drop_last(), name) + if names.last() == name {
            1nat
        } else {
            0nat
        }
    }
}

/// A name holding any character outside the allowed set is rejected by the
/// validator.
pub proof fn lemma_validator_rejects(s: Seq<char>, i: int)
    requires
        0 <= i < s.len(),
        !is_allowed_char(s[i]),
    ensures
        !valid_name(s),
{
}

/// A nonempty name holding only allowed characters is accepted by the
/// validator. The empty name is the one exception: it holds no disallowed
/// character, yet the validator rejects it, since it cannot key a document.
pub proof fn lemma_validator_accepts(s: Seq<char>)
    requires
        s.len() > 0,
        forall|i: int| 0 <= i < s.len() ==> is_allowed_char(#[trigger] s[i]),
    ensures
        valid_name(s),
{
}

/// Upload then fetch: fetching a name right after uploading a body under it
/// returns the wrapped rendered form of exactly that body — the rendered
/// output is a function of the source alone, so repeated renders agree.
pub proof fn lemma_upload_then_fetch(
    contents: Map<Seq<char>, Seq<char>>,
    name: Seq<char>,
    body: Seq<char>,
)
    ensures
        publish_page_of(contents.insert(name, body), name) == doc_page_of(render_of(body)),
{
}

/// Rendering is deterministic: wherever the same source text is stored —
/// under any name, in any store, fetched any number of times — the fetched
/// page is byte-identical.
pub proof fn lemma_render_deterministic(
    c1: Map<Seq<char>, Seq<char>>,
    c2: Map<Seq<char>, Seq<char>>,
    name1: Seq<char>,
    name2: Seq<char>,
)
    requires
        c1.dom().contains(name1),
        c2.dom().contains(name2),
        c1[name1] == c2[name2],
    ensures
        publish_page_of(c1, name1) == publish_page_of(c2, name2),
{
}

/// Upload then delete then fetch: once a name is deleted, fetching it
/// reports the not-found placeholder.
pub proof fn lemma_delete_then_fetch(
    contents: Map<Seq<char>, Seq<char>>,
    name: Seq<char>,
    body: Seq<char>,
)
    ensures
        publish_page_of(contents.insert(name, body).remove(name), name) == "error"@,
{
}

/// A name the store does not hold is not readable: fetching it reports the
/// not-found placeholder. A rejected request — wrong credential, invalid
/// name, oversized body — leaves the store unchanged, so a name such a
/// request did not publish stays unreadable.
pub proof fn lemma_absent_not_readable(contents: Map<Seq<char>, Seq<char>>, name: Seq<char>)
    requires
        !contents.dom().contains(name),
    ensures
        publish_page_of(contents, name) == "error"@,
{
}

proof fn lemma_count_distinct(names: Seq<Seq<char>>, name: Seq<char>)
    requires
        forall|i: int, j: int| 0 <= i < j < names.len() ==> names[i] != names[j],
    ensures
        names.contains(name) ==> count_of(names, name) == 1,
        !names.contains(name) ==> count_of(names, name) == 0,
    decreases names.len(),
{
    if names.len() > 0 {
        let prefix = names.drop_last();
        assert forall|i: int, j: int| 0 <= i < j < prefix.len() implies prefix[i] != prefix[j] by {
            assert(prefix[i] == names[i]);
            assert(prefix[j] == names[j]);
        }
        lemma_count_distinct(prefix, name);
        if names.last() == name {
            assert(!prefix.contains(name)) by {
                if prefix.contains(name) {
                    let j = choose|j: int| 0 <= j < prefix.len() && prefix[j] == name;
                    assert(names[j] == name);
                    assert(names[names.len() - 1] == name);
                }
            }
            assert(names[names.len() - 1] == name);
            assert(names.contains(name));
        } else {
            if names.contains(name) {
                let j = choose|j: int| 0 <= j < names.len() && names[j] == name;
                assert(prefix[j] == name);
                assert(prefix.contains(name));
            }
            if prefix.contains(name) {
                let j = choose|j: int| 0 <= j < prefix.len() && prefix[j] == name;
                assert(names[j] == name);
                assert(names.contains(name));
            }
        }
    }
}

/// Upload then list, delete then list: a listing free of duplicates that
/// shows exactly the published names shows a published name exactly once,
/// and a deleted or never-published name not at all. The store's listing is
/// exactly such a listing: it has no duplicates and carries a name exactly
/// when a document is stored under it.
pub proof fn lemma_listed_exactly_once(
    names: Seq<Seq<char>>,
    published: Set<Seq<char>>,
    name: Seq<char>,
)
    requires
        forall|i: int, j: int| 0 <= i < j < names.len() ==> names[i] != names[j],
        forall|n: Seq<char>| #[trigger] names.contains(n) <==> published.contains(n),
    ensures
        published.contains(name) ==> count_of(names, name) == 1,
        !published.contains(name) ==> count_of(names, name) == 0,
{
    lemma_count_distinct(names, name);
    assert(names.contains(name) <==> published.contains(name));
}

/// Fetch is a pure read: its result is a function of the store contents
/// alone, so repeated fetches with no intervening mutation return identical
/// pages.
pub proof fn lemma_fetch_idempotent(
    c1: Map<Seq<char>, Seq<char>>,
    c2: Map<Seq<char>, Seq<char>>,
    name: Seq<char>,
)
    requires
        c1 == c2,
    ensures
        publish_page_of(c1, name) == publish_page_of(c2, name),
{
}

/// Listing is a pure read: its page is a function of the stored names alone,
/// so repeated listings with no intervening mutation return identical pages.
pub proof fn lemma_list_idempotent(names1: Seq<Seq<char>>, names2: Seq<Seq<char>>)
    requires
        names1 == names2,
    ensures
        list_page_of(names1) == list_page_of(names2),
{
}

} // verus!
