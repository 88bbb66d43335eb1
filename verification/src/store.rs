//! The document store: two paired artifacts per name, a raw source document
//! and its rendered form. The rendered artifact exists exactly when the
//! source does and always matches the renderer's output for that source, so
//! the pair can never fall out of step. Names are unique; the store is viewed
//! abstractly as a map from name to source, together with the sequence of
//! names in insertion order that a listing reports.

use vstd::prelude::*;
use crate::errors::ApiError;
use crate::render::{render_markdown, render_of};
use crate::strutil::str_eq;

verus! {

/// The default cap on an uploaded document's length: ten million characters,
/// ten megabytes for the ASCII text the documents are written in. Document
/// size is measured in characters of the source text throughout.
pub const DEFAULT_CAP: usize = 10000000;

/// One stored document: its name, the uploaded source text, and the rendered
/// form derived from that source.
struct Document {
    name: String,
    source: String,
    rendered: String,
}

/// The names of a sequence of documents, in order.
spec fn seq_names(docs: Seq<Document>) -> Seq<Seq<char>> {
    docs.map_values(|d: Document| d.name@)
}

/// No name occurs twice.
spec fn distinct(s: Seq<Seq<char>>) -> bool {
    forall|i: int, j: int| 0 <= i < j < s.len() ==> s[i] != s[j]
}

/// The map from document name to source text that a sequence of documents
/// represents.
spec fn contents_of(docs: Seq<Document>) -> Map<Seq<char>, Seq<char>>
    decreases docs.len(),
{
    if docs.len() == 0 {
        Map::empty()
    } else {
        contents_of(docs.drop_last()).insert(docs.last().name@, docs.last().source@)
    }
}

/// Dropping the last document keeps the remaining names, and their
/// distinctness.
proof fn lemma_distinct_prefix(docs: Seq<Document>)
    requires
        docs.len() > 0,
        distinct(seq_names(docs)),
    ensures
        seq_names(docs.drop_last()) == seq_names(docs).drop_last(),
        distinct(seq_names(docs.drop_last())),
{
    assert(seq_names(docs.drop_last()) =~= seq_names(docs).drop_last());
}

/// A name is in the represented map exactly when some document carries it.
proof fn lemma_contents_dom(docs: Seq<Document>)
    ensures
        forall|n: Seq<char>|
            #[trigger] contents_of(docs).dom().contains(n) <==> seq_names(docs).contains(n),
    decreases docs.len(),
{
    if docs.len() == 0 {
        assert forall|n: Seq<char>|
            #[trigger] contents_of(docs).dom().contains(n) <==> seq_names(docs).contains(n) by {
            assert(!contents_of(docs).dom().contains(n));
        }
    } else {
        let prefix = docs.drop_last();
        lemma_contents_dom(prefix);
        assert(seq_names(prefix) =~= seq_names(docs).drop_last());
        assert forall|n: Seq<char>|
            #[trigger] contents_of(docs).dom().contains(n) <==> seq_names(docs).contains(n) by {
            assert(contents_of(prefix).dom().contains(n) <==> seq_names(prefix).contains(n));
            if contents_of(docs).dom().contains(n) {
                if n == docs.last().name@ {
                    assert(seq_names(docs)[docs.len() - 1] == n);
                    assert(seq_names(docs).contains(n));
                } else {
                    assert(contents_of(prefix).dom().contains(n));
                    let i = choose|i: int|
                        0 <= i < seq_names(prefix).len() && seq_names(prefix)[i] == n;
                    assert(seq_names(prefix)[i] == seq_names(docs).drop_last()[i]);
                    assert(seq_names(docs)[i] == n);
                    assert(seq_names(docs).contains(n));
                }
            }
            if seq_names(docs).contains(n) {
                let i = choose|i: int|
                    0 <= i < seq_names(docs).len() && seq_names(docs)[i] == n;
                if i < docs.len() - 1 {
                    assert(seq_names(docs).drop_last()[i] == seq_names(docs)[i]);
                    assert(seq_names(prefix)[i] == n);
                    assert(seq_names(prefix).contains(n));
                    assert(contents_of(prefix).dom().contains(n));
                } else {
                    assert(n == docs.last().name@);
                }
                assert(contents_of(docs).dom().contains(n));
            }
        }
    }
}

/// Looking up a document's own name in the represented map yields its source.
proof fn lemma_contents_at(docs: Seq<Document>, i: int)
    requires
        distinct(seq_names(docs)),
        0 <= i < docs.len(),
    ensures
        contents_of(docs).dom().contains(docs[i].name@),
        contents_of(docs)[docs[i].name@] == docs[i].source@,
    decreases docs.len(),
{
    let n = docs[i].name@;
    if i < docs.len() - 1 {
        lemma_distinct_prefix(docs);
        lemma_contents_at(docs.drop_last(), i);
        assert(seq_names(docs)[i] == n);
        assert(seq_names(docs)[docs.len() - 1] == docs.last().name@);
        assert(docs.last().name@ != n);
    }
}

/// Replacing a document's source under an unchanged name updates the
/// represented map at that one key.
proof fn lemma_contents_update(docs: Seq<Document>, i: int, d: Document)
    requires
        distinct(seq_names(docs)),
        0 <= i < docs.len(),
        d.name@ == docs[i].name@,
    ensures
        contents_of(docs.update(i, d)) == contents_of(docs).insert(d.name@, d.source@),
    decreases docs.len(),
{
    let n = d.name@;
    let up = docs.update(i, d);
    if i == docs.len() - 1 {
        assert(up.last() == d);
        assert(up.drop_last() =~= docs.drop_last());
        assert(contents_of(docs.drop_last()).insert(n, d.source@) =~= contents_of(
            docs,
        ).insert(n, d.source@));
    } else {
        lemma_distinct_prefix(docs);
        assert(up.last() == docs.last());
        assert(up.drop_last() =~= docs.drop_last().update(i, d));
        lemma_contents_update(docs.drop_last(), i, d);
        assert(seq_names(docs)[i] == n);
        assert(seq_names(docs)[docs.len() - 1] == docs.last().name@);
        assert(n != docs.last().name@);
        assert(contents_of(docs.drop_last()).insert(n, d.source@).insert(
            docs.last().name@,
            docs.last().source@,
        ) =~= contents_of(docs.drop_last()).insert(
            docs.last().name@,
            docs.last().source@,
        ).insert(n, d.source@));
    }
}

/// Removing a document removes exactly its name from the represented map.
proof fn lemma_contents_remove(docs: Seq<Document>, i: int)
    requires
        distinct(seq_names(docs)),
        0 <= i < docs.len(),
    ensures
        contents_of(docs.remove(i)) == contents_of(docs).remove(docs[i].name@),
    decreases docs.len(),
{
    let n = docs[i].name@;
    let rm = docs.remove(i);
    if i == docs.len() - 1 {
        lemma_distinct_prefix(docs);
        lemma_contents_dom(docs.drop_last());
        assert(rm =~= docs.drop_last());
        assert(!seq_names(docs.drop_last()).contains(n)) by {
            if seq_names(docs.drop_last()).contains(n) {
                let j = choose|j: int|
                    0 <= j < seq_names(docs.drop_last()).len() && seq_names(
                        docs.drop_last(),
                    )[j] == n;
                assert(seq_names(docs)[j] == n);
                assert(seq_names(docs)[docs.len() - 1] == n);
            }
        }
        assert(!contents_of(docs.drop_last()).dom().contains(n));
        assert(contents_of(docs.drop_last()).insert(n, docs.last().source@).remove(n)
            =~= contents_of(docs.drop_last()));
    } else {
        lemma_distinct_prefix(docs);
        assert(rm.last() == docs.last());
        assert(rm.drop_last() =~= docs.drop_last().remove(i));
        lemma_contents_remove(docs.drop_last(), i);
        assert(seq_names(docs)[i] == n);
        assert(seq_names(docs)[docs.len() - 1] == docs.last().name@);
        assert(n != docs.last().name@);
        assert(contents_of(docs.drop_last()).remove(n).insert(
            docs.last().name@,
            docs.last().source@,
        ) =~= contents_of(docs.drop_last()).insert(
            docs.last().name@,
            docs.last().source@,
        ).remove(n));
    }
}

/// The store itself: the documents in insertion order, and the cap on an
/// uploaded document's length.
pub struct DocumentStore {
    docs: Vec<Document>,
    cap: usize,
}

impl DocumentStore {
    /// Names are unique, and each rendered artifact is the renderer's output
    /// for its source.
    #[verifier::type_invariant]
    spec fn inv(self) -> bool {
        &&& distinct(seq_names(self.docs@))
        &&& forall|i: int|
            0 <= i < self.docs@.len() ==> (#[trigger] self.docs@[i]).rendered@ == render_of(
                self.docs@[i].source@,
            )
    }

    /// The stored names, in insertion order: what a listing reports.
    pub closed spec fn names(self) -> Seq<Seq<char>> {
        seq_names(self.docs@)
    }

    /// The store viewed as a map from document name to source text.
    pub closed spec fn contents(self) -> Map<Seq<char>, Seq<char>> {
        contents_of(self.docs@)
    }

    /// The cap on an uploaded document's length, in characters.
    pub closed spec fn spec_cap(self) -> nat {
        self.cap as nat
    }

    /// An empty store with the given cap on upload length.
    pub fn with_cap(cap: usize) -> (s: Self)
        ensures
            s.contents() == Map::<Seq<char>, Seq<char>>::empty(),
            s.names() == Seq::<Seq<char>>::empty(),
            s.spec_cap() == cap as nat,
    {
        let s = DocumentStore { docs: Vec::new(), cap };
        proof {
            assert(s.names() =~= Seq::<Seq<char>>::empty());
        }
        s
    }

    /// An empty store with the default cap.
    pub fn new() -> (s: Self)
        ensures
            s.contents() == Map::<Seq<char>, Seq<char>>::empty(),
            s.names() == Seq::<Seq<char>>::empty(),
            s.spec_cap() == DEFAULT_CAP as nat,
    {
        Self::with_cap(DEFAULT_CAP)
    }

    /// The position of the document carrying the given name, if any.
    fn find_index(&self, name: &String) -> (r: Option<usize>)
        ensures
            match r {
                Some(i) => i < self.docs@.len() && self.docs@[i as int].name@ == name@,
                None => !seq_names(self.docs@).contains(name@),
            },
    {
        let n = self.docs.len();
        let mut i: usize = 0;
        while i < n
            invariant
                0 <= i <= n,
                n == self.docs@.len(),
                forall|j: int| 0 <= j < i ==> self.docs@[j].name@ != name@,
            decreases n - i,
        {
            if str_eq(self.docs[i].name.as_str(), name.as_str()) {
                return Some(i);
            }
            i = i + 1;
        }
        proof {
            assert(!seq_names(self.docs@).contains(name@)) by {
                if seq_names(self.docs@).contains(name@) {
                    let j = choose|j: int|
                        0 <= j < seq_names(self.docs@).len() && seq_names(self.docs@)[j]
                            == name@;
                    assert(self.docs@[j].name@ == name@);
                }
            }
        }
        None
    }

    /// Stores `source` under `name`, replacing any document of that name, and
    /// derives its rendered form; fails without any change when the source
    /// exceeds the cap, measured in characters of the text. A replaced name
    /// keeps its place in the listing; a new name is appended to it.
    pub fn put(&mut self, name: &String, source: String) -> (r: Result<(), ApiError>)
        ensures
            r is Ok <==> source@.len() <= old(self).spec_cap(),
            final(self).spec_cap() == old(self).spec_cap(),
            r is Err ==> r == Err::<(), ApiError>(ApiError::PayloadTooLarge)
                && final(self).contents() == old(self).contents()
                && final(self).names() == old(self).names(),
            r is Ok ==> final(self).contents() == old(self).contents().insert(name@, source@),
            r is Ok && old(self).contents().dom().contains(name@)
                ==> final(self).names() == old(self).names(),
            r is Ok && !old(self).contents().dom().contains(name@)
                ==> final(self).names() == old(self).names().push(name@),
    {
        proof {
            use_type_invariant(&*self);
        }
        if source.as_str().unicode_len() > self.cap {
            return Err(ApiError::PayloadTooLarge);
        }
        let rendered = render_markdown(source.as_str());
        let idx = self.find_index(name);
        let d = Document { name: name.clone(), source, rendered };
        let ghost prev = self.docs@;
        let mut docs: Vec<Document> = Vec::new();
        std::mem::swap(&mut docs, &mut self.docs);
        match idx {
            Some(i) => {
                docs[i] = d;
                proof {
                    lemma_contents_update(prev, i as int, d);
                    lemma_contents_at(prev, i as int);
                    assert(seq_names(docs@) =~= seq_names(prev));
                    lemma_contents_dom(prev);
                    assert(seq_names(prev)[i as int] == name@);
                }
            },
            None => {
                docs.push(d);
                proof {
                    assert(docs@.drop_last() =~= prev);
                    assert(seq_names(docs@) =~= seq_names(prev).push(name@));
                    assert(distinct(seq_names(docs@))) by {
                        assert forall|a: int, b: int|
                            0 <= a < b < seq_names(docs@).len() implies seq_names(docs@)[a]
                            != seq_names(docs@)[b] by {
                            if b == seq_names(docs@).len() - 1 {
                                assert(seq_names(prev)[a] == seq_names(docs@)[a]);
                                assert(seq_names(prev).contains(seq_names(prev)[a]));
                            }
                        }
                    }
                    lemma_contents_dom(prev);
                }
            },
        }
        self.docs = docs;
        Ok(())
    }

    /// Removes the document of the given name with both its artifacts; fails
    /// without any change when no such document is stored.
    pub fn delete(&mut self, name: &String) -> (r: Result<(), ApiError>)
        ensures
            r is Ok <==> old(self).contents().dom().contains(name@),
            final(self).spec_cap() == old(self).spec_cap(),
            r is Err ==> r == Err::<(), ApiError>(ApiError::FileNotFound)
                && final(self).contents() == old(self).contents()
                && final(self).names() == old(self).names(),
            r is Ok ==> final(self).contents() == old(self).contents().remove(name@),
            r is Ok ==> exists|i: int|
                0 <= i < old(self).names().len() && old(self).names()[i] == name@
                    && final(self).names() == old(self).names().remove(i),
    {
        proof {
            use_type_invariant(&*self);
        }
        let idx = self.find_index(name);
        match idx {
            None => {
                proof {
                    lemma_contents_dom(self.docs@);
                }
                Err(ApiError::FileNotFound)
            },
            Some(i) => {
                let ghost prev = self.docs@;
                let mut docs: Vec<Document> = Vec::new();
                std::mem::swap(&mut docs, &mut self.docs);
                docs.remove(i);
                proof {
                    lemma_contents_remove(prev, i as int);
                    lemma_contents_at(prev, i as int);
                    assert(seq_names(docs@) =~= seq_names(prev).remove(i as int));
                    assert(seq_names(prev)[i as int] == name@);
                    assert(distinct(seq_names(docs@))) by {
                        assert forall|a: int, b: int|
                            0 <= a < b < seq_names(docs@).len() implies seq_names(docs@)[a]
                            != seq_names(docs@)[b] by {
                            let s = seq_names(prev);
                            let a0: int = if a < i { a } else { a + 1 };
                            let b0: int = if b < i { b } else { b + 1 };
                            assert(seq_names(docs@)[a] == s[a0]);
                            assert(seq_names(docs@)[b] == s[b0]);
                        }
                    }
                }
                self.docs = docs;
                proof {
                    assert(old(self).names() == seq_names(prev));
                    assert(exists|k: int|
                        0 <= k < old(self).names().len() && old(self).names()[k] == name@
                            && self.names() == old(self).names().remove(k)) by {
                        assert(0 <= (i as int) && (i as int) < old(self).names().len()
                            && old(self).names()[i as int] == name@
                            && self.names() == old(self).names().remove(i as int));
                    }
                }
                Ok(())
            },
        }
    }

    /// The names of all stored documents, in insertion order. The listing has
    /// each stored name exactly once: it is free of duplicates and carries a
    /// name exactly when the store holds a document under it.
    pub fn list(&self) -> (r: Vec<String>)
        ensures
            r@.map_values(|s: String| s@) == self.names(),
            forall|i: int, j: int|
                0 <= i < j < self.names().len() ==> self.names()[i] != self.names()[j],
            forall|n: Seq<char>|
                #[trigger] self.names().contains(n) <==> self.contents().dom().contains(n),
    {
        proof {
            use_type_invariant(&*self);
            lemma_contents_dom(self.docs@);
        }
        let n = self.docs.len();
        let mut out: Vec<String> = Vec::new();
        let mut i: usize = 0;
        while i < n
            invariant
                0 <= i <= n,
                n == self.docs@.len(),
                out@.len() == i,
                forall|j: int| 0 <= j < i ==> out@[j]@ == self.docs@[j].name@,
            decreases n - i,
        {
            out.push(self.docs[i].name.clone());
            i = i + 1;
        }
        proof {
            assert(out@.map_values(|s: String| s@) =~= self.names());
        }
        out
    }

    /// The rendered artifact stored for the given name: present exactly when
    /// a document of that name is stored, and then equal to the renderer's
    /// output for that document's source.
    pub fn read_rendered(&self, name: &String) -> (r: Option<String>)
        ensures
            r is Some <==> self.contents().dom().contains(name@),
            r matches Some(s) ==> s@ == render_of(self.contents()[name@]),
    {
        proof {
            use_type_invariant(&*self);
            lemma_contents_dom(self.docs@);
        }
        match self.find_index(name) {
            None => None,
            Some(i) => {
                proof {
                    lemma_contents_at(self.docs@, i as int);
                }
                Some(self.docs[i].rendered.clone())
            },
        }
    }
}

} // verus!
