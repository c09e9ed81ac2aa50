//! The document store: the last known text of each document, by URI.

use vstd::prelude::*;

verus! {

/// A document and its last known text.
#[derive(Clone, Debug, PartialEq, Eq)]
pub struct TrackedDocument {
    pub uri: String,
    pub text: String,
}

/// The tracked documents. No URI is held twice, and a write for a URI
/// replaces what was held for it.
#[derive(Debug)]
pub struct DocumentStore {
    docs: Vec<TrackedDocument>,
}

/// `docs[i]` is the entry of `uri`.
spec fn holds_at(docs: Seq<TrackedDocument>, i: int, uri: Seq<char>) -> bool {
    0 <= i < docs.len() && docs[i].uri@ == uri
}

/// No two entries share a URI.
spec fn distinct_uris(docs: Seq<TrackedDocument>) -> bool {
    forall|i: int, j: int| 0 <= i < j < docs.len() ==> docs[i].uri@ != docs[j].uri@
}

/// The entries as a map from URI to text.
spec fn docs_map(docs: Seq<TrackedDocument>) -> Map<Seq<char>, Seq<char>> {
    Map::new(
        |uri: Seq<char>| exists|i: int| holds_at(docs, i, uri),
        |uri: Seq<char>| docs[choose|i: int| holds_at(docs, i, uri)].text@,
    )
}

proof fn lemma_entry_in_map(docs: Seq<TrackedDocument>, i: int)
    requires
        distinct_uris(docs),
        0 <= i < docs.len(),
    ensures
        docs_map(docs).contains_key(docs[i].uri@),
        docs_map(docs)[docs[i].uri@] == docs[i].text@,
{
    let uri = docs[i].uri@;
    assert(holds_at(docs, i, uri));
    let k = choose|k: int| holds_at(docs, k, uri);
    assert(k == i);
}

proof fn lemma_absent_from_map(docs: Seq<TrackedDocument>, uri: Seq<char>)
    requires
        forall|i: int| 0 <= i < docs.len() ==> docs[i].uri@ != uri,
    ensures
        !docs_map(docs).contains_key(uri),
{
    assert forall|i: int| !holds_at(docs, i, uri) by {}
}

proof fn lemma_push_inserts(docs: Seq<TrackedDocument>, doc: TrackedDocument)
    requires
        distinct_uris(docs),
        forall|i: int| 0 <= i < docs.len() ==> docs[i].uri@ != doc.uri@,
    ensures
        distinct_uris(docs.push(doc)),
        docs_map(docs.push(doc)) == docs_map(docs).insert(doc.uri@, doc.text@),
{
    let after = docs.push(doc);
    assert(distinct_uris(after));
    assert forall|uri: Seq<char>| #[trigger]
        docs_map(after).contains_key(uri) <==> docs_map(docs).insert(
            doc.uri@,
            doc.text@,
        ).contains_key(uri) by {
        if docs_map(after).contains_key(uri) {
            let k = choose|k: int| holds_at(after, k, uri);
            if k < docs.len() {
                assert(holds_at(docs, k, uri));
            }
        }
        if docs_map(docs).contains_key(uri) {
            let k = choose|k: int| holds_at(docs, k, uri);
            assert(holds_at(after, k, uri));
        }
        if uri == doc.uri@ {
            assert(holds_at(after, docs.len() as int, uri));
        }
    }
    assert forall|uri: Seq<char>| #[trigger]
        docs_map(after).contains_key(uri) implies docs_map(after)[uri] == docs_map(docs).insert(
        doc.uri@,
        doc.text@,
    )[uri] by {
        let k = choose|k: int| holds_at(after, k, uri);
        lemma_entry_in_map(after, k);
        if k < docs.len() {
            lemma_entry_in_map(docs, k);
        }
    }
    assert(docs_map(after) =~= docs_map(docs).insert(doc.uri@, doc.text@));
}

proof fn lemma_update_inserts(docs: Seq<TrackedDocument>, at: int, doc: TrackedDocument)
    requires
        distinct_uris(docs),
        0 <= at < docs.len(),
        docs[at].uri@ == doc.uri@,
    ensures
        distinct_uris(docs.update(at, doc)),
        docs_map(docs.update(at, doc)) == docs_map(docs).insert(doc.uri@, doc.text@),
{
    let after = docs.update(at, doc);
    assert(distinct_uris(after)) by {
        assert forall|i: int, j: int| 0 <= i < j < after.len() implies after[i].uri@
            != after[j].uri@ by {
            assert(after[i].uri@ == docs[i].uri@);
            assert(after[j].uri@ == docs[j].uri@);
        }
    }
    assert forall|uri: Seq<char>| #[trigger]
        docs_map(after).contains_key(uri) <==> docs_map(docs).insert(
            doc.uri@,
            doc.text@,
        ).contains_key(uri) by {
        if docs_map(after).contains_key(uri) {
            let k = choose|k: int| holds_at(after, k, uri);
            assert(holds_at(docs, k, uri));
        }
        if docs_map(docs).contains_key(uri) {
            let k = choose|k: int| holds_at(docs, k, uri);
            assert(holds_at(after, k, uri));
        }
        if uri == doc.uri@ {
            assert(holds_at(after, at, uri));
        }
    }
    assert forall|uri: Seq<char>| #[trigger]
        docs_map(after).contains_key(uri) implies docs_map(after)[uri] == docs_map(docs).insert(
        doc.uri@,
        doc.text@,
    )[uri] by {
        let k = choose|k: int| holds_at(after, k, uri);
        lemma_entry_in_map(after, k);
        if k != at {
            lemma_entry_in_map(docs, k);
        }
    }
    assert(docs_map(after) =~= docs_map(docs).insert(doc.uri@, doc.text@));
}

impl View for DocumentStore {
    type V = Map<Seq<char>, Seq<char>>;

    /// The text held for each tracked URI.
    closed spec fn view(&self) -> Map<Seq<char>, Seq<char>> {
        docs_map(self.docs@)
    }
}

impl DocumentStore {
    #[verifier::type_invariant]
    spec fn inv(&self) -> bool {
        distinct_uris(self.docs@)
    }

    /// A store that tracks no document.
    pub fn new() -> (store: DocumentStore)
        ensures
            store@ == Map::<Seq<char>, Seq<char>>::empty(),
    {
        let store = DocumentStore { docs: Vec::new() };
        proof {
            lemma_absent_all(store.docs@);
        }
        store
    }

    fn position(&self, uri: &String) -> (at: Option<usize>)
        ensures
            match at {
                Some(i) => i < self.docs@.len() && self.docs@[i as int].uri@ == uri@,
                None => forall|i: int| 0 <= i < self.docs@.len() ==> self.docs@[i].uri@ != uri@,
            },
    {
        let mut i: usize = 0;
        while i < self.docs.len()
            invariant
                i <= self.docs@.len(),
                forall|j: int| 0 <= j < i ==> self.docs@[j].uri@ != uri@,
            decreases self.docs@.len() - i,
        {
            if self.docs[i].uri == *uri {
                return Some(i);
            }
            i = i + 1;
        }
        None
    }

    /// The text last written for `uri`, if the document is tracked.
    pub fn get(&self, uri: &String) -> (text: Option<&String>)
        ensures
            match text {
                Some(t) => self@.contains_key(uri@) && t@ == self@[uri@],
                None => !self@.contains_key(uri@),
            },
    {
        proof {
            use_type_invariant(self);
        }
        match self.position(uri) {
            Some(i) => {
                proof {
                    lemma_entry_in_map(self.docs@, i as int);
                }
                Some(&self.docs[i].text)
            },
            None => {
                proof {
                    lemma_absent_from_map(self.docs@, uri@);
                }
                None
            },
        }
    }

    /// The number of tracked documents: one entry for each URI.
    pub fn len(&self) -> (count: usize)
        ensures
            self@.dom().finite(),
            count == self@.dom().len(),
    {
        proof {
            use_type_invariant(self);
            lemma_one_entry_per_uri(self.docs@);
        }
        self.docs.len()
    }

    /// Tells whether `uri` is tracked.
    pub fn contains(&self, uri: &String) -> (known: bool)
        ensures
            known == self@.contains_key(uri@),
    {
        self.get(uri).is_some()
    }

    /// Writes `text` for `uri`: a new entry if the document was not tracked,
    /// else the full replacement of its text.
    pub fn upsert(&mut self, uri: String, text: String)
        ensures
            final(self)@ == old(self)@.insert(uri@, text@),
    {
        proof {
            use_type_invariant(&*self);
        }
        let doc = TrackedDocument { uri, text };
        let at = self.position(&doc.uri);
        let mut docs: Vec<TrackedDocument> = Vec::new();
        std::mem::swap(&mut self.docs, &mut docs);
        match at {
            Some(i) => {
                proof {
                    lemma_update_inserts(docs@, i as int, doc);
                }
                docs.set(i, doc);
            },
            None => {
                proof {
                    lemma_push_inserts(docs@, doc);
                }
                docs.push(doc);
            },
        }
        self.docs = docs;
    }
}

proof fn lemma_one_entry_per_uri(docs: Seq<TrackedDocument>)
    requires
        distinct_uris(docs),
    ensures
        docs_map(docs).dom().finite(),
        docs_map(docs).dom().len() == docs.len(),
    decreases docs.len(),
{
    if docs.len() == 0 {
        lemma_absent_all(docs);
    } else {
        let rest = docs.drop_last();
        let last = docs.last();
        assert(distinct_uris(rest)) by {
            assert forall|i: int, j: int| 0 <= i < j < rest.len() implies rest[i].uri@
                != rest[j].uri@ by {
                assert(rest[i] == docs[i] && rest[j] == docs[j]);
            }
        }
        assert forall|i: int| 0 <= i < rest.len() implies rest[i].uri@ != last.uri@ by {
            assert(rest[i] == docs[i]);
        }
        lemma_one_entry_per_uri(rest);
        lemma_absent_from_map(rest, last.uri@);
        lemma_push_inserts(rest, last);
        assert(rest.push(last) =~= docs);
        assert(docs_map(docs).dom() =~= docs_map(rest).dom().insert(last.uri@));
    }
}

proof fn lemma_absent_all(docs: Seq<TrackedDocument>)
    requires
        docs.len() == 0,
    ensures
        docs_map(docs) == Map::<Seq<char>, Seq<char>>::empty(),
{
    assert forall|uri: Seq<char>| !(#[trigger] docs_map(docs).contains_key(uri)) by {
        lemma_absent_from_map(docs, uri);
    }
    assert(docs_map(docs) =~= Map::<Seq<char>, Seq<char>>::empty());
}

/// The latest write wins: of two writes for one URI only the second is
/// held, as if the first had never been made, and the text of every other
/// document stays as it was.
pub proof fn lemma_latest_write_wins(
    documents: Map<Seq<char>, Seq<char>>,
    uri: Seq<char>,
    first: Seq<char>,
    second: Seq<char>,
)
    ensures
        documents.insert(uri, first).insert(uri, second) == documents.insert(uri, second),
        documents.insert(uri, first).insert(uri, second)[uri] == second,
        forall|other: Seq<char>|
            other != uri ==> (#[trigger] documents.insert(uri, first).insert(
                uri,
                second,
            ).contains_key(other) <==> documents.contains_key(other)),
        forall|other: Seq<char>|
            other != uri && documents.contains_key(other) ==> #[trigger] documents.insert(
                uri,
                first,
            ).insert(uri, second)[other] == documents[other],
{
    assert(documents.insert(uri, first).insert(uri, second) =~= documents.insert(uri, second));
}

} // verus!
