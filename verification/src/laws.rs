//! Laws of the data model: what holds of every document and every posting
//! record, stated over their views and proved from the contracts in `models`.

use vstd::prelude::*;
use crate::models::{Document, DocumentView, Index, IndexView};

verus! {

/// A document gives back what it was built from: when `d` is what
/// `Document::new` returns on `id`, `url`, `title` and `content`, the accessors
/// of `d` return exactly these four values.
pub proof fn lemma_document_round_trip(
    d: Document,
    id: i32,
    url: Seq<char>,
    title: Seq<char>,
    content: Seq<char>,
)
    requires
        d@ == (DocumentView { id: id, url: url, title: title, content: content }),
    ensures
        d@.id == id,
        d@.url == url,
        d@.title == title,
        d@.content == content,
{
}

/// A posting record starts with the positions it was given: when `i` is what
/// `Index::new` returns on `id`, `word` and `locations`, then `i.locations()`
/// has the length of `locations` and the same element at every place, and
/// `i.id()` and `i.word()` return `id` and `word`.
pub proof fn lemma_index_round_trip(i: Index, id: i32, word: Seq<char>, locations: Seq<i32>)
    requires
        i@ == (IndexView { id: id, word: word, locations: locations }),
    ensures
        i@.id == id,
        i@.word == word,
        i@.locations.len() == locations.len(),
        forall|k: int| 0 <= k < locations.len() ==> i@.locations[k] == locations[k],
{
}

/// Reading a document twice gives the same twice: whatever two calls of one
/// accessor return on the same document, with nothing done in between, the two
/// results are equal.
pub proof fn lemma_document_reads_repeat(
    d: Document,
    id_a: i32,
    id_b: i32,
    url_a: String,
    url_b: String,
    title_a: String,
    title_b: String,
    content_a: String,
    content_b: String,
)
    requires
        id_a == d@.id,
        id_b == d@.id,
        url_a@ == d@.url,
        url_b@ == d@.url,
        title_a@ == d@.title,
        title_b@ == d@.title,
        content_a@ == d@.content,
        content_b@ == d@.content,
    ensures
        id_a == id_b,
        url_a@ == url_b@,
        title_a@ == title_b@,
        content_a@ == content_b@,
{
}

/// Reading a posting record twice gives the same twice: whatever two calls of
/// one accessor return on the same record, with no append in between, the two
/// results are equal.
pub proof fn lemma_index_reads_repeat(
    i: Index,
    id_a: i32,
    id_b: i32,
    word_a: String,
    word_b: String,
    locations_a: &Vec<i32>,
    locations_b: &Vec<i32>,
)
    requires
        id_a == i@.id,
        id_b == i@.id,
        word_a@ == i@.word,
        word_b@ == i@.word,
        locations_a@ == i@.locations,
        locations_b@ == i@.locations,
    ensures
        id_a == id_b,
        word_a@ == word_b@,
        locations_a@ == locations_b@,
{
}

/// Appends add up in order: a record to which the positions of `positions` were
/// appended one by one, first to last, holds its earlier positions followed by
/// `positions`, and has the identity and the word it had. Nothing is asked of
/// the positions: they may repeat each other or what is already there.
pub proof fn lemma_appends_concatenate(before: IndexView, positions: Seq<i32>)
    ensures
        before.append_all(positions).id == before.id,
        before.append_all(positions).word == before.word,
        before.append_all(positions).locations == before.locations + positions,
    decreases positions.len(),
{
    if positions.len() == 0 {
        assert(before.locations + positions =~= before.locations);
    } else {
        let next = before.append(positions.first());
        lemma_appends_concatenate(next, positions.drop_first());
        assert(next.locations + positions.drop_first() =~= before.locations + positions);
    }
}

/// An append only grows a record: the positions that were there stay where
/// they were, and the length goes up by one.
pub proof fn lemma_append_keeps_earlier(before: IndexView, position: i32)
    ensures
        before.append(position).locations.len() == before.locations.len() + 1,
        before.append(position).locations.last() == position,
        forall|k: int|
            0 <= k < before.locations.len() ==> before.append(position).locations[k]
                == before.locations[k],
{
}

} // verus!
