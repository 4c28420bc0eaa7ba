//! Documents and posting records.
//!
//! Each record type has a view, a plain mathematical value that the contracts
//! speak of. The fields themselves are private: a document never changes after
//! it is built, and a posting record changes only by `Index::set_locations`,
//! which appends one position.

use vstd::prelude::*;

verus! {

/// What a `Document` holds, as a mathematical value.
pub struct DocumentView {
    pub id: i32,
    pub url: Seq<char>,
    pub title: Seq<char>,
    pub content: Seq<char>,
}

/// One ingested unit of text, such as a web page. Read-only once built.
pub struct Document {
    id: i32,
    url: String,
    title: String,
    content: String,
}

impl View for Document {
    type V = DocumentView;

    closed spec fn view(&self) -> DocumentView {
        DocumentView {
            id: self.id,
            url: self.url@,
            title: self.title@,
            content: self.content@,
        }
    }
}

impl Document {
    /// Builds a document that holds the four values as given. Nothing is
    /// checked: any id and any text, empty text included, is accepted.
    pub fn new(id: i32, url: String, title: String, content: String) -> (d: Document)
        ensures
            d@ == (DocumentView { id: id, url: url@, title: title@, content: content@ }),
    {
        Document { id: id, url: url, title: title, content: content }
    }

    /// The document's identity.
    pub fn id(&self) -> (r: i32)
        ensures
            r == self@.id,
    {
        self.id
    }

    /// A copy of the source locator.
    pub fn url(&self) -> (r: String)
        ensures
            r@ == self@.url,
    {
        self.url.clone()
    }

    /// A copy of the title.
    pub fn title(&self) -> (r: String)
        ensures
            r@ == self@.title,
    {
        self.title.clone()
    }

    /// A copy of the body text.
    pub fn content(&self) -> (r: String)
        ensures
            r@ == self@.content,
    {
        self.content.clone()
    }
}

/// What an `Index` holds, as a mathematical value.
pub struct IndexView {
    pub id: i32,
    pub word: Seq<char>,
    pub locations: Seq<i32>,
}

impl IndexView {
    /// The record after one more occurrence at `position` was noted: the
    /// position stands at the end, everything else is as before.
    pub open spec fn append(self, position: i32) -> IndexView {
        IndexView { id: self.id, word: self.word, locations: self.locations.push(position) }
    }

    /// The record after the occurrences in `positions` were noted one by one,
    /// first to last.
    pub open spec fn append_all(self, positions: Seq<i32>) -> IndexView
        decreases positions.len(),
    {
        if positions.len() == 0 {
            self
        } else {
            self.append(positions.first()).append_all(positions.drop_first())
        }
    }
}

/// The posting record of one word in one document: the word and the positions
/// at which it occurs, in the order in which they were noted. The record owns
/// its positions; they are never sorted, deduplicated, removed or reordered.
pub struct Index {
    id: i32,
    word: String,
    locations: Vec<i32>,
}

impl View for Index {
    type V = IndexView;

    closed spec fn view(&self) -> IndexView {
        IndexView { id: self.id, word: self.word@, locations: self.locations@ }
    }
}

impl Index {
    /// Builds a posting record from an identity, a word and the positions
    /// known so far, which may be none. The record takes the positions over:
    /// the caller gives the vector away and keeps no handle on it.
    pub fn new(id: i32, word: String, locations: Vec<i32>) -> (i: Index)
        ensures
            i@ == (IndexView { id: id, word: word@, locations: locations@ }),
    {
        Index { id: id, word: word, locations: locations }
    }

    /// The record's identity.
    pub fn id(&self) -> (r: i32)
        ensures
            r == self@.id,
    {
        self.id
    }

    /// A copy of the word that the record indexes.
    pub fn word(&self) -> (r: String)
        ensures
            r@ == self@.word,
    {
        self.word.clone()
    }

    /// The positions noted so far, oldest first, for reading only.
    pub fn locations(&self) -> (r: &Vec<i32>)
        ensures
            r@ == self@.locations,
    {
        &self.locations
    }

    /// Notes one more occurrence: `val` is put at the end of the positions.
    /// It need not differ from, nor come after, what is already there.
    pub fn set_locations(&mut self, val: i32)
        ensures
            final(self)@ == old(self)@.append(val),
    {
        self.locations.push(val);
    }
}

} // verus!
