//! A structured document: the tree of values that configuration files and
//! probe responses are read from, whatever format they were written in.

use vstd::prelude::*;
use vstd::string::*;
use crate::decimal::{parse_unsigned, unsigned_decimal};
use crate::text::same_text;

verus! {

/// A structured value. The entries of an object keep the order of the
/// document; a key is looked up from the front, so the first entry of a
/// repeated key is the one that is found.
#[derive(Debug)]
pub enum Document {
    Null,
    Bool(bool),
    /// A number, as the text that writes it in base ten.
    Number(String),
    String(String),
    Array(Vec<Document>),
    Object(Vec<(String, Document)>),
}

/// A document as the tree of characters that it stands for.
pub enum DocumentView {
    Null,
    Bool(bool),
    Number(Seq<char>),
    String(Seq<char>),
    Array(Seq<DocumentView>),
    Object(Seq<(Seq<char>, DocumentView)>),
}

/// The tree that `doc` stands for: its texts by their characters, its
/// items and entries in their order.
pub open spec fn tree_of(doc: Document) -> DocumentView
    decreases doc,
{
    match doc {
        Document::Null => DocumentView::Null,
        Document::Bool(flag) => DocumentView::Bool(flag),
        Document::Number(written) => DocumentView::Number(written@),
        Document::String(text) => DocumentView::String(text@),
        Document::Array(items) => DocumentView::Array(
            Seq::new(
                items@.len(),
                |i: int|
                    if 0 <= i < items@.len() {
                        tree_of(items@[i])
                    } else {
                        DocumentView::Null
                    },
            ),
        ),
        Document::Object(entries) => DocumentView::Object(
            Seq::new(
                entries@.len(),
                |i: int|
                    if 0 <= i < entries@.len() {
                        (entries@[i].0@, tree_of(entries@[i].1))
                    } else {
                        (Seq::empty(), DocumentView::Null)
                    },
            ),
        ),
    }
}

impl View for Document {
    type V = DocumentView;

    open spec fn view(&self) -> DocumentView {
        tree_of(*self)
    }
}

/// The trees of `items`.
pub open spec fn item_views(items: Seq<Document>) -> Seq<DocumentView> {
    Seq::new(items.len(), |i: int| items[i]@)
}

/// The trees of `entries`, each with the characters of its key.
pub open spec fn entry_views(entries: Seq<(String, Document)>) -> Seq<(Seq<char>, DocumentView)> {
    Seq::new(entries.len(), |i: int| (entries[i].0@, entries[i].1@))
}

/// The tree of an array holds the trees of its items, and the tree of an
/// object those of its entries.
pub proof fn lemma_views(doc: Document)
    ensures
        doc matches Document::Array(items) ==> doc@ == DocumentView::Array(item_views(items@)),
        doc matches Document::Object(entries) ==> doc@ == DocumentView::Object(
            entry_views(entries@),
        ),
{
    match doc {
        Document::Array(items) => {
            assert(doc@->Array_0 =~= item_views(items@));
        },
        Document::Object(entries) => {
            assert(doc@->Object_0 =~= entry_views(entries@));
        },
        _ => {},
    }
}

/// The value of the first entry whose key is `key`.
pub open spec fn first_with_key(entries: Seq<(Seq<char>, DocumentView)>, key: Seq<char>) -> Option<
    DocumentView,
>
    decreases entries.len(),
{
    if entries.len() == 0 {
        None
    } else if entries[0].0 == key {
        Some(entries[0].1)
    } else {
        first_with_key(entries.drop_first(), key)
    }
}

/// A lookup that has passed over `i` entries without a match goes on in the
/// rest.
pub proof fn lemma_first_with_key_skip(
    entries: Seq<(Seq<char>, DocumentView)>,
    key: Seq<char>,
    i: int,
)
    requires
        0 <= i <= entries.len(),
        forall|k: int| 0 <= k < i ==> entries[k].0 != key,
    ensures
        first_with_key(entries, key) == first_with_key(entries.skip(i), key),
    decreases i,
{
    if i == 0 {
        assert(entries.skip(0) =~= entries);
    } else {
        assert(entries[0].0 != key);
        let rest = entries.drop_first();
        assert forall|k: int| 0 <= k < i - 1 implies rest[k].0 != key by {
            assert(rest[k] == entries[k + 1]);
        }
        lemma_first_with_key_skip(rest, key, i - 1);
        assert(rest.skip(i - 1) =~= entries.skip(i));
    }
}

/// A key that no entry has is not found.
pub proof fn lemma_first_with_key_absent(entries: Seq<(Seq<char>, DocumentView)>, key: Seq<char>)
    requires
        forall|k: int| 0 <= k < entries.len() ==> entries[k].0 != key,
    ensures
        first_with_key(entries, key) is None,
{
    lemma_first_with_key_skip(entries, key, entries.len() as int);
    assert(entries.skip(entries.len() as int).len() == 0);
}

impl DocumentView {
    /// The member `key` of an object; `None` for a missing key and for any
    /// value that is no object.
    pub open spec fn member(self, key: Seq<char>) -> Option<DocumentView> {
        match self {
            DocumentView::Object(entries) => first_with_key(entries, key),
            _ => None,
        }
    }

    /// The characters of a string value.
    pub open spec fn text(self) -> Option<Seq<char>> {
        match self {
            DocumentView::String(text) => Some(text),
            _ => None,
        }
    }

    /// The items of an array value.
    pub open spec fn items(self) -> Option<Seq<DocumentView>> {
        match self {
            DocumentView::Array(items) => Some(items),
            _ => None,
        }
    }

    /// The entries of an object value, in document order.
    pub open spec fn entries(self) -> Option<Seq<(Seq<char>, DocumentView)>> {
        match self {
            DocumentView::Object(entries) => Some(entries),
            _ => None,
        }
    }

    /// The value of a number that is written in digits alone, without
    /// sign, fraction or exponent, and fits 64 bits.
    pub open spec fn unsigned(self) -> Option<u64> {
        match self {
            DocumentView::Number(written) => match unsigned_decimal(written, u64::MAX as nat) {
                Some(value) => Some(value as u64),
                None => None,
            },
            _ => None,
        }
    }
}

impl Document {
    /// Looks `key` up in an object.
    pub fn get<'a>(&'a self, key: &str) -> (found: Option<&'a Document>)
        ensures
            match self@.member(key@) {
                Some(value) => found matches Some(member) && member@ == value,
                None => found is None,
            },
    {
        proof {
            lemma_views(*self);
        }
        match self {
            Document::Object(entries) => {
                let mut i: usize = 0;
                while i < entries.len()
                    invariant
                        i <= entries.len(),
                        self@.member(key@) == first_with_key(entry_views(entries@), key@),
                        forall|k: int| 0 <= k < i ==> entry_views(entries@)[k].0 != key@,
                    decreases entries.len() - i,
                {
                    if same_text(entries[i].0.as_str(), key) {
                        proof {
                            let rest = entry_views(entries@).skip(i as int);
                            lemma_first_with_key_skip(entry_views(entries@), key@, i as int);
                            assert(rest[0] == entry_views(entries@)[i as int]);
                            assert(first_with_key(rest, key@) == Some(rest[0].1));
                        }
                        return Some(&entries[i].1);
                    }
                    i += 1;
                }
                proof {
                    lemma_first_with_key_absent(entry_views(entries@), key@);
                }
                None
            },
            _ => None,
        }
    }

    /// The text of a string value.
    pub fn as_str<'a>(&'a self) -> (text: Option<&'a str>)
        ensures
            match self@.text() {
                Some(written) => text matches Some(s) && s@ == written,
                None => text is None,
            },
    {
        match self {
            Document::String(s) => Some(s.as_str()),
            _ => None,
        }
    }

    /// The items of an array value.
    pub fn as_array<'a>(&'a self) -> (items: Option<&'a Vec<Document>>)
        ensures
            match self@.items() {
                Some(trees) => items matches Some(v) && item_views(v@) == trees,
                None => items is None,
            },
    {
        proof {
            lemma_views(*self);
        }
        match self {
            Document::Array(items) => Some(items),
            _ => None,
        }
    }

    /// The entries of an object value.
    pub fn as_object<'a>(&'a self) -> (entries: Option<&'a Vec<(String, Document)>>)
        ensures
            match self@.entries() {
                Some(trees) => entries matches Some(v) && entry_views(v@) == trees,
                None => entries is None,
            },
    {
        proof {
            lemma_views(*self);
        }
        match self {
            Document::Object(entries) => Some(entries),
            _ => None,
        }
    }

    /// The value of a number that is written in digits alone and fits 64
    /// bits.
    pub fn as_u64(&self) -> (value: Option<u64>)
        ensures
            value == self@.unsigned(),
    {
        match self {
            Document::Number(written) => parse_unsigned(written.as_str(), u64::MAX),
            _ => None,
        }
    }
}

} // verus!
