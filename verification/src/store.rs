//! How records are named in the key-value store, and how the names of all
//! stored records are gathered page by page.
//!
//! A record is stored under the key made of `KEY_PREFIX` and the decimal
//! numeral of its chat identifier. The store lists its keys in pages; the
//! listing is followed until the store says it is complete, and yields the
//! keys of all pages in order, each without the prefix.

use vstd::prelude::*;
use crate::group::ChatId;
use crate::text::{
    decimal, decimal_string, has_prefix, lemma_decimal_round_trip, parse_i64, parse_integer,
    texts, to_chars,
};

verus! {

/// What every key of a record begins with.
pub const KEY_PREFIX: &'static str = "group-";

/// The characters of `KEY_PREFIX`.
pub open spec fn key_prefix() -> Seq<char> {
    seq!['g', 'r', 'o', 'u', 'p', '-']
}

/// The key under which the record of the chat `id` is stored.
pub open spec fn group_key(id: i64) -> Seq<char> {
    key_prefix() + decimal(id as int)
}

/// What follows the prefix in `key`, if `key` begins with the prefix.
pub open spec fn key_name(key: Seq<char>) -> Option<Seq<char>> {
    if key_prefix().is_prefix_of(key) {
        Some(key.skip(key_prefix().len() as int))
    } else {
        None
    }
}

/// The names of the keys `keys`, in order; a key without the prefix has none.
pub open spec fn key_names(keys: Seq<Seq<char>>) -> Seq<Seq<char>>
    decreases keys.len(),
{
    if keys.len() == 0 {
        Seq::empty()
    } else {
        match key_name(keys.last()) {
            Some(name) => key_names(keys.drop_last()).push(name),
            None => key_names(keys.drop_last()),
        }
    }
}

/// The chat that the name `name` of a key stands for, if it is the numeral
/// of a chat identifier.
pub open spec fn chat_of_name(name: Seq<char>) -> Option<i64> {
    parse_i64(name)
}

/// The key under which the record of `chat_id` is stored.
pub fn key_of(chat_id: &ChatId) -> (out: String)
    ensures
        out@ == group_key(chat_id.0),
{
    proof {
        reveal_strlit("group-");
    }
    let mut out: String = String::from_str(KEY_PREFIX);
    assert(out@ =~= key_prefix());
    out.append(decimal_string(chat_id.0).as_str());
    out
}

/// The name of `key`: what follows the prefix.
pub fn name_of(key: &str) -> (out: Option<String>)
    ensures
        out.is_some() == key_name(key@).is_some(),
        out matches Some(name) ==> key_name(key@) == Some(name@),
{
    proof {
        reveal_strlit("group-");
    }
    let chars: Vec<char> = to_chars(key);
    let prefix: Vec<char> = to_chars(KEY_PREFIX);
    assert(prefix@ =~= key_prefix());
    if has_prefix(&chars, &prefix) {
        let n: usize = chars.len();
        assert(key@.subrange(6, n as int) == key@.skip(6));
        Some(String::from_str(key.substring_char(6, n)))
    } else {
        None
    }
}

/// Reads the name of a key back into the chat identifier it was made of.
pub fn parse_chat_id(name: &str) -> (out: Option<ChatId>)
    ensures
        out.is_some() == chat_of_name(name@).is_some(),
        out matches Some(id) ==> chat_of_name(name@) == Some(id.0),
{
    match parse_integer(name) {
        Some(id) => Some(ChatId(id)),
        None => None,
    }
}

/// The key of a chat names that chat again: whatever the identifier,
/// negative ones too, the name of its key reads back as the identifier.
pub proof fn lemma_key_round_trip(id: i64)
    ensures
        key_name(group_key(id)).is_some(),
        key_name(group_key(id)).unwrap() == decimal(id as int),
        chat_of_name(key_name(group_key(id)).unwrap()) == Some(id),
{
    let key = group_key(id);
    assert(key.subrange(0, 6) =~= key_prefix());
    assert(key.skip(6) =~= decimal(id as int));
    lemma_decimal_round_trip(id as int);
}

/// One page of a listing, as the store hands it out.
#[derive(Clone, Debug, PartialEq, Eq)]
pub struct Page {
    /// The keys of this page, in the order of the store.
    pub keys: Vec<String>,
    /// Where the next page begins, if the store says so.
    pub cursor: Option<String>,
    /// Whether the store says that the listing is complete.
    pub complete: bool,
}

/// A page as a plain value.
pub ghost struct PageModel {
    pub keys: Seq<Seq<char>>,
    pub cursor: Option<Seq<char>>,
    pub complete: bool,
}

impl PageModel {
    /// Whether the listing ends with this page: the store says it is
    /// complete, or gives no place to go on from.
    pub open spec fn is_last(self) -> bool {
        self.complete || self.cursor is None
    }
}

impl View for Page {
    type V = PageModel;

    open spec fn view(&self) -> PageModel {
        PageModel {
            keys: texts(self.keys@),
            cursor: match self.cursor {
                Some(cursor) => Some(cursor@),
                None => None,
            },
            complete: self.complete,
        }
    }
}

/// A listing in progress as a plain value.
pub ghost struct ListingModel {
    /// The names gathered so far.
    pub names: Seq<Seq<char>>,
    /// Whether the last page has been taken.
    pub finished: bool,
}

impl ListingModel {
    /// The listing before its first page.
    pub open spec fn initial() -> ListingModel {
        ListingModel { names: Seq::empty(), finished: false }
    }

    /// The listing after `page` was taken. A page that comes after the last
    /// one is ignored.
    pub open spec fn accepted(self, page: PageModel) -> ListingModel {
        if self.finished {
            self
        } else {
            ListingModel { names: self.names + key_names(page.keys), finished: page.is_last() }
        }
    }

    /// The listing after `pages` were taken in order.
    pub open spec fn accepted_all(self, pages: Seq<PageModel>) -> ListingModel
        decreases pages.len(),
    {
        if pages.len() == 0 {
            self
        } else {
            self.accepted_all(pages.drop_last()).accepted(pages.last())
        }
    }
}

/// The names of the keys of `pages`, page after page.
pub open spec fn names_of_pages(pages: Seq<PageModel>) -> Seq<Seq<char>>
    decreases pages.len(),
{
    if pages.len() == 0 {
        Seq::empty()
    } else {
        names_of_pages(pages.drop_last()) + key_names(pages.last().keys)
    }
}

/// Whether `pages` is what a store hands out for one listing: every page
/// but the last one says where to go on.
pub open spec fn one_listing(pages: Seq<PageModel>) -> bool {
    forall|i: int| 0 <= i < pages.len() - 1 ==> !(#[trigger] pages[i]).is_last()
}

/// The names of all stored records, gathered page by page.
#[derive(Debug)]
pub struct KeyListing {
    names: Vec<String>,
    finished: bool,
}

impl View for KeyListing {
    type V = ListingModel;

    closed spec fn view(&self) -> ListingModel {
        ListingModel { names: texts(self.names@), finished: self.finished }
    }
}

impl KeyListing {
    /// A listing before its first page. The first page is asked for without
    /// a cursor.
    pub fn new() -> (out: KeyListing)
        ensures
            out@ == ListingModel::initial(),
    {
        let out = KeyListing { names: Vec::new(), finished: false };
        assert(out@.names =~= Seq::<Seq<char>>::empty());
        out
    }

    /// Takes the next page of the listing and says where to go on: at the
    /// cursor of the page, or nowhere once the listing is finished.
    pub fn accept(&mut self, page: &Page) -> (next: Option<String>)
        ensures
            final(self)@ == old(self)@.accepted(page@),
            next.is_some() == !final(self)@.finished,
            next matches Some(cursor) ==> page@.cursor == Some(cursor@),
    {
        if self.finished {
            return None;
        }
        let ghost before: Seq<Seq<char>> = self@.names;
        let mut i: usize = 0;
        while i < page.keys.len()
            invariant
                i <= page.keys@.len(),
                !self.finished,
                before == old(self)@.names,
                self@.names == before + key_names(texts(page.keys@).take(i as int)),
            decreases page.keys@.len() - i,
        {
            proof {
                let keys = texts(page.keys@);
                assert(keys.take(i + 1).drop_last() == keys.take(i as int));
                assert(keys.take(i + 1).last() == page.keys@[i as int]@);
            }
            let ghost gathered: Seq<Seq<char>> = self@.names;
            match name_of(page.keys[i].as_str()) {
                Some(name) => {
                    self.names.push(name);
                    assert(self@.names =~= gathered.push(name@));
                    assert(self@.names =~= before + key_names(
                        texts(page.keys@).take(i + 1),
                    ));
                },
                None => {},
            }
            i = i + 1;
        }
        proof {
            assert(texts(page.keys@).take(page.keys@.len() as int) == texts(page.keys@));
        }
        match &page.cursor {
            Some(cursor) => {
                if page.complete {
                    self.finished = true;
                    None
                } else {
                    Some(cursor.clone())
                }
            },
            None => {
                self.finished = true;
                None
            },
        }
    }

    /// Whether the last page has been taken.
    pub fn is_finished(&self) -> (out: bool)
        ensures
            out == self@.finished,
    {
        self.finished
    }

    /// The names gathered, in the order of the store.
    pub fn into_names(self) -> (out: Vec<String>)
        ensures
            texts(out@) == self@.names,
    {
        self.names
    }
}

/// Following one listing to its end gathers the names of all its pages in
/// order: nothing is left out, nothing comes twice. The listing is finished
/// exactly when the last page has been taken.
pub proof fn lemma_listing_gathers_all_pages(pages: Seq<PageModel>)
    requires
        one_listing(pages),
    ensures
        ListingModel::initial().accepted_all(pages).names == names_of_pages(pages),
        ListingModel::initial().accepted_all(pages).finished == (pages.len() > 0
            && pages.last().is_last()),
    decreases pages.len(),
{
    if pages.len() > 0 {
        let head = pages.drop_last();
        assert forall|i: int| 0 <= i < head.len() - 1 implies !(#[trigger] head[i]).is_last() by {
            assert(head[i] == pages[i]);
        }
        lemma_listing_gathers_all_pages(head);
        if head.len() > 0 {
            assert(head.last() == pages[pages.len() - 2]);
        }
    }
}

/// Where every key bears the prefix, there are as many names as keys, and
/// each name is its key without the prefix.
pub proof fn lemma_key_names_of_prefixed(keys: Seq<Seq<char>>)
    requires
        forall|i: int| 0 <= i < keys.len() ==> key_name(#[trigger] keys[i]).is_some(),
    ensures
        key_names(keys).len() == keys.len(),
        forall|i: int| 0 <= i < keys.len() ==> Some(#[trigger] key_names(keys)[i]) == key_name(keys[i]),
    decreases keys.len(),
{
    if keys.len() > 0 {
        let head = keys.drop_last();
        assert forall|i: int| 0 <= i < head.len() implies key_name(#[trigger] head[i]).is_some() by {
            assert(head[i] == keys[i]);
        }
        lemma_key_names_of_prefixed(head);
        assert(key_name(keys.last()).is_some());
        assert forall|i: int| 0 <= i < keys.len() implies Some(#[trigger] key_names(keys)[i])
            == key_name(keys[i]) by {
            if i < head.len() {
                assert(key_names(keys)[i] == key_names(head)[i]);
                assert(head[i] == keys[i]);
            }
        }
    }
}

} // verus!
