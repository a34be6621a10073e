//! What holds of [`FindOrCreateBook`](crate::sheet::FindOrCreateBook) against a
//! remote store that answers.
//!
//! The store is taken as the only record of whether the spreadsheet exists: the
//! library keeps nothing between attempts, so each attempt asks again.

use crate::drive::{found_file, pointer_target};
use crate::error::ErrorKind;
use crate::http::{reply_text, HttpReply, RemoteCallView};
use crate::json::{json_of_text, JsonModel};
use crate::sheet::{
    accepted, book_in_reply, lemma_pointer_content_names_its_spreadsheet, pointer_content,
    FindOrCreateBookView,
};
use vstd::prelude::*;

verus! {

/// The remote store as an attempt meets it.
pub struct RemoteStore {
    /// What the pointer file holds, where there is a pointer file. A new pointer
    /// file replaces the one before.
    pub pointer: Option<JsonModel>,
    /// The spreadsheets that were created, in order.
    pub books: Seq<Seq<char>>,
}

/// Whether `reply` is what a store in the state `before` answers to the request
/// that is due in `state`, leaving the store as `after`. Such a store lists the
/// pointer file exactly where there is one, hands out what the pointer file
/// holds, creates a spreadsheet when asked to, and keeps the pointer file that is
/// uploaded.
pub open spec fn served(
    before: RemoteStore,
    state: FindOrCreateBookView,
    reply: Option<HttpReply>,
    after: RemoteStore,
) -> bool {
    match state {
        FindOrCreateBookView::Lookup => {
            &&& after == before
            &&& found_file(reply) is Some <==> before.pointer is Some
        },
        FindOrCreateBookView::ReadPointer { .. } => {
            &&& after == before
            &&& reply_text(reply) matches Some(content)
            &&& json_of_text(content) == before.pointer
        },
        FindOrCreateBookView::CreateBook => {
            &&& book_in_reply(reply) matches Some(book)
            &&& after == RemoteStore { pointer: before.pointer, books: before.books.push(book.0) }
        },
        FindOrCreateBookView::StorePointer { .. } => {
            &&& accepted(reply)
            &&& state.due() matches Some(RemoteCallView::Upload { media, .. })
            &&& after == RemoteStore { pointer: Some(media.content), books: before.books }
        },
        _ => after == before,
    }
}

/// An attempt against a store that holds a pointer ends after two requests and
/// creates nothing: with the spreadsheet that the pointer names, or as
/// `PointerMalformed` where it names none.
pub proof fn lemma_pointer_is_followed(
    s0: RemoteStore,
    listing: Option<HttpReply>,
    s1: RemoteStore,
    content: Option<HttpReply>,
    s2: RemoteStore,
)
    requires
        s0.pointer is Some,
        served(s0, FindOrCreateBookView::Lookup, listing, s1),
        served(s1, FindOrCreateBookView::Lookup.after(listing), content, s2),
    ensures
        FindOrCreateBookView::Lookup.after(listing).after(content) == match pointer_target(
            s0.pointer->0,
        ) {
            Some(id) => FindOrCreateBookView::Done(id),
            None => FindOrCreateBookView::Failed(ErrorKind::PointerMalformed),
        },
        s2 == s0,
{
}

/// An attempt against a store without a pointer creates one spreadsheet, stores
/// the pointer to it and ends with its id, after three requests.
pub proof fn lemma_missing_pointer_is_created(
    s0: RemoteStore,
    listing: Option<HttpReply>,
    s1: RemoteStore,
    created: Option<HttpReply>,
    s2: RemoteStore,
    stored: Option<HttpReply>,
    s3: RemoteStore,
)
    requires
        s0.pointer is None,
        served(s0, FindOrCreateBookView::Lookup, listing, s1),
        served(s1, FindOrCreateBookView::Lookup.after(listing), created, s2),
        served(s2, FindOrCreateBookView::Lookup.after(listing).after(created), stored, s3),
    ensures
        book_in_reply(created) is Some,
        FindOrCreateBookView::Lookup.after(listing).after(created).after(stored)
            == FindOrCreateBookView::Done(book_in_reply(created).unwrap().0),
        s3.pointer == Some(pointer_content(book_in_reply(created).unwrap().0)),
        s3.books == s0.books.push(book_in_reply(created).unwrap().0),
{
}

/// Two attempts one after the other against a store that starts without a
/// pointer end with the same spreadsheet: the first creates it, the second
/// finds it and creates nothing.
pub proof fn lemma_second_attempt_finds_the_first(
    s0: RemoteStore,
    listing: Option<HttpReply>,
    s1: RemoteStore,
    created: Option<HttpReply>,
    s2: RemoteStore,
    stored: Option<HttpReply>,
    s3: RemoteStore,
    listing_again: Option<HttpReply>,
    s4: RemoteStore,
    content: Option<HttpReply>,
    s5: RemoteStore,
)
    requires
        s0.pointer is None,
        served(s0, FindOrCreateBookView::Lookup, listing, s1),
        served(s1, FindOrCreateBookView::Lookup.after(listing), created, s2),
        served(s2, FindOrCreateBookView::Lookup.after(listing).after(created), stored, s3),
        served(s3, FindOrCreateBookView::Lookup, listing_again, s4),
        served(s4, FindOrCreateBookView::Lookup.after(listing_again), content, s5),
    ensures
        FindOrCreateBookView::Lookup.after(listing).after(created).after(stored) is Done,
        FindOrCreateBookView::Lookup.after(listing_again).after(content)
            == FindOrCreateBookView::Lookup.after(listing).after(created).after(stored),
        s5.books == s3.books,
        s3.books.len() == s0.books.len() + 1,
{
    lemma_missing_pointer_is_created(s0, listing, s1, created, s2, stored, s3);
    lemma_pointer_content_names_its_spreadsheet(book_in_reply(created).unwrap().0);
    lemma_pointer_is_followed(s3, listing_again, s4, content, s5);
}

/// Two attempts that both look for the pointer before either has stored one
/// each create a spreadsheet: the store then holds two, each attempt ends with
/// its own, and the pointer names the one that was stored last.
pub proof fn lemma_overlapping_attempts_create_twice(
    s0: RemoteStore,
    listing_a: Option<HttpReply>,
    s1: RemoteStore,
    listing_b: Option<HttpReply>,
    s2: RemoteStore,
    created_a: Option<HttpReply>,
    s3: RemoteStore,
    created_b: Option<HttpReply>,
    s4: RemoteStore,
    stored_a: Option<HttpReply>,
    s5: RemoteStore,
    stored_b: Option<HttpReply>,
    s6: RemoteStore,
)
    requires
        s0.pointer is None,
        served(s0, FindOrCreateBookView::Lookup, listing_a, s1),
        served(s1, FindOrCreateBookView::Lookup, listing_b, s2),
        served(s2, FindOrCreateBookView::Lookup.after(listing_a), created_a, s3),
        served(s3, FindOrCreateBookView::Lookup.after(listing_b), created_b, s4),
        served(s4, FindOrCreateBookView::Lookup.after(listing_a).after(created_a), stored_a, s5),
        served(s5, FindOrCreateBookView::Lookup.after(listing_b).after(created_b), stored_b, s6),
    ensures
        book_in_reply(created_a) is Some,
        book_in_reply(created_b) is Some,
        FindOrCreateBookView::Lookup.after(listing_a).after(created_a).after(stored_a)
            == FindOrCreateBookView::Done(book_in_reply(created_a).unwrap().0),
        FindOrCreateBookView::Lookup.after(listing_b).after(created_b).after(stored_b)
            == FindOrCreateBookView::Done(book_in_reply(created_b).unwrap().0),
        s6.books == s0.books.push(book_in_reply(created_a).unwrap().0).push(
            book_in_reply(created_b).unwrap().0,
        ),
        s6.pointer == Some(pointer_content(book_in_reply(created_b).unwrap().0)),
{
}

/// Where the spreadsheet is created but the pointer to it cannot be stored, the
/// attempt fails, the spreadsheet stays, and the store still has no pointer: the
/// next attempt will not find it.
pub proof fn lemma_unstored_pointer_leaves_an_orphan(
    s0: RemoteStore,
    listing: Option<HttpReply>,
    s1: RemoteStore,
    created: Option<HttpReply>,
    s2: RemoteStore,
    stored: Option<HttpReply>,
)
    requires
        s0.pointer is None,
        served(s0, FindOrCreateBookView::Lookup, listing, s1),
        served(s1, FindOrCreateBookView::Lookup.after(listing), created, s2),
        !accepted(stored),
    ensures
        FindOrCreateBookView::Lookup.after(listing).after(created).after(stored)
            == FindOrCreateBookView::Failed(ErrorKind::PointerCreateFailed),
        s2.books.len() == s0.books.len() + 1,
        s2.pointer is None,
{
}

/// An attempt that has ended stays as it is, whatever arrives.
pub proof fn lemma_ended_attempt_stays(state: FindOrCreateBookView, reply: Option<HttpReply>)
    requires
        state.ended(),
    ensures
        state.after(reply) == state,
        state.due() is None,
{
}

} // verus!
