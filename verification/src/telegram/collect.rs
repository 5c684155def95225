//! Listing with a limit: the service takes items one by one from Telegram and
//! stops once it holds `limit` of them.
use vstd::prelude::*;
use vstd::string::*;
use crate::telegram::search::{contains_spec, text_contains};

verus! {

/// How many items a listing with this limit holds at most: the limit, but at
/// least one (the first item is taken before the limit is checked).
pub open spec fn capacity(limit: i32) -> int {
    if limit < 1 {
        1
    } else {
        limit as int
    }
}

/// The items kept so far of a listing, and whether it has stopped.
pub struct Collector<T> {
    items: Vec<T>,
    limit: i32,
    done: bool,
}

impl<T> Collector<T> {
    pub closed spec fn items_spec(&self) -> Seq<T> {
        self.items@
    }

    pub closed spec fn limit_spec(&self) -> i32 {
        self.limit
    }

    pub closed spec fn done_spec(&self) -> bool {
        self.done
    }

    /// The state of a listing: it never holds more items than its capacity,
    /// and while it goes on it holds fewer than its limit (or none yet).
    pub open spec fn wf(&self) -> bool {
        &&& self.items_spec().len() <= capacity(self.limit_spec())
        &&& !self.done_spec() ==> (self.items_spec().len() < self.limit_spec()
            || self.items_spec().len() == 0)
    }

    pub fn new(limit: i32) -> (c: Collector<T>)
        ensures
            c.wf(),
            c.items_spec() == Seq::<T>::empty(),
            c.limit_spec() == limit,
            !c.done_spec(),
    {
        let c = Collector { items: Vec::new(), limit, done: false };
        assert(c.items_spec() =~= Seq::<T>::empty());
        c
    }

    /// Whether the listing takes another item.
    pub fn wants_more(&self) -> (b: bool)
        ensures
            b == !self.done_spec(),
    {
        !self.done
    }

    /// Offers the next item: it is kept where `keep` holds (every item of a
    /// plain listing; for a search, the ones that match); then the listing
    /// stops once it holds `limit` items, or, with a limit below one, after
    /// the first item it is offered.
    pub fn offer(&mut self, item: T, keep: bool)
        requires
            old(self).wf(),
            !old(self).done_spec(),
        ensures
            final(self).wf(),
            final(self).limit_spec() == old(self).limit_spec(),
            final(self).items_spec() == if keep {
                old(self).items_spec().push(item)
            } else {
                old(self).items_spec()
            },
            final(self).done_spec() == (final(self).items_spec().len() >= final(self).limit_spec()),
    {
        if keep {
            self.items.push(item);
        }
        let n = self.items.len();
        self.done = n as i64 >= self.limit as i64;
    }

    /// Offers the next message of a search: it is kept where its text
    /// contains the query.
    pub fn offer_match(&mut self, item: T, text: &str, query: &str)
        requires
            old(self).wf(),
            !old(self).done_spec(),
        ensures
            final(self).wf(),
            final(self).limit_spec() == old(self).limit_spec(),
            final(self).items_spec() == if contains_spec(text@, query@) {
                old(self).items_spec().push(item)
            } else {
                old(self).items_spec()
            },
            final(self).done_spec() == (final(self).items_spec().len() >= final(self).limit_spec()),
    {
        let keep = text_contains(text, query);
        self.offer(item, keep);
    }

    pub fn into_items(self) -> (v: Vec<T>)
        ensures
            v@ == self.items_spec(),
    {
        self.items
    }
}

} // verus!
