//! Live events and the historical scan: which events are the guild's, how pages of
//! Discord's newest-first listings are walked, and the order in which scanned messages
//! are stored.

use vstd::prelude::*;

verus! {

/// Whether an event from guild `guild` (if any) belongs to the guild `ours` that is
/// recorded; events from elsewhere, or from no guild, are ignored.
pub fn from_our_guild(guild: Option<u64>, ours: u64) -> (r: bool)
    ensures
        r == (guild == Some(ours)),
{
    match guild {
        Some(g) => g == ours,
        None => false,
    }
}

/// The cursor for the next page of a listing, given the ids of the page just read: the
/// last id of the page, or `None` when the page is empty and the listing is exhausted.
pub open spec fn page_cursor(page: Seq<u64>) -> Option<u64> {
    if page.len() == 0 {
        None
    } else {
        Some(page.last())
    }
}

/// The cursor for the next page of a listing.
pub fn next_page_cursor(page: &Vec<u64>) -> (r: Option<u64>)
    ensures
        r == page_cursor(page@),
{
    if page.len() == 0 {
        None
    } else {
        Some(page[page.len() - 1])
    }
}

/// The messages of a channel in the order they are stored: Discord lists them newest
/// first, and they are stored oldest first, so that a replied-to message is met before
/// its replies.
pub fn oldest_first<T>(listed: Vec<T>) -> (r: Vec<T>)
    ensures
        r@ == listed@.reverse(),
{
    let mut rest = listed;
    let mut r: Vec<T> = Vec::new();
    while rest.len() > 0
        invariant
            rest@ + r@.reverse() == listed@,
        decreases rest.len(),
    {
        let x = rest.pop().unwrap();
        proof {
            assert(r@.push(x).reverse() =~= seq![x] + r@.reverse());
        }
        r.push(x);
    }
    assert(r@.reverse().reverse() =~= r@);
    r
}

/// Listed newest first (ids strictly decreasing, as snowflakes grow with time), the
/// messages are stored in increasing order of id, that is oldest first.
pub proof fn law_stored_oldest_first(listed: Seq<u64>)
    requires
        forall|i: int, j: int| 0 <= i < j < listed.len() ==> listed[i] > listed[j],
    ensures
        forall|i: int, j: int|
            0 <= i < j < listed.len() ==> listed.reverse()[i] < listed.reverse()[j],
{
}

/// Where the walk through a newest-first listing (a channel's messages, or the users of a
/// reaction) stands.
#[derive(PartialEq, Eq, Structural, Clone, Copy, Debug)]
pub enum PageStage {
    Start,
    Fetching,
    Done,
}

/// What the page request just performed answered.
pub enum PageEvent {
    Begin,
    /// The ids of the items of the page, in the listing's order.
    Page(Vec<u64>),
    Failed,
}

/// The next step of the walk.
#[derive(PartialEq, Eq, Structural, Clone, Copy, Debug)]
pub enum PageAction {
    /// Keep the items of the page just read (none at the start) and request the page that
    /// follows the item with this id (the first page for `None`).
    Fetch(Option<u64>),
    /// Keep the items of the page just read, if any, and stop.
    Finish,
}

/// One step of walking a listing: begin with the first page; after a page with items, ask
/// for the page after its last item; an empty page ends the listing, and a failed request
/// ends the walk with the items read so far.
pub open spec fn page_step_spec(stage: PageStage, event: PageEvent, next: PageStage, action: PageAction) -> bool {
    match stage {
        PageStage::Start => next == PageStage::Fetching && action == PageAction::Fetch(None),
        PageStage::Fetching => match event {
            PageEvent::Page(ids) => match page_cursor(ids@) {
                Some(last) => next == PageStage::Fetching && action == PageAction::Fetch(Some(last)),
                None => next == PageStage::Done && action == PageAction::Finish,
            },
            _ => next == PageStage::Done && action == PageAction::Finish,
        },
        PageStage::Done => next == PageStage::Done && action == PageAction::Finish,
    }
}

/// One step of walking a listing: from `stage`, on the answer `event` of the page request
/// last performed, the next stage and the next step.
pub fn page_step(stage: PageStage, event: PageEvent) -> (out: (PageStage, PageAction))
    ensures
        page_step_spec(stage, event, out.0, out.1),
{
    match stage {
        PageStage::Start => (PageStage::Fetching, PageAction::Fetch(None)),
        PageStage::Fetching => match event {
            PageEvent::Page(ids) => match next_page_cursor(&ids) {
                Some(last) => (PageStage::Fetching, PageAction::Fetch(Some(last))),
                None => (PageStage::Done, PageAction::Finish),
            },
            _ => (PageStage::Done, PageAction::Finish),
        },
        PageStage::Done => (PageStage::Done, PageAction::Finish),
    }
}

/// A walk never asks twice for the same page of a newest-first listing: when a page's ids
/// strictly decrease, the next request starts after an item older than every item of the
/// page but its last, and the request that follows a page always names that page's last
/// item.
pub proof fn law_pages_move_on(stage: PageStage, ids: Vec<u64>, next: PageStage, action: PageAction)
    requires
        page_step_spec(stage, PageEvent::Page(ids), next, action),
        stage == PageStage::Fetching,
        forall|i: int, j: int| 0 <= i < j < ids@.len() ==> ids@[i] > ids@[j],
    ensures
        action matches PageAction::Fetch(Some(c)) ==> ids@.len() > 0 && c == ids@.last()
            && forall|i: int| 0 <= i < ids@.len() - 1 ==> c < #[trigger] ids@[i],
        ids@.len() == 0 ==> action == PageAction::Finish,
{
}

} // verus!
