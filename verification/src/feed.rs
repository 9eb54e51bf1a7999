//! The feed controller: a state machine that pages through post listings.
//!
//! The controller owns the visible page and the listing scope. It never
//! performs I/O itself: each transition returns the actions (page fetches,
//! thumbnail fetches, link openings) the embedding program must start, and
//! the outcomes come back as later events. Every page load carries a
//! generation tag; an event tagged with a superseded generation is ignored,
//! so a stale completion can never touch the page a newer load produced.

use vstd::prelude::*;

verus! {

use crate::api::FetchError;
use crate::api::ListingScope;
use crate::api::option_string_matches;
use crate::posts::Page;
use crate::posts::PostCard;
use crate::posts::PostRecord;
use crate::posts::RawPage;
use crate::posts::assemble;
use crate::posts::cards_match;
use crate::posts::clone_thumbnail;
use crate::posts::option_bytes_match;

/// One record's slot while a page is assembling: `None` while the record's
/// thumbnail fetch is still out, `Some(outcome)` once it resolved (the
/// outcome itself is `None` when the record has no thumbnail URL or the
/// fetch failed).
pub open spec fn init_slot(record: PostRecord) -> Option<Option<Vec<u8>>> {
    if record.thumbnail_url is Some {
        None
    } else {
        Some(None)
    }
}

/// How many slots still wait for a thumbnail outcome.
pub open spec fn pending_count(slots: Seq<Option<Option<Vec<u8>>>>) -> nat
    decreases slots.len(),
{
    if slots.len() == 0 {
        0
    } else {
        pending_count(slots.drop_last()) + (if slots.last() is None {
            1nat
        } else {
            0nat
        })
    }
}

/// How many records of a batch carry a thumbnail URL.
pub open spec fn thumb_count(posts: Seq<PostRecord>) -> nat
    decreases posts.len(),
{
    if posts.len() == 0 {
        0
    } else {
        thumb_count(posts.drop_last()) + (if posts.last().thumbnail_url is Some {
            1nat
        } else {
            0nat
        })
    }
}

/// The thumbnail outcome a slot stands for once assembly finishes:
/// a still-pending slot counts as an absent thumbnail.
pub open spec fn outcome_of(slot: Option<Option<Vec<u8>>>) -> Option<Vec<u8>> {
    match slot {
        Some(outcome) => outcome,
        None => None,
    }
}

/// The thumbnail outcomes of a whole slot sequence.
pub open spec fn outcomes_of(slots: Seq<Option<Option<Vec<u8>>>>) -> Seq<Option<Vec<u8>>> {
    Seq::new(slots.len(), |k: int| outcome_of(slots[k]))
}

/// Where the controller stands in the life of one page.
#[derive(Debug)]
pub enum FeedState {
    /// Nothing loaded yet and no request out.
    Idle,
    /// A page request is out, continuing from the held cursor.
    Fetching { cursor: Option<String> },
    /// The page response arrived; thumbnail fetches are still out.
    Assembling {
        posts: Vec<PostRecord>,
        next_page: Option<String>,
        thumbnails: Vec<Option<Option<Vec<u8>>>>,
        remaining: usize,
    },
    /// A complete page is on display.
    Ready { page: Page },
    /// The page fetch failed; the cursor it used is kept for a retry.
    Failed { error: FetchError, cursor: Option<String> },
}

/// The feed controller: the one owner of the visible page, the listing
/// scope, and the generation counter that stamps page loads.
#[derive(Debug)]
pub struct Posts {
    pub scope: ListingScope,
    pub generation: u64,
    pub state: FeedState,
}

/// Completion events of the asynchronous work a page load starts.
#[derive(Debug)]
pub enum PostFetching {
    /// The user asked for the following page.
    NextPage,
    /// The page request of the tagged generation came back.
    LoadedResponse { generation: u64, result: Result<RawPage, FetchError> },
    /// The thumbnail fetch for one record of the tagged generation came
    /// back; `bytes` is `None` when the fetch failed.
    LoadedThumbnail { generation: u64, index: usize, bytes: Option<Vec<u8>> },
    /// Nothing to do.
    Idle,
}

/// What the feed reacts to.
#[derive(Debug)]
pub enum Message {
    PostStatus(PostFetching),
    OpenPost(String),
}

/// The asynchronous work a transition asks the embedding program to start.
#[derive(Debug)]
pub enum Action {
    /// Issue one paged post-listing request and report the outcome back as
    /// a `LoadedResponse` event carrying the same generation.
    FetchPage { generation: u64, scope: ListingScope, cursor: Option<String> },
    /// Fetch one record's thumbnail and report the outcome back as a
    /// `LoadedThumbnail` event carrying the same generation and index.
    FetchThumbnail { generation: u64, index: usize, url: String },
    /// Open the given link outside the application.
    OpenLink { url: String },
}

/// The transition left the controller untouched and started nothing.
pub open spec fn feed_unchanged(pre: Posts, post: Posts, actions: Seq<Action>) -> bool {
    &&& post == pre
    &&& actions.len() == 0
}

/// A fresh page load went out: the generation advanced by one, the state
/// holds the cursor the request continues from, and exactly one fetch was
/// started, carrying the new generation, the controller's scope and the
/// same cursor.
pub open spec fn fetch_started(
    pre: Posts,
    scope: ListingScope,
    from_cursor: Option<String>,
    post: Posts,
    actions: Seq<Action>,
) -> bool {
    &&& post.scope == scope
    &&& post.generation == pre.generation + 1
    &&& post.state matches FeedState::Fetching { cursor } && option_string_matches(
        cursor,
        from_cursor,
    )
    &&& actions.len() == 1
    &&& actions[0] matches Action::FetchPage { generation, scope: s, cursor } && generation
        == pre.generation + 1 && s == scope && option_string_matches(cursor, from_cursor)
}

/// Reaction to a "load next page" request: from `Idle` a load of the first
/// page starts; from `Ready` a load continues from the page's cursor, or is
/// a no-op when the cursor is exhausted; every other state already has a
/// load in flight or needs an explicit retry, and nothing happens.
pub open spec fn next_page_step(pre: Posts, post: Posts, actions: Seq<Action>) -> bool {
    match pre.state {
        FeedState::Idle => fetch_started(pre, pre.scope, None, post, actions),
        FeedState::Ready { page } => {
            if page.cursor is Some {
                fetch_started(pre, pre.scope, page.cursor, post, actions)
            } else {
                feed_unchanged(pre, post, actions)
            }
        },
        _ => feed_unchanged(pre, post, actions),
    }
}

/// The slots a fresh batch starts with: records without a thumbnail URL are
/// resolved at once (no image), all others wait for their fetch.
pub open spec fn initial_slots_match(
    slots: Seq<Option<Option<Vec<u8>>>>,
    posts: Seq<PostRecord>,
) -> bool {
    &&& slots.len() == posts.len()
    &&& forall|k: int| 0 <= k < posts.len() ==> slots[k] == init_slot(#[trigger] posts[k])
}

/// The thumbnail fetches a fresh batch starts: one per record with a
/// thumbnail URL, tagged with that record's index and the load's
/// generation, in index order.
pub open spec fn thumb_requests_match(
    actions: Seq<Action>,
    generation: u64,
    posts: Seq<PostRecord>,
) -> bool
    decreases posts.len(),
{
    if posts.len() == 0 {
        actions.len() == 0
    } else {
        match posts.last().thumbnail_url {
            Some(target) => {
                &&& actions.len() > 0
                &&& actions.last() matches Action::FetchThumbnail { generation: g, index, url }
                    && g == generation && index == posts.len() - 1 && url@ == target@
                &&& thumb_requests_match(actions.drop_last(), generation, posts.drop_last())
            },
            None => thumb_requests_match(actions, generation, posts.drop_last()),
        }
    }
}

/// A page response of the current generation arrived while one was awaited.
/// A batch with no thumbnails publishes at once; otherwise assembly starts
/// and one thumbnail fetch per thumbnailed record goes out.
pub open spec fn page_loaded(pre: Posts, raw: RawPage, post: Posts, actions: Seq<Action>) -> bool {
    &&& post.scope == pre.scope
    &&& post.generation == pre.generation
    &&& if thumb_count(raw.posts@) == 0 {
        &&& post.state matches FeedState::Ready { page } && cards_match(
            page.cards@,
            raw.posts@,
            Seq::new(raw.posts@.len(), |k: int| None),
        ) && page.cursor == raw.next_page
        &&& actions.len() == 0
    } else {
        &&& post.state matches FeedState::Assembling { posts, next_page, thumbnails, remaining }
            && posts == raw.posts && next_page == raw.next_page && initial_slots_match(
            thumbnails@,
            raw.posts@,
        ) && remaining == pending_count(thumbnails@)
        &&& thumb_requests_match(actions, pre.generation, raw.posts@)
    }
}

/// Reaction to a page-fetch completion. A completion tagged with a stale
/// generation, or arriving while no fetch is out, changes nothing. A
/// current failure moves to `Failed`, keeping the cursor that was used so a
/// retry can re-issue the identical request.
pub open spec fn response_step(
    pre: Posts,
    generation: u64,
    result: Result<RawPage, FetchError>,
    post: Posts,
    actions: Seq<Action>,
) -> bool {
    match pre.state {
        FeedState::Fetching { cursor } => {
            if generation == pre.generation {
                match result {
                    Ok(raw) => page_loaded(pre, raw, post, actions),
                    Err(error) => {
                        &&& post.scope == pre.scope
                        &&& post.generation == pre.generation
                        &&& post.state == (FeedState::Failed { error, cursor })
                        &&& actions.len() == 0
                    },
                }
            } else {
                feed_unchanged(pre, post, actions)
            }
        },
        _ => feed_unchanged(pre, post, actions),
    }
}

/// Reaction to a thumbnail-fetch completion. Stale generations, indices out
/// of range and slots already resolved change nothing. The last outstanding
/// outcome publishes the page: one card per record, in the server's order,
/// each with its resolved outcome; the cursor of the batch is carried
/// through.
pub open spec fn thumbnail_step(
    pre: Posts,
    generation: u64,
    index: usize,
    bytes: Option<Vec<u8>>,
    post: Posts,
    actions: Seq<Action>,
) -> bool {
    match pre.state {
        FeedState::Assembling { posts, next_page, thumbnails, remaining } => {
            if generation == pre.generation && index < thumbnails@.len() && thumbnails@[
                index as int
            ] is None {
                if remaining == 1 {
                    &&& post.scope == pre.scope
                    &&& post.generation == pre.generation
                    &&& post.state matches FeedState::Ready { page } && cards_match(
                        page.cards@,
                        posts@,
                        outcomes_of(thumbnails@.update(index as int, Some(bytes))),
                    ) && page.cursor == next_page
                    &&& actions.len() == 0
                } else {
                    &&& post.scope == pre.scope
                    &&& post.generation == pre.generation
                    &&& post.state matches FeedState::Assembling {
                        posts: p,
                        next_page: n,
                        thumbnails: t,
                        remaining: r,
                    } && p == posts && n == next_page && t@ == thumbnails@.update(
                        index as int,
                        Some(bytes),
                    ) && r == remaining - 1
                    &&& actions.len() == 0
                }
            } else {
                feed_unchanged(pre, post, actions)
            }
        },
        _ => feed_unchanged(pre, post, actions),
    }
}

/// Reaction to a click on a post: the controller stays as it is and hands
/// the link out to be opened.
pub open spec fn open_post_step(
    pre: Posts,
    link: String,
    post: Posts,
    actions: Seq<Action>,
) -> bool {
    &&& post == pre
    &&& actions =~= seq![Action::OpenLink { url: link }]
}

/// What one event does to the controller.
pub open spec fn step(pre: Posts, message: Message, post: Posts, actions: Seq<Action>) -> bool {
    match message {
        Message::PostStatus(PostFetching::NextPage) => next_page_step(pre, post, actions),
        Message::PostStatus(PostFetching::LoadedResponse { generation, result }) => response_step(
            pre,
            generation,
            result,
            post,
            actions,
        ),
        Message::PostStatus(PostFetching::LoadedThumbnail { generation, index, bytes }) => thumbnail_step(
            pre,
            generation,
            index,
            bytes,
            post,
            actions,
        ),
        Message::PostStatus(PostFetching::Idle) => feed_unchanged(pre, post, actions),
        Message::OpenPost(link) => open_post_step(pre, link, post, actions),
    }
}

/// A scope change, from any state: the held page and cursor are discarded,
/// the generation advances, and a load of the new scope's first page starts
/// with no cursor.
pub open spec fn scope_change_step(
    pre: Posts,
    scope: ListingScope,
    post: Posts,
    actions: Seq<Action>,
) -> bool {
    fetch_started(pre, scope, None, post, actions)
}

/// A retry, from `Failed`: a load starts again with the same scope and the
/// same cursor that failed. In any other state a retry changes nothing.
pub open spec fn retry_step(pre: Posts, post: Posts, actions: Seq<Action>) -> bool {
    match pre.state {
        FeedState::Failed { cursor, .. } => fetch_started(pre, pre.scope, cursor, post, actions),
        _ => feed_unchanged(pre, post, actions),
    }
}

impl Posts {
    /// The controller's internal consistency: while a page assembles, the
    /// slot count matches the batch, `remaining` counts exactly the pending
    /// slots, at least one is pending, and every record is well formed.
    pub open spec fn wf(self) -> bool {
        match self.state {
            FeedState::Assembling { posts, next_page, thumbnails, remaining } => {
                &&& thumbnails@.len() == posts@.len()
                &&& remaining == pending_count(thumbnails@)
                &&& remaining >= 1
                &&& forall|k: int| 0 <= k < posts@.len() ==> (#[trigger] posts@[k]).wf()
            },
            _ => true,
        }
    }

    /// A controller already holding a complete page.
    pub fn new(scope: ListingScope, post_cards: Vec<PostCard>, next_page: Option<String>) -> (feed:
        Posts)
        ensures
            feed.scope == scope,
            feed.generation == 0,
            feed.state matches FeedState::Ready { page } && page.cards == post_cards
                && page.cursor == next_page,
            feed.wf(),
    {
        Posts {
            scope,
            generation: 0,
            state: FeedState::Ready { page: Page { cards: post_cards, cursor: next_page } },
        }
    }

    /// A controller that has not loaded anything yet.
    pub fn idle(scope: ListingScope) -> (feed: Posts)
        ensures
            feed.scope == scope,
            feed.generation == 0,
            feed.state is Idle,
            feed.wf(),
    {
        Posts { scope, generation: 0, state: FeedState::Idle }
    }

    /// Applies one event and returns the asynchronous work to start.
    pub fn update(&mut self, message: Message) -> (actions: Vec<Action>)
        requires
            old(self).wf(),
            old(self).generation < u64::MAX,
            message matches Message::PostStatus(PostFetching::LoadedResponse {
                result: Ok(raw),
                ..
            }) ==> raw.wf(),
        ensures
            final(self).wf(),
            step(*old(self), message, *final(self), actions@),
    {
        match message {
            Message::PostStatus(PostFetching::NextPage) => self.start_next_page(),
            Message::PostStatus(PostFetching::LoadedResponse { generation, result }) => self
                .apply_response(generation, result),
            Message::PostStatus(PostFetching::LoadedThumbnail { generation, index, bytes }) => self
                .apply_thumbnail(generation, index, bytes),
            Message::PostStatus(PostFetching::Idle) => Vec::new(),
            Message::OpenPost(link) => {
                let mut actions: Vec<Action> = Vec::new();
                actions.push(Action::OpenLink { url: link });
                actions
            },
        }
    }

    /// Changes the listing scope. The held page and cursor are discarded
    /// whatever the state was, and a load of the new scope starts fresh.
    pub fn change_scope(&mut self, scope: ListingScope) -> (actions: Vec<Action>)
        requires
            old(self).wf(),
            old(self).generation < u64::MAX,
        ensures
            final(self).wf(),
            scope_change_step(*old(self), scope, *final(self), actions@),
    {
        self.scope = scope;
        self.generation = self.generation + 1;
        self.state = FeedState::Fetching { cursor: None };
        let mut actions: Vec<Action> = Vec::new();
        actions.push(
            Action::FetchPage { generation: self.generation, scope: self.scope, cursor: None },
        );
        actions
    }

    /// Re-issues the identical request after a failure; a no-op elsewhere.
    pub fn retry(&mut self) -> (actions: Vec<Action>)
        requires
            old(self).wf(),
            old(self).generation < u64::MAX,
        ensures
            final(self).wf(),
            retry_step(*old(self), *final(self), actions@),
    {
        let st = take_state(&mut self.state);
        match st {
            FeedState::Failed { error: _, cursor } => {
                self.generation = self.generation + 1;
                let action_cursor = clone_cursor(&cursor);
                self.state = FeedState::Fetching { cursor };
                let mut actions: Vec<Action> = Vec::new();
                actions.push(
                    Action::FetchPage {
                        generation: self.generation,
                        scope: self.scope,
                        cursor: action_cursor,
                    },
                );
                actions
            },
            other => {
                self.state = other;
                Vec::new()
            },
        }
    }

    /// Starts loading the following page where one is owed.
    fn start_next_page(&mut self) -> (actions: Vec<Action>)
        requires
            old(self).wf(),
            old(self).generation < u64::MAX,
        ensures
            final(self).wf(),
            next_page_step(*old(self), *final(self), actions@),
    {
        let st = take_state(&mut self.state);
        match st {
            FeedState::Idle => {
                self.generation = self.generation + 1;
                self.state = FeedState::Fetching { cursor: None };
                let mut actions: Vec<Action> = Vec::new();
                actions.push(
                    Action::FetchPage {
                        generation: self.generation,
                        scope: self.scope,
                        cursor: None,
                    },
                );
                actions
            },
            FeedState::Ready { page } => {
                if page.cursor.is_some() {
                    self.generation = self.generation + 1;
                    let action_cursor = clone_cursor(&page.cursor);
                    self.state = FeedState::Fetching { cursor: page.cursor };
                    let mut actions: Vec<Action> = Vec::new();
                    actions.push(
                        Action::FetchPage {
                            generation: self.generation,
                            scope: self.scope,
                            cursor: action_cursor,
                        },
                    );
                    actions
                } else {
                    self.state = FeedState::Ready { page };
                    Vec::new()
                }
            },
            other => {
                self.state = other;
                Vec::new()
            },
        }
    }

    /// Applies a page-fetch completion.
    fn apply_response(&mut self, generation: u64, result: Result<RawPage, FetchError>) -> (actions:
        Vec<Action>)
        requires
            old(self).wf(),
            result matches Ok(raw) ==> raw.wf(),
        ensures
            final(self).wf(),
            response_step(*old(self), generation, result, *final(self), actions@),
    {
        let st = take_state(&mut self.state);
        match st {
            FeedState::Fetching { cursor } => {
                if generation == self.generation {
                    match result {
                        Ok(raw) => self.install_batch(raw),
                        Err(error) => {
                            self.state = FeedState::Failed { error, cursor };
                            Vec::new()
                        },
                    }
                } else {
                    self.state = FeedState::Fetching { cursor };
                    Vec::new()
                }
            },
            other => {
                self.state = other;
                Vec::new()
            },
        }
    }

    /// Installs a freshly fetched batch: publishes it at once when no record
    /// has a thumbnail, else starts assembly and the thumbnail fetches.
    fn install_batch(&mut self, raw: RawPage) -> (actions: Vec<Action>)
        requires
            raw.wf(),
        ensures
            final(self).wf(),
            page_loaded(*old(self), raw, *final(self), actions@),
            final(self).scope == old(self).scope,
            final(self).generation == old(self).generation,
    {
        let gen = self.generation;
        let n = raw.posts.len();
        let mut thumbnails: Vec<Option<Option<Vec<u8>>>> = Vec::new();
        let mut actions: Vec<Action> = Vec::new();
        let mut remaining: usize = 0;
        for i in 0..n
            invariant
                n == raw.posts@.len(),
                raw.wf(),
                thumbnails@.len() == i,
                forall|k: int| 0 <= k < i ==> thumbnails@[k] == init_slot(#[trigger] raw.posts@[k]),
                remaining == pending_count(thumbnails@),
                remaining == thumb_count(raw.posts@.take(i as int)),
                remaining <= i,
                actions@.len() == remaining,
                thumb_requests_match(actions@, gen, raw.posts@.take(i as int)),
        {
            proof {
                assert(raw.posts@.take(i + 1).drop_last() =~= raw.posts@.take(i as int));
                assert(raw.posts@.take(i + 1).last() == raw.posts@[i as int]);
            }
            let ghost slots_before = thumbnails@;
            let ghost actions_before = actions@;
            match &raw.posts[i].thumbnail_url {
                Some(target) => {
                    thumbnails.push(None);
                    actions.push(
                        Action::FetchThumbnail { generation: gen, index: i, url: target.clone() },
                    );
                    remaining = remaining + 1;
                    proof {
                        assert(thumbnails@.drop_last() =~= slots_before);
                        assert(actions@.drop_last() =~= actions_before);
                    }
                },
                None => {
                    thumbnails.push(Some(None));
                    proof {
                        assert(thumbnails@.drop_last() =~= slots_before);
                    }
                },
            }
        }
        proof {
            assert(raw.posts@.take(n as int) =~= raw.posts@);
        }
        if remaining == 0 {
            let no_thumbs = none_thumbnails(n);
            let page = assemble(&raw.posts, &no_thumbs, raw.next_page);
            proof {
                assert forall|k: int| 0 <= k < raw.posts@.len() implies crate::posts::is_card_of(
                    page.cards@[k],
                    raw.posts@[k],
                    Seq::new(raw.posts@.len(), |j: int| None::<Vec<u8>>)[k],
                ) by {
                    assert(crate::posts::is_card_of(page.cards@[k], raw.posts@[k], no_thumbs@[k]));
                }
            }
            self.state = FeedState::Ready { page };
            actions
        } else {
            self.state = FeedState::Assembling {
                posts: raw.posts,
                next_page: raw.next_page,
                thumbnails,
                remaining,
            };
            actions
        }
    }

    /// Applies a thumbnail-fetch completion.
    fn apply_thumbnail(&mut self, generation: u64, index: usize, bytes: Option<Vec<u8>>) -> (actions:
        Vec<Action>)
        requires
            old(self).wf(),
        ensures
            final(self).wf(),
            thumbnail_step(*old(self), generation, index, bytes, *final(self), actions@),
    {
        let st = take_state(&mut self.state);
        match st {
            FeedState::Assembling { posts, next_page, mut thumbnails, remaining } => {
                let pending = index < thumbnails.len() && matches!(&thumbnails[index], None);
                if generation == self.generation && pending {
                    let ghost slots_before = thumbnails@;
                    thumbnails.set(index, Some(bytes));
                    proof {
                        lemma_pending_count_update(slots_before, index as int, Some(bytes));
                    }
                    if remaining == 1 {
                        let outcomes = resolved_outcomes(&thumbnails);
                        let page = assemble(&posts, &outcomes, next_page);
                        proof {
                            assert forall|k: int| 0 <= k < posts@.len() implies
                                crate::posts::is_card_of(
                                page.cards@[k],
                                posts@[k],
                                outcomes_of(thumbnails@)[k],
                            ) by {
                                assert(crate::posts::is_card_of(
                                    page.cards@[k],
                                    posts@[k],
                                    outcomes@[k],
                                ));
                            }
                        }
                        self.state = FeedState::Ready { page };
                        Vec::new()
                    } else {
                        self.state = FeedState::Assembling {
                            posts,
                            next_page,
                            thumbnails,
                            remaining: remaining - 1,
                        };
                        Vec::new()
                    }
                } else {
                    self.state = FeedState::Assembling { posts, next_page, thumbnails, remaining };
                    Vec::new()
                }
            },
            other => {
                self.state = other;
                Vec::new()
            },
        }
    }
}

/// Moves the state out of the controller, leaving `Idle` in its place.
fn take_state(state: &mut FeedState) -> (taken: FeedState)
    ensures
        taken == *old(state),
        *final(state) == (FeedState::Idle {}),
{
    let mut taken = FeedState::Idle;
    core::mem::swap(state, &mut taken);
    taken
}

/// Copies a cursor text for text.
fn clone_cursor(cursor: &Option<String>) -> (copy: Option<String>)
    ensures
        option_string_matches(copy, *cursor),
{
    match cursor {
        Some(text) => Some(text.clone()),
        None => None,
    }
}

/// A row of absent thumbnails, for a batch with nothing to fetch.
fn none_thumbnails(n: usize) -> (thumbs: Vec<Option<Vec<u8>>>)
    ensures
        thumbs@.len() == n,
        forall|k: int| 0 <= k < n ==> thumbs@[k] is None,
{
    let mut thumbs: Vec<Option<Vec<u8>>> = Vec::new();
    for i in 0..n
        invariant
            thumbs@.len() == i,
            forall|k: int| 0 <= k < i ==> thumbs@[k] is None,
    {
        thumbs.push(None);
    }
    thumbs
}

/// The outcome each slot stands for, byte for byte.
fn resolved_outcomes(slots: &Vec<Option<Option<Vec<u8>>>>) -> (outcomes: Vec<Option<Vec<u8>>>)
    ensures
        outcomes@.len() == slots@.len(),
        forall|k: int| 0 <= k < slots@.len() ==> option_bytes_match(
            #[trigger] outcomes@[k],
            outcome_of(slots@[k]),
        ),
{
    let mut outcomes: Vec<Option<Vec<u8>>> = Vec::new();
    let n = slots.len();
    for i in 0..n
        invariant
            n == slots@.len(),
            outcomes@.len() == i,
            forall|k: int| 0 <= k < i ==> option_bytes_match(
                #[trigger] outcomes@[k],
                outcome_of(slots@[k]),
            ),
    {
        match &slots[i] {
            Some(outcome) => outcomes.push(clone_thumbnail(outcome)),
            None => outcomes.push(None),
        }
    }
    outcomes
}

/// Resolving a pending slot lowers the pending count by exactly one.
proof fn lemma_pending_count_update(
    slots: Seq<Option<Option<Vec<u8>>>>,
    i: int,
    slot: Option<Option<Vec<u8>>>,
)
    requires
        0 <= i < slots.len(),
        slots[i] is None,
        slot is Some,
    ensures
        pending_count(slots.update(i, slot)) == pending_count(slots) - 1,
    decreases slots.len(),
{
    let updated = slots.update(i, slot);
    if i == slots.len() - 1 {
        assert(updated.drop_last() =~= slots.drop_last());
    } else {
        assert(updated.drop_last() =~= slots.drop_last().update(i, slot));
        assert(updated.last() == slots.last());
        lemma_pending_count_update(slots.drop_last(), i, slot);
    }
}

/// An event tagged with a generation other than the controller's current
/// one never changes the controller and never starts work: a superseded
/// load cannot touch the page a newer load owns.
pub proof fn lemma_stale_event_is_ignored(
    pre: Posts,
    message: Message,
    post: Posts,
    actions: Seq<Action>,
)
    requires
        step(pre, message, post, actions),
        match message {
            Message::PostStatus(PostFetching::LoadedResponse { generation, .. }) => generation
                != pre.generation,
            Message::PostStatus(PostFetching::LoadedThumbnail { generation, .. }) => generation
                != pre.generation,
            _ => false,
        },
    ensures
        post == pre,
        actions.len() == 0,
{
}

/// A feed whose page reports no further pages never re-issues a fetch on a
/// "next page" request: exhaustion is a quiet no-op, never an error and
/// never a new request.
pub proof fn lemma_exhausted_next_page_is_noop(pre: Posts, post: Posts, actions: Seq<Action>)
    requires
        step(pre, Message::PostStatus(PostFetching::NextPage), post, actions),
        pre.state matches FeedState::Ready { page } && page.cursor is None,
    ensures
        post == pre,
        actions.len() == 0,
{
}

/// A successful fetch never fails the controller, however empty it came
/// back: exhaustion — no records and no cursor — ends in a ready page, not
/// in an error.
pub proof fn lemma_successful_fetch_never_fails(
    pre: Posts,
    generation: u64,
    raw: RawPage,
    post: Posts,
    actions: Seq<Action>,
)
    requires
        response_step(pre, generation, Ok(raw), post, actions),
        pre.state is Fetching,
    ensures
        !(post.state is Failed),
{
}

/// A scope change discards the held page wholesale: afterwards no page is
/// on display, the load that starts carries no cursor, and the generation
/// has moved past every load the old scope started.
pub proof fn lemma_scope_change_discards_page(
    pre: Posts,
    scope: ListingScope,
    post: Posts,
    actions: Seq<Action>,
)
    requires
        scope_change_step(pre, scope, post, actions),
    ensures
        post.state matches FeedState::Fetching { cursor } && cursor is None,
        !(post.state is Ready),
        post.generation > pre.generation,
        post.scope == scope,
{
}

} // verus!
