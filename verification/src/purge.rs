//! The bulk-moderation purge loop: backward cursor pagination over a
//! channel's history, filtering one author's messages, deleting them in
//! batches, under a count budget.

use vstd::prelude::*;

verus! {

/// Page-size ceiling of one history fetch, a hard constraint of the
/// platform API.
pub const FETCH_PAGE_CEILING: u8 = 100;

/// What the purge loop reads of one message.
#[derive(Clone, Copy, Debug, PartialEq, Eq, Structural)]
pub struct MessageRef {
    pub id: u64,
    pub author_id: u64,
}

/// Ids of the messages in `page` authored by `author`, in page order.
pub open spec fn matching_ids(page: Seq<MessageRef>, author: u64) -> Seq<u64>
    decreases page.len(),
{
    if page.len() == 0 {
        Seq::empty()
    } else {
        matching_ids(page.drop_last(), author) + if page.last().author_id == author {
            seq![page.last().id]
        } else {
            Seq::empty()
        }
    }
}

/// No page holds more matches than messages.
pub proof fn lemma_matching_ids_le(page: Seq<MessageRef>, author: u64)
    ensures
        matching_ids(page, author).len() <= page.len(),
    decreases page.len(),
{
    if page.len() > 0 {
        lemma_matching_ids_le(page.drop_last(), author);
    }
}

/// A page with no message of the author has no matches.
pub proof fn lemma_matching_ids_empty(page: Seq<MessageRef>, author: u64)
    requires
        forall|i: int| 0 <= i < page.len() ==> page[i].author_id != author,
    ensures
        matching_ids(page, author).len() == 0,
    decreases page.len(),
{
    if page.len() > 0 {
        assert(forall|i: int|
            0 <= i < page.drop_last().len() ==> page.drop_last()[i].author_id != author);
        lemma_matching_ids_empty(page.drop_last(), author);
    }
}

/// A well-formed history page: strictly newest-first (ids strictly
/// descending) and entirely older than the cursor.
pub open spec fn page_wf(page: Seq<MessageRef>, before: u64) -> bool {
    &&& forall|i: int, j: int| 0 <= i < j < page.len() ==> page[i].id > page[j].id
    &&& forall|i: int| 0 <= i < page.len() ==> (#[trigger] page[i]).id < before
}

/// Transient cursor state of one purge invocation.
pub struct PurgeCursor {
    pub before_message_id: u64,
    pub remaining_target: u8,
    pub total_deleted: u8,
}

/// What the loop does with one fetched page.
pub enum PageAction {
    /// The filtered set was empty: the loop stops here, even though older
    /// history may remain unfetched (bounded-cost policy).
    Stop,
    /// Ids to submit for batch deletion in one API call.
    DeleteBatch(Vec<u64>),
}

impl PurgeCursor {
    /// The deletion budget never outgrows what a `u8` target allows.
    pub open spec fn wf(&self) -> bool {
        self.total_deleted + self.remaining_target <= u8::MAX
    }

    /// Opens a purge at `start_before` with a budget of `target` deletions.
    pub fn new(start_before: u64, target: u8) -> (cursor: PurgeCursor)
        ensures
            cursor.wf(),
            cursor.before_message_id == start_before,
            cursor.remaining_target == target,
            cursor.total_deleted == 0,
    {
        PurgeCursor { before_message_id: start_before, remaining_target: target, total_deleted: 0 }
    }

    /// How many messages the next fetch may ask for: the platform ceiling
    /// or the remaining budget, whichever is smaller.
    pub fn fetch_limit(&self) -> (limit: u8)
        ensures
            limit == self.spec_fetch_limit(),
    {
        if self.remaining_target < FETCH_PAGE_CEILING {
            self.remaining_target
        } else {
            FETCH_PAGE_CEILING
        }
    }

    /// Specification twin of `fetch_limit`.
    pub open spec fn spec_fetch_limit(&self) -> u8 {
        if self.remaining_target < FETCH_PAGE_CEILING {
            self.remaining_target
        } else {
            FETCH_PAGE_CEILING
        }
    }

    /// Decides what one fetched page means for the purge. An empty
    /// filtered set stops the loop with nothing changed. Otherwise the
    /// matching ids are returned for one batch deletion, the budget drops
    /// by exactly their number, and the cursor advances to the oldest
    /// message of the whole fetched page — never to revisit any id of it.
    pub fn apply_page(&mut self, page: &Vec<MessageRef>, target_author: u64) -> (action:
        PageAction)
        requires
            old(self).wf(),
            old(self).remaining_target > 0,
            page@.len() <= old(self).spec_fetch_limit(),
            page_wf(page@, old(self).before_message_id),
        ensures
            final(self).wf(),
            matching_ids(page@, target_author).len() == 0 ==> {
                &&& action is Stop
                &&& *final(self) == *old(self)
            },
            matching_ids(page@, target_author).len() > 0 ==> {
                &&& action matches PageAction::DeleteBatch(ids) && ids@ == matching_ids(
                    page@,
                    target_author,
                )
                &&& final(self).remaining_target == old(self).remaining_target - matching_ids(
                    page@,
                    target_author,
                ).len()
                &&& final(self).total_deleted == old(self).total_deleted + matching_ids(
                    page@,
                    target_author,
                ).len()
                &&& final(self).before_message_id == page@.last().id
                &&& final(self).before_message_id < old(self).before_message_id
            },
    {
        proof {
            lemma_matching_ids_le(page@, target_author);
        }
        let mut ids: Vec<u64> = Vec::new();
        let mut j: usize = 0;
        while j < page.len()
            invariant
                j <= page@.len(),
                ids@ == matching_ids(page@.take(j as int), target_author),
                ids@.len() <= j,
            decreases page@.len() - j,
        {
            proof {
                assert(page@.take(j + 1).drop_last() =~= page@.take(j as int));
                assert(page@.take(j + 1).last() == page@[j as int]);
            }
            if page[j].author_id == target_author {
                ids.push(page[j].id);
            }
            j += 1;
        }
        proof {
            assert(page@.take(page@.len() as int) =~= page@);
        }
        if ids.len() == 0 {
            return PageAction::Stop;
        }
        let count = ids.len() as u8;
        self.total_deleted = self.total_deleted + count;
        self.remaining_target = self.remaining_target - count;
        self.before_message_id = page[page.len() - 1].id;
        PageAction::DeleteBatch(ids)
    }
}

/// How many messages the purge deletes on a history, given the budget:
/// page after page of at most `min(FETCH_PAGE_CEILING, remaining)`
/// messages, stopping when the budget or the history is exhausted or a
/// page yields no match.
pub open spec fn purge_count(history: Seq<MessageRef>, author: u64, remaining: nat) -> nat
    decreases history.len(),
{
    if remaining == 0 || history.len() == 0 {
        0
    } else {
        let limit: nat = if remaining < FETCH_PAGE_CEILING as nat {
            remaining
        } else {
            FETCH_PAGE_CEILING as nat
        };
        let k: nat = if history.len() < limit {
            history.len()
        } else {
            limit
        };
        let m = matching_ids(history.take(k as int), author).len();
        if m == 0 {
            0
        } else {
            m + purge_count(history.skip(k as int), author, (remaining - m) as nat)
        }
    }
}

/// How many pages the purge fetches on a history, given the budget.
pub open spec fn purge_pages(history: Seq<MessageRef>, author: u64, remaining: nat) -> nat
    decreases history.len(),
{
    if remaining == 0 || history.len() == 0 {
        0
    } else {
        let limit: nat = if remaining < FETCH_PAGE_CEILING as nat {
            remaining
        } else {
            FETCH_PAGE_CEILING as nat
        };
        let k: nat = if history.len() < limit {
            history.len()
        } else {
            limit
        };
        let m = matching_ids(history.take(k as int), author).len();
        if m == 0 {
            1
        } else {
            1 + purge_pages(history.skip(k as int), author, (remaining - m) as nat)
        }
    }
}

/// A history without a single message of the author is left untouched:
/// the purge deletes nothing, after at most one fetch.
pub proof fn lemma_purge_none_without_matches(history: Seq<MessageRef>, author: u64, remaining: nat)
    requires
        forall|i: int| 0 <= i < history.len() ==> history[i].author_id != author,
    ensures
        purge_count(history, author, remaining) == 0,
        purge_pages(history, author, remaining) <= 1,
{
    if remaining != 0 && history.len() != 0 {
        let limit: nat = if remaining < FETCH_PAGE_CEILING as nat {
            remaining
        } else {
            FETCH_PAGE_CEILING as nat
        };
        let k: nat = if history.len() < limit {
            history.len()
        } else {
            limit
        };
        assert(forall|i: int|
            0 <= i < history.take(k as int).len() ==> history.take(k as int)[i].author_id
                != author);
        lemma_matching_ids_empty(history.take(k as int), author);
    }
}

/// Matches split around any cut exactly as the messages do.
proof fn lemma_matching_ids_split(h: Seq<MessageRef>, author: u64, k: int)
    requires
        0 <= k <= h.len(),
    ensures
        matching_ids(h, author) == matching_ids(h.take(k), author) + matching_ids(
            h.skip(k),
            author,
        ),
    decreases h.len(),
{
    if k == h.len() {
        assert(h.take(k) =~= h);
        assert(h.skip(k) =~= Seq::empty());
        assert(matching_ids(h, author) =~= matching_ids(h.take(k), author) + matching_ids(
            h.skip(k),
            author,
        ));
    } else {
        lemma_matching_ids_split(h.drop_last(), author, k);
        assert(h.drop_last().take(k) =~= h.take(k));
        assert(h.drop_last().skip(k) =~= h.skip(k).drop_last());
        assert(h.skip(k).len() >= 1);
        assert(h.skip(k).last() == h.last());
        assert(matching_ids(h, author) =~= matching_ids(h.take(k), author) + matching_ids(
            h.skip(k),
            author,
        ));
    }
}

/// The purge never deletes more messages than the author has in the
/// whole history.
pub proof fn lemma_purge_count_le_matches(history: Seq<MessageRef>, author: u64, remaining: nat)
    ensures
        purge_count(history, author, remaining) <= matching_ids(history, author).len(),
    decreases history.len(),
{
    if remaining != 0 && history.len() != 0 {
        let limit: nat = if remaining < FETCH_PAGE_CEILING as nat {
            remaining
        } else {
            FETCH_PAGE_CEILING as nat
        };
        let k: nat = if history.len() < limit {
            history.len()
        } else {
            limit
        };
        let m = matching_ids(history.take(k as int), author).len();
        if m != 0 {
            lemma_matching_ids_split(history, author, k as int);
            lemma_purge_count_le_matches(history.skip(k as int), author, (remaining - m) as nat);
        }
    }
}

/// The purge never deletes more than its budget.
pub proof fn lemma_purge_count_le_budget(history: Seq<MessageRef>, author: u64, remaining: nat)
    ensures
        purge_count(history, author, remaining) <= remaining,
    decreases history.len(),
{
    if remaining != 0 && history.len() != 0 {
        let limit: nat = if remaining < FETCH_PAGE_CEILING as nat {
            remaining
        } else {
            FETCH_PAGE_CEILING as nat
        };
        let k: nat = if history.len() < limit {
            history.len()
        } else {
            limit
        };
        let m = matching_ids(history.take(k as int), author).len();
        lemma_matching_ids_le(history.take(k as int), author);
        if m != 0 {
            lemma_purge_count_le_budget(history.skip(k as int), author, (remaining - m) as nat);
        }
    }
}

/// Runs the whole purge loop against an in-memory snapshot of the
/// channel history (newest first), exactly as the live loop drives
/// `apply_page` against the platform: returns how many messages were
/// deleted and how many pages were fetched.
pub fn purge_history(
    history: &Vec<MessageRef>,
    target_author: u64,
    amount: u8,
    start_before: u64,
) -> (outcome: (u8, usize))
    requires
        page_wf(history@, start_before),
        history@.len() <= usize::MAX - FETCH_PAGE_CEILING as int,
    ensures
        outcome.0 as nat == purge_count(history@, target_author, amount as nat),
        outcome.1 as nat == purge_pages(history@, target_author, amount as nat),
        outcome.0 <= amount,
        outcome.0 as nat <= matching_ids(history@, target_author).len(),
{
    proof {
        lemma_purge_count_le_budget(history@, target_author, amount as nat);
        lemma_purge_count_le_matches(history@, target_author, amount as nat);
        assert(history@.skip(0) =~= history@);
    }
    let mut cursor = PurgeCursor::new(start_before, amount);
    let mut pos: usize = 0;
    let mut pages_fetched: usize = 0;
    while cursor.remaining_target > 0 && pos < history.len()
        invariant
            cursor.wf(),
            pos <= history@.len(),
            pages_fetched <= pos,
            history@.len() <= usize::MAX - FETCH_PAGE_CEILING as int,
            page_wf(history@, start_before),
            page_wf(history@.skip(pos as int), cursor.before_message_id),
            cursor.total_deleted + cursor.remaining_target == amount,
            cursor.total_deleted + purge_count(
                history@.skip(pos as int),
                target_author,
                cursor.remaining_target as nat,
            ) == purge_count(history@, target_author, amount as nat),
            pages_fetched + purge_pages(
                history@.skip(pos as int),
                target_author,
                cursor.remaining_target as nat,
            ) == purge_pages(history@, target_author, amount as nat),
        decreases history@.len() - pos,
    {
        let limit = cursor.fetch_limit() as usize;
        let end = if history.len() - pos < limit {
            history.len()
        } else {
            pos + limit
        };
        let ghost k: nat = (end - pos) as nat;
        let mut page: Vec<MessageRef> = Vec::new();
        let mut j: usize = pos;
        while j < end
            invariant
                pos <= j <= end,
                end <= history@.len(),
                page@ == history@.subrange(pos as int, j as int),
            decreases end - j,
        {
            proof {
                assert(history@.subrange(pos as int, j + 1).drop_last() =~= history@.subrange(
                    pos as int,
                    j as int,
                ));
                assert(history@.subrange(pos as int, j + 1).last() == history@[j as int]);
            }
            page.push(history[j]);
            j += 1;
        }
        proof {
            assert(page@ =~= history@.skip(pos as int).take(k as int));
            assert(forall|i: int|
                0 <= i < page@.len() ==> page@[i] == history@.skip(pos as int)[i]);
        }
        pages_fetched = pages_fetched + 1;
        let ghost pre_cursor = cursor;
        let action = cursor.apply_page(&page, target_author);
        let ghost m = matching_ids(page@, target_author).len();
        proof {
            lemma_matching_ids_le(page@, target_author);
        }
        match action {
            PageAction::Stop => {
                proof {
                    lemma_purge_count_le_matches(history@, target_author, amount as nat);
                    assert(purge_count(
                        history@.skip(pos as int),
                        target_author,
                        cursor.remaining_target as nat,
                    ) == 0);
                    assert(purge_pages(
                        history@.skip(pos as int),
                        target_author,
                        cursor.remaining_target as nat,
                    ) == 1);
                }
                return (cursor.total_deleted, pages_fetched);
            },
            PageAction::DeleteBatch(_ids) => {
                proof {
                    assert(history@.skip(pos as int).skip(k as int) =~= history@.skip(
                        pos as int + k,
                    ));
                    assert(purge_count(
                        history@.skip(pos as int),
                        target_author,
                        pre_cursor.remaining_target as nat,
                    ) == m + purge_count(
                        history@.skip(pos as int + k),
                        target_author,
                        cursor.remaining_target as nat,
                    ));
                    assert(purge_pages(
                        history@.skip(pos as int),
                        target_author,
                        pre_cursor.remaining_target as nat,
                    ) == 1 + purge_pages(
                        history@.skip(pos as int + k),
                        target_author,
                        cursor.remaining_target as nat,
                    ));
                    assert(forall|i: int|
                        pos + k <= i < history@.len() ==> (#[trigger] history@[i]).id
                            < cursor.before_message_id);
                }
                pos = end;
            },
        }
    }
    proof {
        if cursor.remaining_target == 0 {
            assert(purge_count(
                history@.skip(pos as int),
                target_author,
                cursor.remaining_target as nat,
            ) == 0);
        } else {
            assert(history@.skip(pos as int).len() == 0);
        }
    }
    (cursor.total_deleted, pages_fetched)
}

} // verus!
