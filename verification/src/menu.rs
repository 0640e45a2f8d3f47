//! The paginated menu protocol: one session per invocation, driven by
//! UI callback tokens, advancing a page cursor cyclically until expiry.

use vstd::prelude::*;

use crate::timefmt::{decimal_seq, decimal_string, lemma_decimal_seq_injective};

verus! {

/// Idle timeout of a menu session, in seconds: with no accepted
/// transition for this long, the session expires and stops listening.
pub const MENU_IDLE_TIMEOUT_SECS: u64 = 86400;

/// Index reached from page `i` by one accepted "next" in an `n`-page menu.
pub open spec fn next_index(i: nat, n: nat) -> nat
    recommends
        n > 0,
        i < n,
{
    if i + 1 < n {
        (i + 1) as nat
    } else {
        0
    }
}

/// Index reached from page `i` by one accepted "prev" (wrapping at zero).
pub open spec fn prev_index(i: nat, n: nat) -> nat
    recommends
        n > 0,
        i < n,
{
    if i == 0 {
        (n - 1) as nat
    } else {
        (i - 1) as nat
    }
}

/// Index reached from page `i` by `k` consecutive accepted "next"
/// transitions.
pub open spec fn iterate_next(i: nat, k: nat, n: nat) -> nat
    decreases k,
{
    if k == 0 {
        i
    } else {
        iterate_next(next_index(i, n), (k - 1) as nat, n)
    }
}

/// Staying below the page count is preserved by every "next" step, so by
/// any number of them.
pub proof fn lemma_iterate_next_in_range(i: nat, k: nat, n: nat)
    requires
        n > 0,
        i < n,
    ensures
        iterate_next(i, k, n) < n,
    decreases k,
{
    if k > 0 {
        lemma_iterate_next_in_range(next_index(i, n), (k - 1) as nat, n);
    }
}

/// From page `i`, the `n - i` remaining "next" transitions land on page 0.
proof fn lemma_next_reaches_zero(i: nat, n: nat)
    requires
        n > 0,
        i < n,
    ensures
        iterate_next(i, (n - i) as nat, n) == 0,
    decreases n - i,
{
    if i + 1 < n {
        lemma_next_reaches_zero((i + 1) as nat, n);
    } else {
        assert(next_index(i, n) == 0);
        assert(iterate_next(0, 0, n) == 0);
    }
}

/// Cyclicity of the menu: starting at page 0 of an `n`-page menu, `n`
/// consecutive accepted "next" transitions return to page 0.
pub proof fn lemma_full_cycle_returns_to_start(n: nat)
    requires
        n > 0,
    ensures
        iterate_next(0, n, n) == 0,
{
    lemma_next_reaches_zero(0, n);
}

/// What a menu session answers to one callback token.
#[derive(Clone, Copy, Debug, PartialEq, Eq, Structural)]
pub enum MenuStep {
    /// The token was one of this session's two navigation tokens and the
    /// page cursor moved.
    Moved,
    /// Foreign or unknown token, or the session is no longer live: the
    /// cursor stays put and the session keeps waiting.
    Ignored,
}

/// One live paginated menu. The two navigation tokens embed the session
/// id, so tokens of concurrent sessions never cross-wire.
pub struct MenuSession {
    pub session_id: String,
    pub next_button_id: String,
    pub prev_button_id: String,
    pub page_count: usize,
    pub current_page: usize,
    pub live: bool,
}

impl MenuSession {
    /// Well-formedness: a non-empty page sequence, a cursor on a real
    /// page, and navigation tokens derived from the session id.
    pub open spec fn wf(&self) -> bool {
        &&& self.page_count > 0
        &&& self.current_page < self.page_count
        &&& self.next_button_id@ == self.session_id@ + "next"@
        &&& self.prev_button_id@ == self.session_id@ + "prev"@
    }

    /// Opens a session on page 0 with the two navigation tokens built
    /// from the session id.
    pub fn new(session_id: String, page_count: usize) -> (session: MenuSession)
        requires
            page_count > 0,
        ensures
            session.wf(),
            session.session_id@ == session_id@,
            session.page_count == page_count,
            session.current_page == 0,
            session.live,
    {
        let next_button_id = session_id.clone().concat("next");
        let prev_button_id = session_id.clone().concat("prev");
        MenuSession {
            session_id,
            next_button_id,
            prev_button_id,
            page_count,
            current_page: 0,
            live: true,
        }
    }

    /// Opens a session whose id is the decimal text of the triggering
    /// interaction's identifier, as the platform hands it over.
    pub fn new_from_interaction(interaction_id: u64, page_count: usize) -> (session: MenuSession)
        requires
            page_count > 0,
        ensures
            session.wf(),
            session.session_id@ == decimal_seq(interaction_id as nat),
            session.page_count == page_count,
            session.current_page == 0,
            session.live,
    {
        MenuSession::new(decimal_string(interaction_id), page_count)
    }

    /// Feeds one callback token to the session. The session's own "next"
    /// token advances the cursor cyclically, its own "prev" token
    /// retreats it cyclically, and anything else — a foreign session's
    /// token, or any token after expiry — changes nothing.
    pub fn handle_press(&mut self, token: &String) -> (step: MenuStep)
        requires
            old(self).wf(),
        ensures
            final(self).wf(),
            final(self).session_id == old(self).session_id,
            final(self).next_button_id == old(self).next_button_id,
            final(self).prev_button_id == old(self).prev_button_id,
            final(self).page_count == old(self).page_count,
            final(self).live == old(self).live,
            old(self).live && token@ == old(self).next_button_id@ ==> {
                &&& final(self).current_page == next_index(
                    old(self).current_page as nat,
                    old(self).page_count as nat,
                )
                &&& step == MenuStep::Moved
            },
            old(self).live && token@ != old(self).next_button_id@ && token@ == old(
                self,
            ).prev_button_id@ ==> {
                &&& final(self).current_page == prev_index(
                    old(self).current_page as nat,
                    old(self).page_count as nat,
                )
                &&& step == MenuStep::Moved
            },
            !old(self).live || (token@ != old(self).next_button_id@ && token@ != old(
                self,
            ).prev_button_id@) ==> {
                &&& final(self).current_page == old(self).current_page
                &&& step == MenuStep::Ignored
            },
    {
        if !self.live {
            return MenuStep::Ignored;
        }
        if *token == self.next_button_id {
            if self.current_page + 1 < self.page_count {
                self.current_page = self.current_page + 1;
            } else {
                self.current_page = 0;
            }
            MenuStep::Moved
        } else if *token == self.prev_button_id {
            if self.current_page == 0 {
                self.current_page = self.page_count - 1;
            } else {
                self.current_page = self.current_page - 1;
            }
            MenuStep::Moved
        } else {
            MenuStep::Ignored
        }
    }

    /// The idle timeout elapsed: the session silently stops listening.
    /// Nothing but the liveness flag changes.
    pub fn expire(&mut self)
        requires
            old(self).wf(),
        ensures
            final(self).wf(),
            !final(self).live,
            final(self).session_id == old(self).session_id,
            final(self).next_button_id == old(self).next_button_id,
            final(self).prev_button_id == old(self).prev_button_id,
            final(self).page_count == old(self).page_count,
            final(self).current_page == old(self).current_page,
    {
        self.live = false;
    }
}

/// Equal concatenations with a common suffix have equal prefixes.
proof fn lemma_concat_same_suffix(a: Seq<char>, b: Seq<char>, t: Seq<char>)
    requires
        a + t == b + t,
    ensures
        a == b,
{
    assert((a + t).len() == a.len() + t.len());
    assert((b + t).len() == b.len() + t.len());
    assert forall|i: int| 0 <= i < a.len() implies a[i] == b[i] by {
        assert((a + t)[i] == a[i]);
        assert((b + t)[i] == b[i]);
    }
    assert(a =~= b);
}

/// Navigation tokens of sessions with distinct session ids are pairwise
/// distinct: neither session's tokens can ever be taken for the other's.
pub proof fn lemma_distinct_sessions_distinct_tokens(a: MenuSession, b: MenuSession)
    requires
        a.wf(),
        b.wf(),
        a.session_id@ != b.session_id@,
    ensures
        a.next_button_id@ != b.next_button_id@,
        a.prev_button_id@ != b.prev_button_id@,
        a.next_button_id@ != b.prev_button_id@,
        a.prev_button_id@ != b.next_button_id@,
{
    reveal_strlit("next");
    reveal_strlit("prev");
    let sa = a.session_id@;
    let sb = b.session_id@;
    if sa + "next"@ == sb + "next"@ {
        lemma_concat_same_suffix(sa, sb, "next"@);
    }
    if sa + "prev"@ == sb + "prev"@ {
        lemma_concat_same_suffix(sa, sb, "prev"@);
    }
    assert("next"@[0] == 'n' && "prev"@[0] == 'p');
    if sa + "next"@ == sb + "prev"@ {
        assert((sa + "next"@).len() == sa.len() + 4);
        assert((sb + "prev"@).len() == sb.len() + 4);
        assert(sa.len() == sb.len());
        assert((sa + "next"@)[sa.len() as int] == 'n');
        assert((sb + "prev"@)[sb.len() as int] == 'p');
    }
    if sa + "prev"@ == sb + "next"@ {
        assert((sa + "prev"@).len() == sa.len() + 4);
        assert((sb + "next"@).len() == sb.len() + 4);
        assert(sa.len() == sb.len());
        assert((sa + "prev"@)[sa.len() as int] == 'p');
        assert((sb + "next"@)[sb.len() as int] == 'n');
    }
}

/// Sessions opened for distinct interactions have distinct session ids,
/// so their navigation tokens are pairwise distinct and neither session
/// can ever move the other's page cursor.
pub proof fn lemma_distinct_interactions_never_cross(a: MenuSession, b: MenuSession, x: nat, y: nat)
    requires
        a.wf(),
        b.wf(),
        a.session_id@ == decimal_seq(x),
        b.session_id@ == decimal_seq(y),
        x != y,
    ensures
        a.next_button_id@ != b.next_button_id@,
        a.prev_button_id@ != b.prev_button_id@,
        a.next_button_id@ != b.prev_button_id@,
        a.prev_button_id@ != b.next_button_id@,
{
    lemma_decimal_seq_injective(x, y);
    lemma_distinct_sessions_distinct_tokens(a, b);
}

/// A token of one session is ignored by any concurrently open session
/// with a different session id: by `handle_press`'s contract it moves
/// neither the other session's page cursor nor any of its state.
pub proof fn lemma_foreign_token_ignored(a: MenuSession, b: MenuSession, token: Seq<char>)
    requires
        a.wf(),
        b.wf(),
        a.session_id@ != b.session_id@,
        token == b.next_button_id@ || token == b.prev_button_id@,
    ensures
        token != a.next_button_id@,
        token != a.prev_button_id@,
{
    lemma_distinct_sessions_distinct_tokens(a, b);
}

} // verus!
