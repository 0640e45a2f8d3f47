//! Per-guild prefix configuration: a key-value store of guild id to
//! custom command prefix, with upsert-on-conflict semantics.

use vstd::prelude::*;

use crate::error::BotError;

verus! {

/// Longest prefix the store accepts, in characters.
pub const MAX_PREFIX_CHARS: usize = 10;

/// One stored row: a guild id and its custom command prefix.
pub struct GuildPrefixRecord {
    pub guild_id: u64,
    pub prefix: String,
}

/// The mapping a record sequence denotes: guild id to prefix characters.
/// Later records win, though a well-formed store never repeats a key.
pub open spec fn prefix_map_of(s: Seq<GuildPrefixRecord>) -> Map<u64, Seq<char>>
    decreases s.len(),
{
    if s.len() == 0 {
        Map::empty()
    } else {
        prefix_map_of(s.drop_last()).insert(s.last().guild_id, s.last().prefix@)
    }
}

/// In-memory model of the guild-prefix table: at most one record per
/// guild id, every prefix at most `MAX_PREFIX_CHARS` characters long.
pub struct ConfigStore {
    pub records: Vec<GuildPrefixRecord>,
}

impl View for ConfigStore {
    type V = Map<u64, Seq<char>>;

    open spec fn view(&self) -> Map<u64, Seq<char>> {
        prefix_map_of(self.records@)
    }
}

/// A key occurs somewhere in a record sequence.
pub open spec fn has_key(s: Seq<GuildPrefixRecord>, g: u64) -> bool {
    exists|i: int| 0 <= i < s.len() && s[i].guild_id == g
}

/// A record sequence never repeats a guild id.
pub open spec fn keys_unique(s: Seq<GuildPrefixRecord>) -> bool {
    forall|i: int, j: int|
        0 <= i < j < s.len() ==> s[i].guild_id != s[j].guild_id
}

/// The denoted map contains exactly the keys of the records.
proof fn lemma_map_contains(s: Seq<GuildPrefixRecord>, g: u64)
    ensures
        prefix_map_of(s).contains_key(g) <==> has_key(s, g),
    decreases s.len(),
{
    if s.len() > 0 {
        lemma_map_contains(s.drop_last(), g);
        if s.last().guild_id == g {
            assert(s[s.len() - 1].guild_id == g);
        } else {
            if has_key(s.drop_last(), g) {
                let i = choose|i: int|
                    0 <= i < s.drop_last().len() && s.drop_last()[i].guild_id == g;
                assert(s[i].guild_id == g);
            }
            if has_key(s, g) {
                let i = choose|i: int| 0 <= i < s.len() && s[i].guild_id == g;
                assert(s.drop_last()[i].guild_id == g);
            }
        }
    }
}

/// With unique keys, the denoted map sends a present key to the prefix
/// of its one record.
proof fn lemma_map_value(s: Seq<GuildPrefixRecord>, i: int)
    requires
        keys_unique(s),
        0 <= i < s.len(),
    ensures
        prefix_map_of(s).contains_key(s[i].guild_id),
        prefix_map_of(s)[s[i].guild_id] == s[i].prefix@,
    decreases s.len(),
{
    if i < s.len() - 1 {
        assert(s.drop_last()[i] == s[i]);
        lemma_map_value(s.drop_last(), i);
    }
}

/// Replacing the one record of a key denotes a plain map insertion.
proof fn lemma_map_update(s: Seq<GuildPrefixRecord>, i: int, r: GuildPrefixRecord)
    requires
        keys_unique(s),
        0 <= i < s.len(),
        s[i].guild_id == r.guild_id,
    ensures
        prefix_map_of(s.update(i, r)) =~= prefix_map_of(s).insert(r.guild_id, r.prefix@),
    decreases s.len(),
{
    let t = s.update(i, r);
    if i == s.len() - 1 {
        assert(t.drop_last() =~= s.drop_last());
        assert(t.last() == r);
    } else {
        assert(t.drop_last() =~= s.drop_last().update(i, r));
        assert(s.drop_last()[i] == s[i]);
        lemma_map_update(s.drop_last(), i, r);
        assert(t.last() == s.last());
        assert(s.last().guild_id != r.guild_id);
    }
}

impl ConfigStore {
    /// Well-formedness: unique keys, every prefix within the length bound.
    pub open spec fn wf(&self) -> bool {
        &&& keys_unique(self.records@)
        &&& forall|i: int|
            0 <= i < self.records@.len()
                ==> (#[trigger] self.records@[i]).prefix@.len() <= MAX_PREFIX_CHARS
    }

    /// How many rows the store holds.
    pub open spec fn spec_record_count(&self) -> nat {
        self.records@.len()
    }

    /// An empty store: no guild has a custom prefix.
    pub fn new() -> (store: ConfigStore)
        ensures
            store.wf(),
            store@ == Map::<u64, Seq<char>>::empty(),
            store.spec_record_count() == 0,
    {
        ConfigStore { records: Vec::new() }
    }

    /// Number of stored records, one per configured guild.
    pub fn record_count(&self) -> (n: usize)
        ensures
            n == self.spec_record_count(),
    {
        self.records.len()
    }

    /// Looks up the custom prefix of a guild: `Some` exactly when the
    /// guild has a record, and then the stored prefix itself.
    pub fn get_prefix(&self, guild_id: u64) -> (result: Option<String>)
        requires
            self.wf(),
        ensures
            result is Some <==> self@.contains_key(guild_id),
            result is Some ==> result->0@ == self@[guild_id],
            result is Some ==> result->0@.len() <= MAX_PREFIX_CHARS,
    {
        proof {
            lemma_map_contains(self.records@, guild_id);
        }
        let n = self.records.len();
        let mut i: usize = 0;
        while i < n
            invariant
                self.wf(),
                n == self.records@.len(),
                i <= n,
                forall|k: int| 0 <= k < i ==> self.records@[k].guild_id != guild_id,
            decreases n - i,
        {
            if self.records[i].guild_id == guild_id {
                proof {
                    lemma_map_value(self.records@, i as int);
                }
                return Some(self.records[i].prefix.clone());
            }
            i += 1;
        }
        None
    }

    /// Upserts the prefix of a guild. A prefix over `MAX_PREFIX_CHARS`
    /// characters is rejected before any change; otherwise the new value
    /// replaces any existing record for the same guild id, and the store
    /// keeps exactly one record per configured guild.
    pub fn set_prefix(&mut self, guild_id: u64, new_prefix: String) -> (result: Result<
        (),
        BotError,
    >)
        requires
            old(self).wf(),
        ensures
            final(self).wf(),
            new_prefix@.len() > MAX_PREFIX_CHARS ==> {
                &&& result == Result::<(), BotError>::Err(BotError::Validation)
                &&& final(self).records@ == old(self).records@
                &&& final(self)@ == old(self)@
            },
            new_prefix@.len() <= MAX_PREFIX_CHARS ==> {
                &&& result == Result::<(), BotError>::Ok(())
                &&& final(self)@ == old(self)@.insert(guild_id, new_prefix@)
                &&& final(self).spec_record_count() == if old(self)@.contains_key(guild_id) {
                    old(self).spec_record_count() as int
                } else {
                    old(self).spec_record_count() + 1 as int
                }
            },
    {
        if new_prefix.as_str().unicode_len() > MAX_PREFIX_CHARS {
            return Err(BotError::Validation);
        }
        proof {
            lemma_map_contains(self.records@, guild_id);
        }
        let n = self.records.len();
        let mut i: usize = 0;
        while i < n
            invariant
                self.wf(),
                *self == *old(self),
                new_prefix@.len() <= MAX_PREFIX_CHARS,
                n == self.records@.len(),
                i <= n,
                forall|k: int| 0 <= k < i ==> self.records@[k].guild_id != guild_id,
            decreases n - i,
        {
            if self.records[i].guild_id == guild_id {
                let ghost s = self.records@;
                proof {
                    assert(has_key(old(self).records@, guild_id));
                }
                self.records[i] = GuildPrefixRecord { guild_id, prefix: new_prefix };
                proof {
                    lemma_map_update(s, i as int, self.records@[i as int]);
                    lemma_map_contains(old(self).records@, guild_id);
                }
                return Ok(());
            }
            i += 1;
        }
        self.records.push(GuildPrefixRecord { guild_id, prefix: new_prefix });
        proof {
            assert(self.records@.drop_last() =~= old(self).records@);
        }
        Ok(())
    }
}

/// After a successful upsert, reading the same guild id yields exactly
/// the prefix just written.
pub proof fn lemma_set_then_get(m: Map<u64, Seq<char>>, g: u64, p: Seq<char>)
    ensures
        m.insert(g, p).contains_key(g),
        m.insert(g, p)[g] == p,
{
}

/// Two sequential upserts for the same guild id are one upsert of the
/// latest value: the second write wins and no second record appears.
pub proof fn lemma_second_upsert_wins(m: Map<u64, Seq<char>>, g: u64, p1: Seq<char>, p2: Seq<char>)
    ensures
        m.insert(g, p1).insert(g, p2) =~= m.insert(g, p2),
        m.insert(g, p1).contains_key(g),
{
}

} // verus!
