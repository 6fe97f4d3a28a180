//! The process-wide cache populated incrementally from events: the bot's own
//! identity, set once on the first `Ready` and refreshed on later ones, and
//! the set of observed guilds, which only ever grows in this scope.

use vstd::prelude::*;

verus! {

broadcast use {vstd::seq_lib::group_seq_properties, vstd::prelude::Seq::lemma_push_to_set_commute};

/// The bot's own identity, as reported by the platform's ready event.
#[derive(Clone, Debug, PartialEq)]
pub struct Identity {
    /// The account's display name.
    pub name: String,
}

impl Identity {
    /// Copies the identity; the copy carries the same name.
    pub fn duplicate(&self) -> (r: Identity)
        ensures
            r == *self,
    {
        Identity { name: self.name.clone() }
    }
}

/// Whether the guild list already holds the given id.
fn contains_guild(guilds: &Vec<u64>, guild_id: u64) -> (b: bool)
    ensures
        b == guilds@.contains(guild_id),
{
    let mut i: usize = 0;
    let len = guilds.len();
    while i < len
        invariant
            i <= len,
            len == guilds@.len(),
            forall|k: int| 0 <= k < i ==> guilds@[k] != guild_id,
        decreases len - i,
    {
        if guilds[i] == guild_id {
            return true;
        }
        i = i + 1;
    }
    false
}

/// Cache of state observed from the event stream, shared by all shards.
pub struct Cache {
    /// The bot's identity; `None` until the first `Ready` event.
    pub current_user: Option<Identity>,
    /// The distinct guild ids observed so far, without duplicates.
    pub guilds: Vec<u64>,
}

impl Cache {
    /// The guild list holds no duplicates, so its length is the size of the
    /// guild set.
    pub open spec fn wf(self) -> bool {
        self.guilds@.no_duplicates()
    }

    /// The set of guilds the cache knows of.
    pub open spec fn guild_set(self) -> Set<u64> {
        self.guilds@.to_set()
    }

    /// Creates an empty cache: no identity, no guilds.
    pub fn new() -> (c: Cache)
        ensures
            c.wf(),
            c.current_user is None,
            c.guild_set() == Set::<u64>::empty(),
    {
        let c = Cache { current_user: None, guilds: Vec::new() };
        proof {
            assert(c.guild_set() =~= Set::<u64>::empty());
        }
        c
    }

    /// Adds one guild to the cache; the guild set grows by exactly that
    /// element and nothing else changes.
    pub fn insert_guild(&mut self, guild_id: u64)
        requires
            old(self).wf(),
        ensures
            final(self).wf(),
            final(self).guild_set() == old(self).guild_set().insert(guild_id),
            final(self).current_user == old(self).current_user,
    {
        if !contains_guild(&self.guilds, guild_id) {
            self.guilds.push(guild_id);
            proof {
                let s0 = old(self).guilds@;
                let s1 = self.guilds@;
                assert(self.guild_set() =~= old(self).guild_set().insert(guild_id));
                assert forall|a: int, b: int|
                    0 <= a < s1.len() && 0 <= b < s1.len() && a != b implies s1[a] != s1[b] by {
                    if a == s0.len() {
                        assert(s0.contains(s0[b]));
                    } else if b == s0.len() {
                        assert(s0.contains(s0[a]));
                    }
                }
            }
        } else {
            proof {
                assert(self.guild_set() =~= old(self).guild_set().insert(guild_id));
            }
        }
    }

    /// Records a `Ready` event: refreshes the identity and folds the guild
    /// snapshot into the guild set. Safe to repeat after a reconnect: the
    /// guild set only grows, and the identity is merely refreshed.
    pub fn record_ready(&mut self, identity: &Identity, guild_snapshot: &Vec<u64>)
        requires
            old(self).wf(),
        ensures
            final(self).wf(),
            final(self).current_user == Some(*identity),
            final(self).guild_set() == old(self).guild_set() + guild_snapshot@.to_set(),
    {
        self.current_user = Some(identity.duplicate());
        let mut i: usize = 0;
        let len = guild_snapshot.len();
        while i < len
            invariant
                i <= len,
                len == guild_snapshot@.len(),
                self.wf(),
                self.current_user == Some(*identity),
                self.guild_set() == old(self).guild_set() + guild_snapshot@.take(i as int).to_set(),
            decreases len - i,
        {
            proof {
                assert(guild_snapshot@.take(i + 1).drop_last() =~= guild_snapshot@.take(i as int));
                assert(guild_snapshot@.take(i + 1).last() == guild_snapshot@[i as int]);
                assert(guild_snapshot@.take(i + 1).to_set() =~= guild_snapshot@.take(
                    i as int,
                ).to_set().insert(guild_snapshot@[i as int]));
            }
            let g = guild_snapshot[i];
            self.insert_guild(g);
            proof {
                assert(self.guild_set() =~= old(self).guild_set() + guild_snapshot@.take(
                    i + 1,
                ).to_set());
            }
            i = i + 1;
        }
        proof {
            assert(guild_snapshot@.take(len as int) =~= guild_snapshot@);
        }
    }

    /// How many distinct guilds the cache knows of.
    pub fn guild_count(&self) -> (n: usize)
        requires
            self.wf(),
        ensures
            n == self.guild_set().len(),
    {
        proof {
            self.guilds@.unique_seq_to_set();
        }
        self.guilds.len()
    }
}

} // verus!
