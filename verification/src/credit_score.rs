use vstd::prelude::*;
use crate::address::Address;
use crate::env::Env;
use crate::error::Error;

verus! {

/// The score found for `who` in `entries`: that of the first entry under that
/// identity, if there is one.
pub open spec fn lookup(entries: Seq<(Address, u32)>, who: Seq<char>) -> Option<u32>
    decreases entries.len(),
{
    if entries.len() == 0 {
        None
    } else if entries.first().0@ == who {
        Some(entries.first().1)
    } else {
        lookup(entries.drop_first(), who)
    }
}

/// If `entries[i]` is the first entry for `who`, its score is the one found.
proof fn lemma_lookup_first_match(entries: Seq<(Address, u32)>, who: Seq<char>, i: int)
    requires
        0 <= i < entries.len(),
        entries[i].0@ == who,
        forall|j: int| 0 <= j < i ==> (#[trigger] entries[j]).0@ != who,
    ensures
        lookup(entries, who) == Some(entries[i].1),
    decreases i,
{
    if i > 0 {
        let rest = entries.drop_first();
        assert forall|j: int| 0 <= j < i - 1 implies (#[trigger] rest[j]).0@ != who by {
            assert(rest[j] == entries[j + 1]);
        }
        lemma_lookup_first_match(rest, who, i - 1);
    }
}

/// If no entry is for `who`, none is found.
proof fn lemma_lookup_no_match(entries: Seq<(Address, u32)>, who: Seq<char>)
    requires
        forall|j: int| 0 <= j < entries.len() ==> (#[trigger] entries[j]).0@ != who,
    ensures
        lookup(entries, who) is None,
    decreases entries.len(),
{
    if entries.len() > 0 {
        let rest = entries.drop_first();
        assert forall|j: int| 0 <= j < rest.len() implies (#[trigger] rest[j]).0@ != who by {
            assert(rest[j] == entries[j + 1]);
        }
        lemma_lookup_no_match(rest, who);
    }
}

/// Replacing the score in the first entry for an identity changes what is found
/// for that identity and for no other.
proof fn lemma_lookup_after_update(
    entries: Seq<(Address, u32)>,
    i: int,
    user: Address,
    score: u32,
    who: Seq<char>,
)
    requires
        0 <= i < entries.len(),
        entries[i].0@ == user@,
        forall|j: int| 0 <= j < i ==> (#[trigger] entries[j]).0@ != user@,
    ensures
        lookup(entries.update(i, (user, score)), who) == if who == user@ {
            Some(score)
        } else {
            lookup(entries, who)
        },
    decreases i,
{
    let updated = entries.update(i, (user, score));
    if i == 0 {
        assert(updated.drop_first() == entries.drop_first());
    } else {
        let rest = entries.drop_first();
        assert forall|j: int| 0 <= j < i - 1 implies (#[trigger] rest[j]).0@ != user@ by {
            assert(rest[j] == entries[j + 1]);
        }
        lemma_lookup_after_update(rest, i - 1, user, score, who);
        assert(updated.drop_first() == rest.update(i - 1, (user, score)));
        assert(updated.first() == entries.first());
    }
}

/// Appending an entry for an identity that has none changes what is found for
/// that identity and for no other.
proof fn lemma_lookup_after_push(entries: Seq<(Address, u32)>, user: Address, score: u32, who: Seq<char>)
    requires
        forall|j: int| 0 <= j < entries.len() ==> (#[trigger] entries[j]).0@ != user@,
    ensures
        lookup(entries.push((user, score)), who) == if who == user@ {
            Some(score)
        } else {
            lookup(entries, who)
        },
    decreases entries.len(),
{
    let pushed = entries.push((user, score));
    if entries.len() == 0 {
        assert(pushed.drop_first() == entries);
    } else {
        let rest = entries.drop_first();
        assert forall|j: int| 0 <= j < rest.len() implies (#[trigger] rest[j]).0@ != user@ by {
            assert(rest[j] == entries[j + 1]);
        }
        lemma_lookup_after_push(rest, user, score, who);
        assert(pushed.drop_first() == rest.push((user, score)));
        assert(pushed.first() == entries.first());
        assert(entries[0].0@ != user@);
    }
}

/// A registry of one numeric score per identity.  An identity without a score
/// reads as zero.
pub struct CreditScoreContract {
    entries: Vec<(Address, u32)>,
}

/// The scores that `entries` hold, by identity.
pub open spec fn scores(entries: Seq<(Address, u32)>) -> Map<Seq<char>, u32> {
    Map::new(
        |who: Seq<char>| lookup(entries, who) is Some,
        |who: Seq<char>| lookup(entries, who)->0,
    )
}

impl View for CreditScoreContract {
    type V = Map<Seq<char>, u32>;

    /// The scores that were set, by identity.
    closed spec fn view(&self) -> Map<Seq<char>, u32> {
        scores(self.entries@)
    }
}

impl CreditScoreContract {
    /// A registry in which no score was set.
    pub fn new() -> (registry: CreditScoreContract)
        ensures
            registry@ == Map::<Seq<char>, u32>::empty(),
    {
        let registry = CreditScoreContract { entries: Vec::new() };
        assert(registry@ =~= Map::<Seq<char>, u32>::empty());
        registry
    }

    /// The registry whose storage holds `entries`.  Where an identity occurs
    /// more than once, its first entry counts.
    pub fn restore(entries: Vec<(Address, u32)>) -> (registry: CreditScoreContract)
        ensures
            registry@ == scores(entries@),
    {
        CreditScoreContract { entries }
    }

    /// The score that `user` reads as: the one set last, or zero if none was.
    pub open spec fn score_of(self, user: Address) -> u32 {
        if self@.dom().contains(user@) {
            self@[user@]
        } else {
            0
        }
    }

    /// The index of the entry for `user`, if there is one.
    fn find(&self, user: &Address) -> (r: Option<usize>)
        ensures
            match r {
                Some(i) => {
                    &&& i < self.entries@.len()
                    &&& self.entries@[i as int].0@ == user@
                    &&& forall|j: int| 0 <= j < i ==> (#[trigger] self.entries@[j]).0@ != user@
                },
                None => forall|j: int|
                    0 <= j < self.entries@.len() ==> (#[trigger] self.entries@[j]).0@ != user@,
            },
    {
        let mut i: usize = 0;
        while i < self.entries.len()
            invariant
                i <= self.entries@.len(),
                forall|j: int| 0 <= j < i ==> (#[trigger] self.entries@[j]).0@ != user@,
            decreases self.entries@.len() - i,
        {
            if self.entries[i].0.same(user) {
                return Some(i);
            }
            i += 1;
        }
        None
    }

    /// Sets the score of `user`, whatever it was before.
    ///
    /// The call is refused, and changes nothing, unless `user` authorized it.
    pub fn set_score(&mut self, env: &Env, user: Address, score: u32) -> (r: Result<(), Error>)
        ensures
            match r {
                Ok(()) => env@.authorizes(user) && final(self)@ == old(self)@.insert(user@, score),
                Err(e) => {
                    &&& !env@.authorizes(user)
                    &&& e == Error::Unauthorized
                    &&& final(self)@ == old(self)@
                },
            },
    {
        match env.require_auth(&user) {
            Ok(()) => {},
            Err(e) => {
                return Err(e);
            },
        }
        match self.find(&user) {
            Some(i) => {
                proof {
                    assert forall|who: Seq<char>|
                        lookup(self.entries@.update(i as int, (user, score)), who) == if who
                            == user@ {
                            Some(score)
                        } else {
                            lookup(self.entries@, who)
                        } by {
                        lemma_lookup_after_update(self.entries@, i as int, user, score, who);
                    }
                }
                self.entries.set(i, (user, score));
            },
            None => {
                proof {
                    assert forall|who: Seq<char>|
                        lookup(self.entries@.push((user, score)), who) == if who == user@ {
                            Some(score)
                        } else {
                            lookup(self.entries@, who)
                        } by {
                        lemma_lookup_after_push(self.entries@, user, score, who);
                    }
                }
                self.entries.push((user, score));
            },
        }
        assert(self@ =~= old(self)@.insert(user@, score));
        Ok(())
    }

    /// The score of `user`: the one set last, or zero if none was ever set.
    pub fn get_score(&self, user: &Address) -> (score: u32)
        ensures
            score == self.score_of(*user),
    {
        match self.find(user) {
            Some(i) => {
                proof {
                    lemma_lookup_first_match(self.entries@, user@, i as int);
                }
                self.entries[i].1
            },
            None => {
                proof {
                    lemma_lookup_no_match(self.entries@, user@);
                }
                0
            },
        }
    }
}

} // verus!
