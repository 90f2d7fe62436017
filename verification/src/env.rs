use vstd::prelude::*;
use crate::address::Address;
use crate::error::Error;
use crate::event::{Effect, Event};

verus! {

/// The mathematical content of an [`Env`].
pub struct Host {
    /// The marketplace's own address: the escrow end of every transfer.
    pub contract: Address,
    /// The current ledger time.
    pub timestamp: u64,
    /// The identities that authorized the running invocation.
    pub auths: Seq<Address>,
    /// The effects issued so far, oldest first.
    pub log: Seq<Effect>,
}

impl Host {
    /// Whether the running invocation carries a credential for `who`.
    pub open spec fn authorizes(self, who: Address) -> bool {
        exists|i: int| 0 <= i < self.auths.len() && (#[trigger] self.auths[i])@ == who@
    }

    /// This host after `effects` were issued, in order.
    pub open spec fn emit(self, effects: Seq<Effect>) -> Host {
        Host { log: self.log + effects, ..self }
    }
}

/// The events among `log`, in order.
pub open spec fn published(log: Seq<Effect>) -> Seq<Event>
    decreases log.len(),
{
    if log.len() == 0 {
        Seq::empty()
    } else {
        match log.last() {
            Effect::Publish { event } => published(log.drop_last()).push(event),
            _ => published(log.drop_last()),
        }
    }
}

/// The ledger host as one invocation of the marketplace sees it: who the
/// marketplace is, what time it is, who signed, and what was asked of the host.
pub struct Env {
    contract: Address,
    timestamp: u64,
    auths: Vec<Address>,
    log: Vec<Effect>,
}

impl View for Env {
    type V = Host;

    closed spec fn view(&self) -> Host {
        Host {
            contract: self.contract,
            timestamp: self.timestamp,
            auths: self.auths@,
            log: self.log@,
        }
    }
}

impl Env {
    /// A host for the marketplace at `contract`, at ledger time `timestamp`,
    /// with no credential and an empty log.
    pub fn new(contract: Address, timestamp: u64) -> (env: Env)
        ensures
            env@ == (Host { contract, timestamp, auths: Seq::empty(), log: Seq::empty() }),
    {
        Env { contract, timestamp, auths: Vec::new(), log: Vec::new() }
    }

    /// The marketplace's own address.
    pub fn current_contract_address(&self) -> (a: Address)
        ensures
            a == self@.contract,
    {
        self.contract.clone()
    }

    /// The current ledger time.
    pub fn timestamp(&self) -> (t: u64)
        ensures
            t == self@.timestamp,
    {
        self.timestamp
    }

    /// Moves the ledger clock to `timestamp`.
    pub fn set_timestamp(&mut self, timestamp: u64)
        ensures
            final(self)@ == (Host { timestamp, ..old(self)@ }),
    {
        self.timestamp = timestamp;
    }

    /// Records that `who` authorized the running invocation.  Checking the
    /// credential itself is the host's work; the marketplace goes by this record.
    pub fn authorize(&mut self, who: Address)
        ensures
            final(self)@ == (Host { auths: old(self)@.auths.push(who), ..old(self)@ }),
            final(self)@.authorizes(who),
    {
        self.auths.push(who);
        assert(self@.auths[self@.auths.len() - 1]@ == who@);
    }

    /// The identities that authorized the running invocation, in the order in
    /// which they were recorded.
    pub fn auths(&self) -> (auths: &Vec<Address>)
        ensures
            auths@ == self@.auths,
    {
        &self.auths
    }

    /// Forgets every credential: the next invocation starts unsigned.
    pub fn clear_auths(&mut self)
        ensures
            final(self)@ == (Host { auths: Seq::empty(), ..old(self)@ }),
    {
        self.auths = Vec::new();
    }

    /// Succeeds exactly if the running invocation carries a credential for
    /// `who`; otherwise the call is refused as unauthorized.
    pub fn require_auth(&self, who: &Address) -> (r: Result<(), Error>)
        ensures
            r is Ok <==> self@.authorizes(*who),
            r is Err ==> r == Err::<(), Error>(Error::Unauthorized),
    {
        let mut i: usize = 0;
        while i < self.auths.len()
            invariant
                i <= self.auths@.len(),
                forall|j: int| 0 <= j < i ==> (#[trigger] self.auths@[j])@ != who@,
            decreases self.auths@.len() - i,
        {
            if self.auths[i].same(who) {
                assert(self@.auths[i as int]@ == who@);
                return Ok(());
            }
            i += 1;
        }
        Err(Error::Unauthorized)
    }

    /// The effects issued so far, oldest first.
    pub fn effects(&self) -> (log: &Vec<Effect>)
        ensures
            log@ == self@.log,
    {
        &self.log
    }

    /// The events published so far, oldest first.
    pub fn events(&self) -> (events: Vec<Event>)
        ensures
            events@ == published(self@.log),
    {
        let mut events: Vec<Event> = Vec::new();
        let mut i: usize = 0;
        while i < self.log.len()
            invariant
                i <= self.log@.len(),
                events@ == published(self.log@.take(i as int)),
            decreases self.log@.len() - i,
        {
            assert(self.log@.take(i + 1).drop_last() == self.log@.take(i as int));
            match &self.log[i] {
                Effect::Publish { event } => {
                    events.push(event.clone());
                },
                _ => {},
            }
            i += 1;
        }
        assert(self.log@.take(i as int) == self.log@);
        events
    }

    /// Issues one effect.
    pub(crate) fn emit(&mut self, effect: Effect)
        ensures
            final(self)@ == (Host { log: old(self)@.log.push(effect), ..old(self)@ }),
    {
        self.log.push(effect);
    }
}

} // verus!
