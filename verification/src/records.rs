//! The records that the ledger keeps, and the conditions on which an
//! operation is refused.

use vstd::prelude::*;
use crate::key::Key;

verus! {

/// Why an operation was refused.
#[derive(Clone, Copy, Debug, PartialEq, Eq, Structural)]
pub enum DonationError {
    /// A contribution of nothing.
    InvalidLamportsAmount,
    /// A withdrawal from a platform that holds nothing.
    NoDonations,
    /// A withdrawal by someone other than the platform's owner.
    NotAuthorized,
    /// A record already stands at the address where one was to be created.
    AlreadyExists,
    /// No record stands at the address where one was expected.
    NotInitialized,
    /// A record was presented at an address other than the one derived for it.
    InvalidAddress,
    /// The holdings to be drawn on are smaller than the amount to move.
    InsufficientFunds,
    /// A balance, a counter or a cumulative amount would pass the largest
    /// value it can hold.
    Overflow,
    /// The registry already lists as many contributors as it has room for.
    RegistryFull,
}

impl DonationError {
    /// The description that goes with each condition.
    pub open spec fn message_text(self) -> Seq<char> {
        match self {
            DonationError::InvalidLamportsAmount => "Amount of lamports must be more than zero"@,
            DonationError::NoDonations => "There is no lamports to withdraw"@,
            DonationError::NotAuthorized => "Only the platform's authority may withdraw"@,
            DonationError::AlreadyExists => "The record already exists"@,
            DonationError::NotInitialized => "The record is not initialized"@,
            DonationError::InvalidAddress => "The record is not at its derived address"@,
            DonationError::InsufficientFunds => "Not enough lamports to transfer"@,
            DonationError::Overflow => "Amount is too large to be recorded"@,
            DonationError::RegistryFull => "The registry of donators is full"@,
        }
    }

    /// A short description of the condition.
    pub fn message(&self) -> (text: &'static str)
        ensures
            text@ == self.message_text(),
    {
        match self {
            DonationError::InvalidLamportsAmount => "Amount of lamports must be more than zero",
            DonationError::NoDonations => "There is no lamports to withdraw",
            DonationError::NotAuthorized => "Only the platform's authority may withdraw",
            DonationError::AlreadyExists => "The record already exists",
            DonationError::NotInitialized => "The record is not initialized",
            DonationError::InvalidAddress => "The record is not at its derived address",
            DonationError::InsufficientFunds => "Not enough lamports to transfer",
            DonationError::Overflow => "Amount is too large to be recorded",
            DonationError::RegistryFull => "The registry of donators is full",
        }
    }
}

/// The record of a platform: its owner, what it holds, and how many
/// contributions it has accepted.
#[derive(Clone, Copy, Debug, PartialEq, Eq)]
pub struct DonationPlatform {
    pub authority: Key,
    pub amount: u64,
    pub counter: u64,
}

impl DonationPlatform {
    /// Bytes reserved for a platform record.
    pub const SIZE: usize = 8 + 32 + 8 + 8;

    /// The record of a platform that has just been opened by `authority`.
    pub open spec fn opened(authority: Key) -> DonationPlatform {
        DonationPlatform { authority, amount: 0, counter: 0 }
    }

    /// Whether one more contribution of `amount` can be counted.
    pub open spec fn can_credit(self, amount: u64) -> bool {
        self.amount + amount <= u64::MAX && self.counter + 1 <= u64::MAX
    }

    /// The record after one more contribution of `amount`.
    pub open spec fn credited(self, amount: u64) -> DonationPlatform {
        DonationPlatform {
            authority: self.authority,
            amount: (self.amount + amount) as u64,
            counter: (self.counter + 1) as u64,
        }
    }

    /// The record after its balance has been paid out.
    pub open spec fn drained(self) -> DonationPlatform {
        DonationPlatform { authority: self.authority, amount: 0, counter: self.counter }
    }
}

/// The receipt of one contribution.
#[derive(Clone, Copy, Debug, PartialEq, Eq)]
pub struct Donation {
    pub authority: Key,
    pub amount: u64,
}

impl Donation {
    /// Bytes reserved for a donation record.
    pub const SIZE: usize = 8 + 32 + 8;
}

/// One contributor and all they have given so far.
#[derive(Clone, Copy, Debug, PartialEq, Eq)]
pub struct Donator {
    pub authority: Key,
    pub amount: u64,
}

/// The registry of a platform's contributors, in the order in which they
/// first gave.
#[derive(Clone, Debug, PartialEq, Eq)]
pub struct Donators {
    pub donators: Vec<Donator>,
}

impl View for Donators {
    type V = Seq<Donator>;

    open spec fn view(&self) -> Seq<Donator> {
        self.donators@
    }
}

/// The index of the first entry of `who`, or the number of entries where
/// there is none.
pub open spec fn position(entries: Seq<Donator>, who: Key) -> int
    decreases entries.len(),
{
    if entries.len() == 0 {
        0
    } else if entries[0].authority == who {
        0
    } else {
        1 + position(entries.drop_first(), who)
    }
}

/// Whether `who` has an entry.
pub open spec fn listed(entries: Seq<Donator>, who: Key) -> bool {
    position(entries, who) < entries.len()
}

/// What the registry says `who` has given in all: nothing where `who` has
/// no entry.
pub open spec fn total_of(entries: Seq<Donator>, who: Key) -> int {
    if listed(entries, who) {
        entries[position(entries, who)].amount as int
    } else {
        0
    }
}

/// No two entries name the same contributor.
pub open spec fn distinct(entries: Seq<Donator>) -> bool {
    forall|i: int, j: int|
        0 <= i < j < entries.len() ==> entries[i].authority != entries[j].authority
}

/// Why the registry cannot take a contribution of `amount` by `who`, or
/// `None` where it can.
pub open spec fn credit_error(entries: Seq<Donator>, who: Key, amount: u64) -> Option<DonationError> {
    if listed(entries, who) {
        if total_of(entries, who) + amount > u64::MAX {
            Some(DonationError::Overflow)
        } else {
            None
        }
    } else if entries.len() >= Donators::MAX_DONATORS {
        Some(DonationError::RegistryFull)
    } else {
        None
    }
}

/// The entries after a contribution of `amount` by `who`: the first entry
/// of `who` grows by `amount` where it stands, or a new entry is added at
/// the end.
pub open spec fn credited(entries: Seq<Donator>, who: Key, amount: u64) -> Seq<Donator> {
    if listed(entries, who) {
        entries.update(
            position(entries, who),
            Donator { authority: who, amount: (total_of(entries, who) + amount) as u64 },
        )
    } else {
        entries.push(Donator { authority: who, amount })
    }
}

/// `position` is within bounds, nothing before it belongs to `who`, and
/// the entry at it does.
pub proof fn lemma_position(entries: Seq<Donator>, who: Key)
    ensures
        0 <= position(entries, who) <= entries.len(),
        forall|j: int| 0 <= j < position(entries, who) ==> entries[j].authority != who,
        listed(entries, who) ==> entries[position(entries, who)].authority == who,
    decreases entries.len(),
{
    if entries.len() > 0 && entries[0].authority != who {
        let rest = entries.drop_first();
        lemma_position(rest, who);
        assert forall|j: int| 0 <= j < position(entries, who) implies entries[j].authority
            != who by {
            if j > 0 {
                assert(entries[j] == rest[j - 1]);
            }
        }
        if listed(entries, who) {
            assert(entries[position(entries, who)] == rest[position(rest, who)]);
        }
    }
}

/// An index that nothing of `who` precedes, and that holds an entry of
/// `who` unless it is the end, is `position`.
pub proof fn lemma_position_is(entries: Seq<Donator>, who: Key, i: int)
    requires
        0 <= i <= entries.len(),
        forall|j: int| 0 <= j < i ==> entries[j].authority != who,
        i < entries.len() ==> entries[i].authority == who,
    ensures
        position(entries, who) == i,
{
    lemma_position(entries, who);
    let p = position(entries, who);
    if p < i {
        assert(entries[p].authority == who);
    }
}

impl Donators {
    /// The most contributors a registry has room for.
    pub const MAX_DONATORS: usize = 100;

    /// Bytes reserved for a registry.
    pub const SIZE: usize = 8 + 4 + (32 + 8) * Donators::MAX_DONATORS;

    /// What holds of every registry that the operations have built: no
    /// contributor is listed twice, and there are no more entries than room.
    pub open spec fn well_formed(&self) -> bool {
        distinct(self@) && self@.len() <= Donators::MAX_DONATORS
    }

    /// A registry without entries.
    pub fn new() -> (registry: Donators)
        ensures
            registry@ == Seq::<Donator>::empty(),
            registry.well_formed(),
    {
        Donators { donators: Vec::new() }
    }

    /// Scans the entries in order for the first one of `who`.
    pub fn find(&self, who: &Key) -> (index: usize)
        ensures
            index == position(self@, *who),
            index <= self@.len(),
    {
        let mut i: usize = 0;
        while i < self.donators.len()
            invariant
                i <= self.donators.len(),
                forall|j: int| 0 <= j < i ==> self@[j].authority != *who,
            decreases self.donators.len() - i,
        {
            if self.donators[i].authority.same(who) {
                proof {
                    lemma_position_is(self@, *who, i as int);
                }
                return i;
            }
            i += 1;
        }
        proof {
            lemma_position_is(self@, *who, i as int);
        }
        i
    }

    /// Records a contribution of `amount` by `who`, or refuses it and
    /// leaves the registry as it was.
    pub fn credit(&mut self, who: &Key, amount: u64) -> (result: Result<(), DonationError>)
        ensures
            match credit_error(old(self)@, *who, amount) {
                Some(error) => result == Err::<(), DonationError>(error) && *final(self) == *old(
                    self,
                ),
                None => result is Ok && final(self)@ == credited(old(self)@, *who, amount),
            },
            old(self).well_formed() ==> final(self).well_formed(),
    {
        let index = self.find(who);
        proof {
            lemma_position(self@, *who);
        }
        if index < self.donators.len() {
            let entry = self.donators[index];
            if entry.amount > u64::MAX - amount {
                return Err(DonationError::Overflow);
            }
            self.donators[index] = Donator { authority: entry.authority, amount: entry.amount + amount };
            Ok(())
        } else {
            if self.donators.len() >= Donators::MAX_DONATORS {
                return Err(DonationError::RegistryFull);
            }
            self.donators.push(Donator { authority: *who, amount });
            Ok(())
        }
    }
}

} // verus!
