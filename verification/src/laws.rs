//! What holds of the operations over whole histories, stated over the same
//! spec functions as the operations' own contracts.

use vstd::prelude::*;
use crate::address::{donation_address_of, platform_address_of, registry_address_of};
use crate::key::Key;
use crate::processor::{
    donate_error, donated, initialize_error, initialized, stored_platform_address,
    stored_registry_address, withdraw_error, withdrawn, Donate, Initialize, Withdraw,
};
use crate::records::{
    credit_error, credited, distinct, lemma_position, lemma_position_is, listed, position,
    total_of, DonationError, DonationPlatform, Donator, Donators,
};

verus! {

/// One successful change to a platform record.
pub enum Step {
    /// A contribution of the given amount.
    Contribution(u64),
    /// A withdrawal of the whole balance.
    Withdrawal,
}

/// The platform record after a history of changes.
pub open spec fn platform_after(start: DonationPlatform, steps: Seq<Step>) -> DonationPlatform
    decreases steps.len(),
{
    if steps.len() == 0 {
        start
    } else {
        let prior = platform_after(start, steps.drop_last());
        match steps.last() {
            Step::Contribution(amount) => prior.credited(amount),
            Step::Withdrawal => prior.drained(),
        }
    }
}

/// Whether every change of a history is one that the operations make: each
/// contribution is of more than nothing and can be counted, and each
/// withdrawal finds a balance.
pub open spec fn all_succeed(start: DonationPlatform, steps: Seq<Step>) -> bool
    decreases steps.len(),
{
    steps.len() == 0 || {
        let prior = platform_after(start, steps.drop_last());
        &&& all_succeed(start, steps.drop_last())
        &&& match steps.last() {
            Step::Contribution(amount) => amount > 0 && prior.can_credit(amount),
            Step::Withdrawal => prior.amount > 0,
        }
    }
}

/// The sum of the contributions since the last withdrawal, or since the
/// start where there was none.
pub open spec fn pending(steps: Seq<Step>) -> int
    decreases steps.len(),
{
    if steps.len() == 0 {
        0
    } else {
        match steps.last() {
            Step::Contribution(amount) => pending(steps.drop_last()) + amount,
            Step::Withdrawal => 0,
        }
    }
}

/// The number of contributions in a history.
pub open spec fn contributions(steps: Seq<Step>) -> int
    decreases steps.len(),
{
    if steps.len() == 0 {
        0
    } else {
        match steps.last() {
            Step::Contribution(_) => contributions(steps.drop_last()) + 1,
            Step::Withdrawal => contributions(steps.drop_last()),
        }
    }
}

/// A contribution that is accepted is of more than nothing, can be counted
/// by the platform, and is taken by the registry; it changes the platform
/// record and the registry as one step of a history does.
pub proof fn lemma_accepted_contribution(
    before: Donate,
    after: Donate,
    amount: u64,
    donation: Option<Seq<u8>>,
    platform: Option<Seq<u8>>,
    registry: Option<Seq<u8>>,
)
    requires
        donate_error(before, amount, donation, platform, registry) is None,
        donated(before, after, amount),
    ensures
        before.donation_platform.data is Some,
        before.donators.data is Some,
        all_succeed(before.donation_platform.data.unwrap(), seq![Step::Contribution(amount)]),
        after.donation_platform.data == Some(
            platform_after(
                before.donation_platform.data.unwrap(),
                seq![Step::Contribution(amount)],
            ),
        ),
        all_credited(before.donators.data.unwrap()@, seq![(before.authority.key, amount)]),
        after.donators.data.unwrap()@ == registry_after(
            before.donators.data.unwrap()@,
            seq![(before.authority.key, amount)],
        ),
        after.authority.lamports + after.donation_platform.lamports == before.authority.lamports
            + before.donation_platform.lamports,
{
    let start = before.donation_platform.data.unwrap();
    let steps = seq![Step::Contribution(amount)];
    assert(steps.drop_last() =~= Seq::<Step>::empty());
    assert(platform_after(start, steps.drop_last()) == start);
    assert(all_succeed(start, steps.drop_last()));
    let entries = before.donators.data.unwrap()@;
    let gifts = seq![(before.authority.key, amount)];
    assert(gifts.drop_last() =~= Seq::<(Key, u64)>::empty());
    assert(registry_after(entries, gifts.drop_last()) == entries);
    assert(all_credited(entries, gifts.drop_last()));
}

/// A withdrawal that is made is made by the owner and finds a balance; it
/// changes the platform record as one step of a history does, and the owner
/// gains exactly what the platform held as its balance.
pub proof fn lemma_accepted_withdrawal(before: Withdraw, after: Withdraw, platform: Option<Seq<u8>>)
    requires
        withdraw_error(before, platform) is None,
        withdrawn(before, after),
    ensures
        before.donation_platform.data is Some,
        before.donation_platform.data.unwrap().authority == before.authority.key,
        all_succeed(before.donation_platform.data.unwrap(), seq![Step::Withdrawal]),
        after.donation_platform.data == Some(
            platform_after(before.donation_platform.data.unwrap(), seq![Step::Withdrawal]),
        ),
        after.authority.lamports == before.authority.lamports
            + before.donation_platform.data.unwrap().amount,
        after.donation_platform.lamports == before.donation_platform.lamports
            - before.donation_platform.data.unwrap().amount,
{
    let start = before.donation_platform.data.unwrap();
    let steps = seq![Step::Withdrawal];
    assert(steps.drop_last() =~= Seq::<Step>::empty());
    assert(platform_after(start, steps.drop_last()) == start);
    assert(all_succeed(start, steps.drop_last()));
}

/// After any history of successful contributions and withdrawals on a
/// platform that `owner` opened, the balance is the sum of the
/// contributions since the last withdrawal, the counter is the number of
/// all contributions, and the owner is still `owner`.
pub proof fn lemma_platform_totals(owner: Key, steps: Seq<Step>)
    requires
        all_succeed(DonationPlatform::opened(owner), steps),
    ensures
        platform_after(DonationPlatform::opened(owner), steps).amount == pending(steps),
        platform_after(DonationPlatform::opened(owner), steps).counter == contributions(steps),
        platform_after(DonationPlatform::opened(owner), steps).authority == owner,
    decreases steps.len(),
{
    if steps.len() > 0 {
        lemma_platform_totals(owner, steps.drop_last());
    }
}

/// The counter of a platform never goes down along a successful history.
pub proof fn lemma_counter_monotonic(start: DonationPlatform, steps: Seq<Step>)
    requires
        all_succeed(start, steps),
    ensures
        platform_after(start, steps).counter >= start.counter,
    decreases steps.len(),
{
    if steps.len() > 0 {
        lemma_counter_monotonic(start, steps.drop_last());
    }
}

/// The registry entries after a history of contributions, each given by
/// its contributor and its amount.
pub open spec fn registry_after(entries: Seq<Donator>, gifts: Seq<(Key, u64)>) -> Seq<Donator>
    decreases gifts.len(),
{
    if gifts.len() == 0 {
        entries
    } else {
        credited(registry_after(entries, gifts.drop_last()), gifts.last().0, gifts.last().1)
    }
}

/// Whether the registry takes every contribution of a history.
pub open spec fn all_credited(entries: Seq<Donator>, gifts: Seq<(Key, u64)>) -> bool
    decreases gifts.len(),
{
    gifts.len() == 0 || {
        &&& all_credited(entries, gifts.drop_last())
        &&& credit_error(
            registry_after(entries, gifts.drop_last()),
            gifts.last().0,
            gifts.last().1,
        ) is None
    }
}

/// The sum of what `who` gave in a history.
pub open spec fn given_by(gifts: Seq<(Key, u64)>, who: Key) -> int
    decreases gifts.len(),
{
    if gifts.len() == 0 {
        0
    } else if gifts.last().0 == who {
        given_by(gifts.drop_last(), who) + gifts.last().1
    } else {
        given_by(gifts.drop_last(), who)
    }
}

/// Whether `who` gave at least once in a history.
pub open spec fn gave(gifts: Seq<(Key, u64)>, who: Key) -> bool {
    exists|i: int| 0 <= i < gifts.len() && (#[trigger] gifts[i]).0 == who
}

/// One contribution by `who` that the registry takes adds its amount to
/// what the registry says of `who` and leaves what it says of everyone else;
/// it lists `who`, keeps everyone listed who was, and keeps the registry
/// free of doubles and within its room.
pub proof fn lemma_credited(entries: Seq<Donator>, who: Key, amount: u64, other: Key)
    requires
        credit_error(entries, who, amount) is None,
    ensures
        total_of(credited(entries, who, amount), other) == total_of(entries, other) + (if other
            == who {
            amount as int
        } else {
            0
        }),
        listed(credited(entries, who, amount), who),
        listed(entries, other) ==> listed(credited(entries, who, amount), other),
        distinct(entries) ==> distinct(credited(entries, who, amount)),
        entries.len() <= Donators::MAX_DONATORS ==> credited(entries, who, amount).len()
            <= Donators::MAX_DONATORS,
{
    let next = credited(entries, who, amount);
    let p = position(entries, who);
    let q = position(entries, other);
    lemma_position(entries, who);
    lemma_position(entries, other);
    if listed(entries, who) {
        assert forall|j: int| 0 <= j < entries.len() implies #[trigger] next[j].authority
            == entries[j].authority by {}
        lemma_position_is(next, other, q);
        lemma_position_is(next, who, p);
    } else {
        assert forall|j: int| 0 <= j < entries.len() implies #[trigger] next[j] == entries[j] by {}
        lemma_position_is(next, who, entries.len() as int);
        if listed(entries, other) {
            lemma_position_is(next, other, q);
        } else if other != who {
            lemma_position_is(next, other, next.len() as int);
        }
    }
}

/// After any history of contributions that a registry without doubles took,
/// the registry is still without doubles, what it says of each contributor
/// is what it said before plus all that the contributor gave in the
/// history, and whoever gave is listed. Of a registry that started empty it
/// follows that a contributor's one entry holds the sum of their gifts.
pub proof fn lemma_registry_totals(entries: Seq<Donator>, gifts: Seq<(Key, u64)>, who: Key)
    requires
        distinct(entries),
        all_credited(entries, gifts),
    ensures
        distinct(registry_after(entries, gifts)),
        total_of(registry_after(entries, gifts), who) == total_of(entries, who) + given_by(
            gifts,
            who,
        ),
        listed(entries, who) || gave(gifts, who) ==> listed(registry_after(entries, gifts), who),
        entries.len() <= Donators::MAX_DONATORS ==> registry_after(entries, gifts).len()
            <= Donators::MAX_DONATORS,
    decreases gifts.len(),
{
    if gifts.len() > 0 {
        let earlier = gifts.drop_last();
        lemma_registry_totals(entries, earlier, who);
        lemma_credited(registry_after(entries, earlier), gifts.last().0, gifts.last().1, who);
        if gave(gifts, who) && gifts.last().0 != who {
            let i = choose|i: int| 0 <= i < gifts.len() && (#[trigger] gifts[i]).0 == who;
            assert(earlier[i].0 == who);
        }
    }
}

/// From an empty registry: after any history of accepted contributions,
/// whoever gave has exactly one entry, and it holds the sum of their gifts.
pub proof fn lemma_one_entry_per_contributor(gifts: Seq<(Key, u64)>, who: Key)
    requires
        all_credited(Seq::<Donator>::empty(), gifts),
        gave(gifts, who),
    ensures
        listed(registry_after(Seq::<Donator>::empty(), gifts), who),
        forall|i: int|
            0 <= i < registry_after(Seq::<Donator>::empty(), gifts).len() && (
            #[trigger] registry_after(Seq::<Donator>::empty(), gifts)[i]).authority == who ==> i
                == position(registry_after(Seq::<Donator>::empty(), gifts), who),
        total_of(registry_after(Seq::<Donator>::empty(), gifts), who) == given_by(gifts, who),
{
    let start = Seq::<Donator>::empty();
    lemma_registry_totals(start, gifts, who);
    lemma_position(registry_after(start, gifts), who);
}

/// Once an owner's platform has been opened, opening it again is refused
/// because the records exist: whatever the second caller holds, as long as
/// it is the same owner and is shown the two records that the first call
/// left.
pub proof fn lemma_initialize_once(first: Initialize, opened: Initialize, second: Initialize)
    requires
        initialize_error(
            first,
            platform_address_of(first.authority.key),
            registry_address_of(first.authority.key),
        ) is None,
        initialized(first, opened),
        second.authority.key == first.authority.key,
        second.donation_platform == opened.donation_platform,
        second.donators.address == opened.donators.address,
        second.donators.data is Some,
    ensures
        initialize_error(
            second,
            platform_address_of(second.authority.key),
            registry_address_of(second.authority.key),
        ) == Some(DonationError::AlreadyExists),
{
}

/// Once a contribution has been taken under a sequence identifier, another
/// contribution of more than nothing under the same identifier to the same
/// platform is refused because its receipt exists, whoever makes it.
pub proof fn lemma_donation_id_once(
    first: Donate,
    amount: u64,
    taken: Donate,
    second: Donate,
    again: u64,
    id: u64,
)
    requires
        donate_error(
            first,
            amount,
            donation_address_of(first.donation_platform.address, id),
            stored_platform_address(first.donation_platform.data),
            stored_registry_address(first.donation_platform.data),
        ) is None,
        donated(first, taken, amount),
        second.donation == taken.donation,
        second.donation_platform == taken.donation_platform,
        second.donators.address == taken.donators.address,
        second.donators.data is Some,
        again > 0,
    ensures
        donate_error(
            second,
            again,
            donation_address_of(second.donation_platform.address, id),
            stored_platform_address(second.donation_platform.data),
            stored_registry_address(second.donation_platform.data),
        ) == Some(DonationError::AlreadyExists),
{
}

} // verus!
