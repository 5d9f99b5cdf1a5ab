//! The three operations of the ledger: opening a platform, contributing to
//! it, and withdrawing what it holds.
//!
//! Each operation is handed the records it works on as plain values,
//! together with the holdings of those involved. It either succeeds and
//! changes them as its contract says, or fails and changes nothing.

use vstd::prelude::*;
use crate::address::{
    donation_address, donation_address_of, key_bytes, platform_address, platform_address_of,
    registry_address, registry_address_of,
};
use crate::key::Key;
use crate::records::{
    credit_error, credited, Donation, DonationError, DonationPlatform, Donator, Donators,
};

verus! {

/// The party that asks for an operation, with what it holds.
#[derive(Clone, Copy, Debug, PartialEq, Eq)]
pub struct Signer {
    pub key: Key,
    pub lamports: u64,
}

/// What stands at one address: the value held there, and the record, if one
/// has been created.
#[derive(Clone, Debug, PartialEq, Eq)]
pub struct Account<T> {
    pub address: Key,
    pub lamports: u64,
    pub data: Option<T>,
}

/// What opening a platform works on.
#[derive(Clone, Debug, PartialEq, Eq)]
pub struct Initialize {
    pub authority: Signer,
    pub donation_platform: Account<DonationPlatform>,
    pub donators: Account<Donators>,
}

/// What a contribution works on.
#[derive(Clone, Debug, PartialEq, Eq)]
pub struct Donate {
    pub authority: Signer,
    pub donation: Account<Donation>,
    pub donation_platform: Account<DonationPlatform>,
    pub donators: Account<Donators>,
}

/// What a withdrawal works on.
#[derive(Clone, Debug, PartialEq, Eq)]
pub struct Withdraw {
    pub authority: Signer,
    pub donation_platform: Account<DonationPlatform>,
}

/// Whether `address` is the derived address `derived`.
fn stands_at(derived: &Option<Key>, address: &Key) -> (yes: bool)
    ensures
        yes == (key_bytes(*derived) == Some(address@)),
{
    match derived {
        Some(key) => key.same(address),
        None => false,
    }
}

/// Why a platform cannot be opened, or `None` where it can. `platform` and
/// `registry` are the addresses derived for the owner's two records.
pub open spec fn initialize_error(
    ctx: Initialize,
    platform: Option<Seq<u8>>,
    registry: Option<Seq<u8>>,
) -> Option<DonationError> {
    if platform != Some(ctx.donation_platform.address@) {
        Some(DonationError::InvalidAddress)
    } else if registry != Some(ctx.donators.address@) {
        Some(DonationError::InvalidAddress)
    } else if ctx.donation_platform.data is Some || ctx.donators.data is Some {
        Some(DonationError::AlreadyExists)
    } else {
        None
    }
}

/// What opening a platform changes: both records are created, the platform
/// empty and owned by the caller, the registry without entries. No value
/// moves.
pub open spec fn initialized(before: Initialize, after: Initialize) -> bool {
    &&& after.authority == before.authority
    &&& after.donation_platform == (Account {
        address: before.donation_platform.address,
        lamports: before.donation_platform.lamports,
        data: Some(DonationPlatform::opened(before.authority.key)),
    })
    &&& after.donators.address == before.donators.address
    &&& after.donators.lamports == before.donators.lamports
    &&& after.donators.data is Some
    &&& after.donators.data.unwrap()@ == Seq::<Donator>::empty()
}

/// Opens a platform, given the addresses derived for the owner's records.
pub fn initialize_at(ctx: &mut Initialize, platform: Option<Key>, registry: Option<Key>) -> (result:
    Result<(), DonationError>)
    ensures
        match initialize_error(*old(ctx), key_bytes(platform), key_bytes(registry)) {
            Some(error) => result == Err::<(), DonationError>(error) && *final(ctx) == *old(ctx),
            None => result is Ok && initialized(*old(ctx), *final(ctx)),
        },
{
    if !stands_at(&platform, &ctx.donation_platform.address) {
        return Err(DonationError::InvalidAddress);
    }
    if !stands_at(&registry, &ctx.donators.address) {
        return Err(DonationError::InvalidAddress);
    }
    if ctx.donation_platform.data.is_some() || ctx.donators.data.is_some() {
        return Err(DonationError::AlreadyExists);
    }
    ctx.donation_platform.data = Some(
        DonationPlatform { authority: ctx.authority.key, amount: 0, counter: 0 },
    );
    ctx.donators.data = Some(Donators::new());
    Ok(())
}

/// Opens the caller's platform: creates its record and its registry at the
/// addresses derived from the caller's identity.
pub fn initialize(ctx: &mut Initialize) -> (result: Result<(), DonationError>)
    ensures
        match initialize_error(
            *old(ctx),
            platform_address_of(old(ctx).authority.key),
            registry_address_of(old(ctx).authority.key),
        ) {
            Some(error) => result == Err::<(), DonationError>(error) && *final(ctx) == *old(ctx),
            None => result is Ok && initialized(*old(ctx), *final(ctx)),
        },
        old(ctx).donation_platform.data is Some || old(ctx).donators.data is Some ==> result is Err,
{
    let platform = platform_address(&ctx.authority.key);
    let registry = registry_address(&ctx.authority.key);
    initialize_at(ctx, platform, registry)
}

/// Why a contribution of `amount` is refused, or `None` where it is
/// accepted. `donation`, `platform` and `registry` are the addresses derived
/// for the new receipt and for the platform's two records.
pub open spec fn donate_error(
    ctx: Donate,
    amount: u64,
    donation: Option<Seq<u8>>,
    platform: Option<Seq<u8>>,
    registry: Option<Seq<u8>>,
) -> Option<DonationError> {
    if amount == 0 {
        Some(DonationError::InvalidLamportsAmount)
    } else if ctx.donation_platform.data is None || ctx.donators.data is None {
        Some(DonationError::NotInitialized)
    } else if platform != Some(ctx.donation_platform.address@) {
        Some(DonationError::InvalidAddress)
    } else if registry != Some(ctx.donators.address@) {
        Some(DonationError::InvalidAddress)
    } else if donation != Some(ctx.donation.address@) {
        Some(DonationError::InvalidAddress)
    } else if ctx.donation.data is Some {
        Some(DonationError::AlreadyExists)
    } else if ctx.authority.lamports < amount {
        Some(DonationError::InsufficientFunds)
    } else if ctx.donation_platform.lamports + amount > u64::MAX {
        Some(DonationError::Overflow)
    } else if !ctx.donation_platform.data.unwrap().can_credit(amount) {
        Some(DonationError::Overflow)
    } else {
        credit_error(ctx.donators.data.unwrap()@, ctx.authority.key, amount)
    }
}

/// What an accepted contribution of `amount` changes: the amount moves from
/// the contributor to the platform, the receipt is created, the platform's
/// balance grows by the amount and its counter by one, and the registry
/// credits the contributor.
pub open spec fn donated(before: Donate, after: Donate, amount: u64) -> bool {
    &&& after.authority == (Signer {
        key: before.authority.key,
        lamports: (before.authority.lamports - amount) as u64,
    })
    &&& after.donation == (Account {
        address: before.donation.address,
        lamports: before.donation.lamports,
        data: Some(Donation { authority: before.authority.key, amount }),
    })
    &&& after.donation_platform == (Account {
        address: before.donation_platform.address,
        lamports: (before.donation_platform.lamports + amount) as u64,
        data: Some(before.donation_platform.data.unwrap().credited(amount)),
    })
    &&& after.donators.address == before.donators.address
    &&& after.donators.lamports == before.donators.lamports
    &&& after.donators.data is Some
    &&& after.donators.data.unwrap()@ == credited(
        before.donators.data.unwrap()@,
        before.authority.key,
        amount,
    )
}

/// Takes a contribution, given the addresses derived for the new receipt
/// and for the platform's two records.
pub fn donate_at(
    ctx: &mut Donate,
    amount: u64,
    donation: Option<Key>,
    platform: Option<Key>,
    registry: Option<Key>,
) -> (result: Result<(), DonationError>)
    ensures
        match donate_error(
            *old(ctx),
            amount,
            key_bytes(donation),
            key_bytes(platform),
            key_bytes(registry),
        ) {
            Some(error) => result == Err::<(), DonationError>(error) && *final(ctx) == *old(ctx),
            None => result is Ok && donated(*old(ctx), *final(ctx), amount),
        },
        old(ctx).donators.data is Some && old(ctx).donators.data.unwrap().well_formed()
            ==> final(ctx).donators.data is Some && final(ctx).donators.data.unwrap().well_formed(),
{
    if amount == 0 {
        return Err(DonationError::InvalidLamportsAmount);
    }
    let record = match ctx.donation_platform.data {
        Some(record) => record,
        None => {
            return Err(DonationError::NotInitialized);
        },
    };
    if ctx.donators.data.is_none() {
        return Err(DonationError::NotInitialized);
    }
    if !stands_at(&platform, &ctx.donation_platform.address) {
        return Err(DonationError::InvalidAddress);
    }
    if !stands_at(&registry, &ctx.donators.address) {
        return Err(DonationError::InvalidAddress);
    }
    if !stands_at(&donation, &ctx.donation.address) {
        return Err(DonationError::InvalidAddress);
    }
    if ctx.donation.data.is_some() {
        return Err(DonationError::AlreadyExists);
    }
    if ctx.authority.lamports < amount {
        return Err(DonationError::InsufficientFunds);
    }
    if ctx.donation_platform.lamports > u64::MAX - amount {
        return Err(DonationError::Overflow);
    }
    if record.amount > u64::MAX - amount || record.counter == u64::MAX {
        return Err(DonationError::Overflow);
    }
    let contributor = ctx.authority.key;
    match &mut ctx.donators.data {
        Some(registry_record) => {
            let credit = registry_record.credit(&contributor, amount);
            if let Err(error) = credit {
                return Err(error);
            }
        },
        None => {},
    }
    ctx.authority.lamports = ctx.authority.lamports - amount;
    ctx.donation_platform.lamports = ctx.donation_platform.lamports + amount;
    ctx.donation.data = Some(Donation { authority: contributor, amount });
    ctx.donation_platform.data = Some(
        DonationPlatform {
            authority: record.authority,
            amount: record.amount + amount,
            counter: record.counter + 1,
        },
    );
    Ok(())
}

/// The address derived for a platform record from the owner stored in it,
/// or `None` where there is no record.
pub open spec fn stored_platform_address(data: Option<DonationPlatform>) -> Option<Seq<u8>> {
    match data {
        Some(record) => platform_address_of(record.authority),
        None => None,
    }
}

/// The address derived for the registry that goes with a platform record,
/// or `None` where there is no record.
pub open spec fn stored_registry_address(data: Option<DonationPlatform>) -> Option<Seq<u8>> {
    match data {
        Some(record) => registry_address_of(record.authority),
        None => None,
    }
}

/// Takes a contribution of `amount` from the caller under the sequence
/// identifier `id`.
pub fn donate(ctx: &mut Donate, id: u64, amount: u64) -> (result: Result<(), DonationError>)
    ensures
        match donate_error(
            *old(ctx),
            amount,
            donation_address_of(old(ctx).donation_platform.address, id),
            stored_platform_address(old(ctx).donation_platform.data),
            stored_registry_address(old(ctx).donation_platform.data),
        ) {
            Some(error) => result == Err::<(), DonationError>(error) && *final(ctx) == *old(ctx),
            None => result is Ok && donated(*old(ctx), *final(ctx), amount),
        },
        amount == 0 ==> result == Err::<(), DonationError>(DonationError::InvalidLamportsAmount),
        amount > 0 && old(ctx).donation.data is Some ==> result is Err,
        old(ctx).donators.data is Some && old(ctx).donators.data.unwrap().well_formed()
            ==> final(ctx).donators.data is Some && final(ctx).donators.data.unwrap().well_formed(),
{
    let receipt = donation_address(&ctx.donation_platform.address, id);
    let (platform, registry) = match ctx.donation_platform.data {
        Some(record) => (platform_address(&record.authority), registry_address(&record.authority)),
        None => (None, None),
    };
    donate_at(ctx, amount, receipt, platform, registry)
}

/// Why a withdrawal is refused, or `None` where it is made. `platform` is
/// the address derived for the platform record.
pub open spec fn withdraw_error(ctx: Withdraw, platform: Option<Seq<u8>>) -> Option<DonationError> {
    if ctx.donation_platform.data is None {
        Some(DonationError::NotInitialized)
    } else if ctx.donation_platform.data.unwrap().authority != ctx.authority.key {
        Some(DonationError::NotAuthorized)
    } else if ctx.donation_platform.data.unwrap().amount == 0 {
        Some(DonationError::NoDonations)
    } else if platform != Some(ctx.donation_platform.address@) {
        Some(DonationError::InvalidAddress)
    } else if ctx.donation_platform.lamports < ctx.donation_platform.data.unwrap().amount {
        Some(DonationError::InsufficientFunds)
    } else if ctx.authority.lamports + ctx.donation_platform.data.unwrap().amount > u64::MAX {
        Some(DonationError::Overflow)
    } else {
        None
    }
}

/// What a withdrawal changes: the whole balance moves from the platform to
/// its owner and the balance is set to nothing. The counter stays.
pub open spec fn withdrawn(before: Withdraw, after: Withdraw) -> bool {
    &&& after.authority == (Signer {
        key: before.authority.key,
        lamports: (before.authority.lamports
            + before.donation_platform.data.unwrap().amount) as u64,
    })
    &&& after.donation_platform == (Account {
        address: before.donation_platform.address,
        lamports: (before.donation_platform.lamports
            - before.donation_platform.data.unwrap().amount) as u64,
        data: Some(before.donation_platform.data.unwrap().drained()),
    })
}

/// Pays the platform's balance out, given the address derived for its
/// record.
pub fn withdraw_at(ctx: &mut Withdraw, platform: Option<Key>) -> (result: Result<
    (),
    DonationError,
>)
    ensures
        match withdraw_error(*old(ctx), key_bytes(platform)) {
            Some(error) => result == Err::<(), DonationError>(error) && *final(ctx) == *old(ctx),
            None => result is Ok && withdrawn(*old(ctx), *final(ctx)),
        },
{
    let record = match ctx.donation_platform.data {
        Some(record) => record,
        None => {
            return Err(DonationError::NotInitialized);
        },
    };
    if !record.authority.same(&ctx.authority.key) {
        return Err(DonationError::NotAuthorized);
    }
    let amount = record.amount;
    if amount == 0 {
        return Err(DonationError::NoDonations);
    }
    if !stands_at(&platform, &ctx.donation_platform.address) {
        return Err(DonationError::InvalidAddress);
    }
    if ctx.donation_platform.lamports < amount {
        return Err(DonationError::InsufficientFunds);
    }
    if ctx.authority.lamports > u64::MAX - amount {
        return Err(DonationError::Overflow);
    }
    ctx.donation_platform.lamports = ctx.donation_platform.lamports - amount;
    ctx.authority.lamports = ctx.authority.lamports + amount;
    ctx.donation_platform.data = Some(
        DonationPlatform { authority: record.authority, amount: 0, counter: record.counter },
    );
    Ok(())
}

/// Pays the platform's whole balance out to its owner.
pub fn withdraw(ctx: &mut Withdraw) -> (result: Result<(), DonationError>)
    ensures
        match withdraw_error(*old(ctx), stored_platform_address(old(ctx).donation_platform.data)) {
            Some(error) => result == Err::<(), DonationError>(error) && *final(ctx) == *old(ctx),
            None => result is Ok && withdrawn(*old(ctx), *final(ctx)),
        },
        old(ctx).donation_platform.data matches Some(record) && record.authority != old(
            ctx,
        ).authority.key ==> result == Err::<(), DonationError>(DonationError::NotAuthorized),
        old(ctx).donation_platform.data matches Some(record) && record.authority == old(
            ctx,
        ).authority.key && record.amount == 0 ==> result == Err::<(), DonationError>(
            DonationError::NoDonations,
        ),
{
    let platform = match ctx.donation_platform.data {
        Some(record) => platform_address(&record.authority),
        None => None,
    };
    withdraw_at(ctx, platform)
}

} // verus!
