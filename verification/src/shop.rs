//! The executable catalog operations.
//!
//! Every operation takes the state it touches explicitly — the store slot,
//! the slot registry, the ledger accounts involved and the event log — and
//! promises that its outcome is exactly the corresponding transition of
//! [`crate::transitions`] applied to the state it was given. An operation
//! that fails leaves every piece of that state unchanged.

use vstd::prelude::*;

use crate::errors::ErrorCode;
use crate::ledger::transfer;
use crate::state::Account;
use crate::state::Coffee;
use crate::state::CoffeeStore;
use crate::state::CoffeeV;
use crate::state::Event;
use crate::state::EventV;
use crate::state::Identity;
use crate::state::COFFEE_RENT;
use crate::state::MAX_NAME_LEN;
use crate::state::STORE_RENT;
use crate::transitions::spec_buy;
use crate::transitions::spec_create;
use crate::transitions::spec_delete;
use crate::transitions::spec_initialize;
use crate::transitions::spec_read;
use crate::transitions::spec_update;

verus! {

/// The authorization rule every catalog mutation applies before touching any
/// record: exactly the store owner may proceed; any other caller is refused
/// with `Unauthorized`.
pub fn require_admin(store: &CoffeeStore, caller: Identity) -> (r: Result<(), ErrorCode>)
    ensures
        caller == store@.admin ==> r == Ok::<(), ErrorCode>(()),
        caller != store@.admin ==> r == Err::<(), ErrorCode>(ErrorCode::Unauthorized),
{
    if caller == store.admin {
        Ok(())
    } else {
        Err(ErrorCode::Unauthorized)
    }
}

/// The validation rule a purchase applies before any value moves: an item
/// priced zero — not yet priced, or cleared by deletion — is refused with
/// `InvalidCoffee`.
pub fn require_purchasable(coffee: &Coffee) -> (r: Result<(), ErrorCode>)
    ensures
        coffee@.price > 0 ==> r == Ok::<(), ErrorCode>(()),
        coffee@.price == 0 ==> r == Err::<(), ErrorCode>(ErrorCode::InvalidCoffee),
{
    if coffee.price > 0 {
        Ok(())
    } else {
        Err(ErrorCode::InvalidCoffee)
    }
}

/// Creates the singleton store record with the given owner and name.
///
/// Fails with `AlreadyExists` when the slot already holds a record (create,
/// not overwrite), leaving it unchanged, and with `InsufficientBalance` when
/// the payer cannot cover the slot deposit. No authorization check: the
/// initializing caller establishes the root of trust.
pub fn initialize(
    slot: &mut Option<CoffeeStore>,
    payer: &mut Account,
    admin: Identity,
    store_name: String,
) -> (r: Result<(), ErrorCode>)
    requires
        store_name@.len() <= MAX_NAME_LEN,
    ensures
        ({
            let (slot1, payer1, res) = spec_initialize(
                old(slot).deep_view(),
                *old(payer),
                admin,
                store_name@,
            );
            final(slot).deep_view() == slot1 && *final(payer) == payer1 && r == res
        }),
{
    if slot.is_some() {
        return Err(ErrorCode::AlreadyExists);
    }
    if payer.lamports < STORE_RENT {
        return Err(ErrorCode::InsufficientBalance);
    }
    payer.lamports = payer.lamports - STORE_RENT;
    *slot = Some(CoffeeStore::new(admin, store_name));
    Ok(())
}

/// Creates a priced item in a freshly allocated slot of the registry and
/// returns the slot's identifier.
///
/// Owner-only: any other caller is refused with `Unauthorized` and nothing
/// changes. The slot deposit is debited from the creator, who must cover it.
/// The price is not validated: zero is accepted and means "not yet for
/// sale".
pub fn create_coffee(
    registry: &mut Vec<Option<Coffee>>,
    store: &CoffeeStore,
    user: &mut Account,
    name: String,
    price: u8,
) -> (r: Result<usize, ErrorCode>)
    requires
        name@.len() <= MAX_NAME_LEN,
    ensures
        ({
            let (registry1, user1, res) = spec_create(
                old(registry).deep_view(),
                store@,
                *old(user),
                name@,
                price,
            );
            final(registry).deep_view() == registry1 && *final(user) == user1 && r == res
        }),
{
    let ghost namev = name@;
    if let Err(e) = require_admin(store, user.key) {
        return Err(e);
    }
    if user.lamports < COFFEE_RENT {
        return Err(ErrorCode::InsufficientBalance);
    }
    user.lamports = user.lamports - COFFEE_RENT;
    let id = registry.len();
    registry.push(Some(Coffee::new(name, price)));
    proof {
        assert(registry.deep_view() =~= old(registry).deep_view().push(
            Some(CoffeeV { name: namev, price }),
        ));
    }
    Ok(id)
}

/// Overwrites the name and the price of the item in the addressed slot,
/// unconditionally — no diffing, last writer wins.
///
/// Owner-only: any other caller is refused with `Unauthorized`. A slot out
/// of range or already released is refused with `NotFound`. On failure the
/// registry is unchanged.
pub fn update_coffee(
    registry: &mut Vec<Option<Coffee>>,
    store: &CoffeeStore,
    caller: Identity,
    id: usize,
    name: String,
    price: u8,
) -> (r: Result<(), ErrorCode>)
    requires
        name@.len() <= MAX_NAME_LEN,
    ensures
        ({
            let (registry1, res) = spec_update(
                old(registry).deep_view(),
                store@,
                caller,
                id,
                name@,
                price,
            );
            final(registry).deep_view() == registry1 && r == res
        }),
{
    let ghost namev = name@;
    if let Err(e) = require_admin(store, caller) {
        return Err(e);
    }
    if id >= registry.len() {
        return Err(ErrorCode::NotFound);
    }
    if registry[id].is_none() {
        return Err(ErrorCode::NotFound);
    }
    registry[id] = Some(Coffee::new(name, price));
    proof {
        assert(registry.deep_view() =~= old(registry).deep_view().update(
            id as int,
            Some(CoffeeV { name: namev, price }),
        ));
    }
    Ok(())
}

/// Deletes the item in the addressed slot: the record's content is wiped —
/// name emptied, price zeroed — before the slot itself is released, and the
/// slot's deposit is credited back to the releasing caller.
///
/// Owner-only: any other caller is refused with `Unauthorized`. A slot out
/// of range or already released is refused with `NotFound`. On failure
/// nothing changes.
pub fn delete_coffee(
    registry: &mut Vec<Option<Coffee>>,
    store: &CoffeeStore,
    user: &mut Account,
    id: usize,
) -> (r: Result<(), ErrorCode>)
    requires
        old(user).lamports + COFFEE_RENT <= u64::MAX,
    ensures
        ({
            let (registry1, user1, res) = spec_delete(
                old(registry).deep_view(),
                store@,
                *old(user),
                id,
            );
            final(registry).deep_view() == registry1 && *final(user) == user1 && r == res
        }),
{
    if let Err(e) = require_admin(store, user.key) {
        return Err(e);
    }
    if id >= registry.len() {
        return Err(ErrorCode::NotFound);
    }
    if registry[id].is_none() {
        return Err(ErrorCode::NotFound);
    }
    // Defensive clear first, then release: the record's content is wiped
    // before the slot stops existing, preserving that observable order.
    match &mut registry[id] {
        Some(coffee) => coffee.clear(),
        None => (),
    }
    registry[id] = None;
    user.lamports = user.lamports + COFFEE_RENT;
    proof {
        assert(registry.deep_view() =~= old(registry).deep_view().update(id as int, None));
    }
    Ok(())
}

/// Purchase: any caller may buy the item in the addressed slot, paying its
/// price from the buyer's account to the recipient's.
///
/// A zero-price item is refused with `InvalidCoffee` and no value moves; a
/// buyer that cannot cover the price is refused with `InsufficientBalance`.
/// On success exactly the price moves, a purchase record is appended to the
/// log, and the item itself — taken by shared reference — is untouched, so
/// it can be bought again at the same price.
///
/// The recipient is supplied by the caller and deliberately not checked
/// against the store owner, mirroring the behavior this catalog pins down;
/// a caller that wants the owner paid must pass the owner's account.
pub fn buy_coffee(
    registry: &Vec<Option<Coffee>>,
    id: usize,
    user: &mut Account,
    admin: &mut Account,
    log: &mut Vec<Event>,
) -> (r: Result<(), ErrorCode>)
    requires
        old(admin).lamports + 255 <= u64::MAX,
    ensures
        ({
            let (user1, admin1, log1, res) = spec_buy(
                registry.deep_view(),
                id,
                *old(user),
                *old(admin),
                old(log).deep_view(),
            );
            *final(user) == user1 && *final(admin) == admin1 && final(log).deep_view() == log1
                && r == res
        }),
{
    if id >= registry.len() {
        return Err(ErrorCode::NotFound);
    }
    let coffee = match &registry[id] {
        Some(c) => c,
        None => {
            return Err(ErrorCode::NotFound);
        },
    };
    if let Err(e) = require_purchasable(coffee) {
        return Err(e);
    }
    let price = coffee.price as u64;
    if let Err(e) = transfer(user, admin, price) {
        return Err(e);
    }
    log.push(
        Event::Purchase { buyer: user.key, name: coffee.name.clone(), price: coffee.price },
    );
    proof {
        assert(log.deep_view() =~= old(log).deep_view().push(
            EventV::Purchase {
                buyer: old(user).key,
                name: coffee.name@,
                price: coffee.price,
            },
        ));
    }
    Ok(())
}

/// Pure read of the item in the addressed slot: returns its current name
/// and price and appends a read record to the log; nothing else changes. A
/// slot out of range or already released is refused with `NotFound`.
pub fn read_coffee(registry: &Vec<Option<Coffee>>, id: usize, log: &mut Vec<Event>) -> (r: Result<
    (String, u8),
    ErrorCode,
>)
    ensures
        ({
            let (log1, res) = spec_read(registry.deep_view(), id, old(log).deep_view());
            final(log).deep_view() == log1 && read_result_view(r) == res
        }),
{
    if id >= registry.len() {
        return Err(ErrorCode::NotFound);
    }
    let coffee = match &registry[id] {
        Some(c) => c,
        None => {
            return Err(ErrorCode::NotFound);
        },
    };
    log.push(Event::ReadItem { name: coffee.name.clone(), price: coffee.price });
    proof {
        assert(log.deep_view() =~= old(log).deep_view().push(
            EventV::ReadItem { name: coffee.name@, price: coffee.price },
        ));
    }
    Ok((coffee.name.clone(), coffee.price))
}

/// The model of what [`read_coffee`] hands back: the returned name as a
/// sequence of characters.
pub open spec fn read_result_view(r: Result<(String, u8), ErrorCode>) -> Result<
    (Seq<char>, u8),
    ErrorCode,
> {
    match r {
        Ok(p) => Ok((p.0@, p.1)),
        Err(e) => Err(e),
    }
}

} // verus!
