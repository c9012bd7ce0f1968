//! The catalog's state machine: one total transition function per operation,
//! over the mathematical models of the records.
//!
//! Every executable operation in [`crate::shop`] promises in its contract
//! that its outcome is exactly the corresponding transition applied to the
//! state it was given, and the laws in [`crate::laws`] are proved of these
//! transitions alone.

use vstd::prelude::*;

use crate::errors::ErrorCode;
use crate::state::Account;
use crate::state::CoffeeStoreV;
use crate::state::CoffeeV;
use crate::state::EventV;
use crate::state::Identity;
use crate::state::COFFEE_RENT;
use crate::state::STORE_RENT;

verus! {

/// Every record the registry still holds fits its slot.
pub open spec fn registry_wf(registry: Seq<Option<CoffeeV>>) -> bool {
    forall|i: int|
        0 <= i < registry.len() && (#[trigger] registry[i]) is Some ==> registry[i]->Some_0.wf()
}

/// Initialization: fails when the store slot already holds a record or when
/// the payer cannot cover the slot deposit; otherwise writes the store record
/// with the supplied owner and name, debiting the payer. No authorization
/// check: the initializing caller establishes the root of trust.
///
/// Returns the store slot, the payer account and the result after the call.
pub open spec fn spec_initialize(
    slot: Option<CoffeeStoreV>,
    payer: Account,
    admin: Identity,
    store_name: Seq<char>,
) -> (Option<CoffeeStoreV>, Account, Result<(), ErrorCode>) {
    if slot is Some {
        (slot, payer, Err(ErrorCode::AlreadyExists))
    } else if payer.lamports < STORE_RENT {
        (slot, payer, Err(ErrorCode::InsufficientBalance))
    } else {
        (
            Some(CoffeeStoreV { admin, store_name }),
            Account { key: payer.key, lamports: (payer.lamports - STORE_RENT) as u64 },
            Ok(()),
        )
    }
}

/// Item creation: only the store owner may create; a fresh slot is allocated
/// at the end of the registry, its deposit debited from the creator. Any
/// price is accepted, zero included (meaning "not yet for sale").
///
/// Returns the registry, the creator account and the result (the new slot's
/// identifier on success) after the call.
pub open spec fn spec_create(
    registry: Seq<Option<CoffeeV>>,
    store: CoffeeStoreV,
    user: Account,
    name: Seq<char>,
    price: u8,
) -> (Seq<Option<CoffeeV>>, Account, Result<usize, ErrorCode>) {
    if user.key != store.admin {
        (registry, user, Err(ErrorCode::Unauthorized))
    } else if user.lamports < COFFEE_RENT {
        (registry, user, Err(ErrorCode::InsufficientBalance))
    } else {
        (
            registry.push(Some(CoffeeV { name, price })),
            Account { key: user.key, lamports: (user.lamports - COFFEE_RENT) as u64 },
            Ok(registry.len() as usize),
        )
    }
}

/// Item update: only the store owner may update, and only a slot that holds
/// a record can be addressed; name and price are then overwritten
/// unconditionally, last writer wins.
///
/// Returns the registry and the result after the call.
pub open spec fn spec_update(
    registry: Seq<Option<CoffeeV>>,
    store: CoffeeStoreV,
    caller: Identity,
    id: usize,
    name: Seq<char>,
    price: u8,
) -> (Seq<Option<CoffeeV>>, Result<(), ErrorCode>) {
    if caller != store.admin {
        (registry, Err(ErrorCode::Unauthorized))
    } else if id >= registry.len() || registry[id as int] is None {
        (registry, Err(ErrorCode::NotFound))
    } else {
        (registry.update(id as int, Some(CoffeeV { name, price })), Ok(()))
    }
}

/// Item deletion: only the store owner may delete, and only a slot that
/// holds a record can be addressed. The record is cleared and its slot
/// released, the slot's deposit credited back to the releasing caller.
///
/// Returns the registry and the caller account and the result after the call.
pub open spec fn spec_delete(
    registry: Seq<Option<CoffeeV>>,
    store: CoffeeStoreV,
    user: Account,
    id: usize,
) -> (Seq<Option<CoffeeV>>, Account, Result<(), ErrorCode>) {
    if user.key != store.admin {
        (registry, user, Err(ErrorCode::Unauthorized))
    } else if id >= registry.len() || registry[id as int] is None {
        (registry, user, Err(ErrorCode::NotFound))
    } else {
        (
            registry.update(id as int, None),
            Account { key: user.key, lamports: (user.lamports + COFFEE_RENT) as u64 },
            Ok(()),
        )
    }
}

/// Purchase: anyone may buy. The addressed slot must hold a record with a
/// positive price; the price then moves from the buyer to the recipient and
/// a purchase record is appended to the log. The item itself is untouched,
/// so the same item can be bought again at the same price.
///
/// Returns the buyer account, the recipient account, the log and the result
/// after the call.
pub open spec fn spec_buy(
    registry: Seq<Option<CoffeeV>>,
    id: usize,
    buyer: Account,
    recipient: Account,
    log: Seq<EventV>,
) -> (Account, Account, Seq<EventV>, Result<(), ErrorCode>) {
    if id >= registry.len() {
        (buyer, recipient, log, Err(ErrorCode::NotFound))
    } else {
        match registry[id as int] {
            Some(coffee) => {
                if coffee.price == 0 {
                    (buyer, recipient, log, Err(ErrorCode::InvalidCoffee))
                } else if buyer.lamports < coffee.price as u64 {
                    (buyer, recipient, log, Err(ErrorCode::InsufficientBalance))
                } else {
                    (
                        Account {
                            key: buyer.key,
                            lamports: (buyer.lamports - coffee.price as u64) as u64,
                        },
                        Account {
                            key: recipient.key,
                            lamports: (recipient.lamports + coffee.price as u64) as u64,
                        },
                        log.push(
                            EventV::Purchase {
                                buyer: buyer.key,
                                name: coffee.name,
                                price: coffee.price,
                            },
                        ),
                        Ok(()),
                    )
                }
            },
            None => (buyer, recipient, log, Err(ErrorCode::NotFound)),
        }
    }
}

/// Read: no authorization and no mutation beyond the log; the addressed slot
/// must hold a record, whose name and price are returned and logged.
///
/// Returns the log and the result after the call.
pub open spec fn spec_read(
    registry: Seq<Option<CoffeeV>>,
    id: usize,
    log: Seq<EventV>,
) -> (Seq<EventV>, Result<(Seq<char>, u8), ErrorCode>) {
    if id >= registry.len() {
        (log, Err(ErrorCode::NotFound))
    } else {
        match registry[id as int] {
            Some(coffee) => (
                log.push(EventV::ReadItem { name: coffee.name, price: coffee.price }),
                Ok((coffee.name, coffee.price)),
            ),
            None => (log, Err(ErrorCode::NotFound)),
        }
    }
}

} // verus!
