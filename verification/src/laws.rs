//! Laws of the catalog, proved of the transition functions that every
//! executable operation's contract promises exactly.

use vstd::prelude::*;

use crate::errors::ErrorCode;
use crate::state::Account;
use crate::state::CoffeeStoreV;
use crate::state::CoffeeV;
use crate::state::EventV;
use crate::state::Identity;
use crate::state::MAX_NAME_LEN;
use crate::state::STORE_RENT;
use crate::transitions::spec_buy;
use crate::transitions::spec_create;
use crate::transitions::spec_delete;
use crate::transitions::spec_initialize;
use crate::transitions::spec_read;
use crate::transitions::spec_update;
use crate::transitions::registry_wf;

verus! {

/// A caller whose identity is not the store owner's cannot mutate the
/// catalog: creation, update and deletion each fail with `Unauthorized` and
/// leave the registry and the caller's account exactly as they were.
pub proof fn lemma_non_owner_mutations_rejected(
    registry: Seq<Option<CoffeeV>>,
    store: CoffeeStoreV,
    caller: Account,
    id: usize,
    name: Seq<char>,
    price: u8,
)
    requires
        caller.key != store.admin,
    ensures
        spec_create(registry, store, caller, name, price) == (
            registry,
            caller,
            Err::<usize, ErrorCode>(ErrorCode::Unauthorized),
        ),
        spec_update(registry, store, caller.key, id, name, price) == (
            registry,
            Err::<(), ErrorCode>(ErrorCode::Unauthorized),
        ),
        spec_delete(registry, store, caller, id) == (
            registry,
            caller,
            Err::<(), ErrorCode>(ErrorCode::Unauthorized),
        ),
{
}

/// The store slot is initialized at most once: a first initialization
/// against an empty slot succeeds when the payer covers the deposit, and a
/// second one against the same slot fails with `AlreadyExists`, changing
/// neither the slot nor the owner recorded in it — whatever identity, name
/// and payer the second call brings.
pub proof fn lemma_initialize_at_most_once(
    payer0: Account,
    admin0: Identity,
    name0: Seq<char>,
    payer1: Account,
    admin1: Identity,
    name1: Seq<char>,
)
    requires
        payer0.lamports >= STORE_RENT,
    ensures
        ({
            let (slot1, payer0_after, res0) = spec_initialize(None, payer0, admin0, name0);
            let (slot2, payer1_after, res1) = spec_initialize(slot1, payer1, admin1, name1);
            res0 == Ok::<(), ErrorCode>(()) && slot1 == Some(
                CoffeeStoreV { admin: admin0, store_name: name0 },
            ) && res1 == Err::<(), ErrorCode>(ErrorCode::AlreadyExists) && slot2 == slot1
                && payer1_after == payer1
        }),
{
}

/// An item priced zero is not purchasable: the purchase fails with
/// `InvalidCoffee` and no value moves — buyer, recipient and log are exactly
/// as before.
pub proof fn lemma_zero_price_rejected(
    registry: Seq<Option<CoffeeV>>,
    id: usize,
    coffee: CoffeeV,
    buyer: Account,
    recipient: Account,
    log: Seq<EventV>,
)
    requires
        id < registry.len(),
        registry[id as int] == Some(coffee),
        coffee.price == 0,
    ensures
        spec_buy(registry, id, buyer, recipient, log) == (
            buyer,
            recipient,
            log,
            Err::<(), ErrorCode>(ErrorCode::InvalidCoffee),
        ),
{
}

/// A successful purchase settles exactly: the buyer's balance drops by the
/// item's price, the recipient's rises by the same amount, no identity
/// changes, and the purchase is logged. The item itself is no part of the
/// transition's outcome — and the executable operation takes the registry by
/// shared reference — so its price afterwards is its price before.
pub proof fn lemma_purchase_settles_exactly(
    registry: Seq<Option<CoffeeV>>,
    id: usize,
    coffee: CoffeeV,
    buyer: Account,
    recipient: Account,
    log: Seq<EventV>,
)
    requires
        id < registry.len(),
        registry[id as int] == Some(coffee),
        coffee.price > 0,
        buyer.lamports >= coffee.price as u64,
        recipient.lamports + coffee.price as u64 <= u64::MAX,
    ensures
        ({
            let (buyer1, recipient1, log1, res) = spec_buy(registry, id, buyer, recipient, log);
            res == Ok::<(), ErrorCode>(()) && buyer1.lamports == buyer.lamports - coffee.price
                as u64 && recipient1.lamports == recipient.lamports + coffee.price as u64
                && buyer1.key == buyer.key && recipient1.key == recipient.key && log1 == log.push(
                EventV::Purchase { buyer: buyer.key, name: coffee.name, price: coffee.price },
            )
        }),
{
}

/// A deleted identifier is dead: after a successful deletion, a read of the
/// same identifier fails with `NotFound` and logs nothing, and an update of
/// it by the owner fails with `NotFound` too — the slot was reclaimed, not
/// merely emptied. (A non-owner caller is refused with `Unauthorized`
/// before the slot is even looked up, so the owner's identity is assumed
/// here.)
pub proof fn lemma_deleted_slot_is_gone(
    registry: Seq<Option<CoffeeV>>,
    store: CoffeeStoreV,
    user: Account,
    id: usize,
    caller: Identity,
    name: Seq<char>,
    price: u8,
    log: Seq<EventV>,
)
    requires
        spec_delete(registry, store, user, id).2 is Ok,
        caller == store.admin,
    ensures
        ({
            let registry1 = spec_delete(registry, store, user, id).0;
            spec_read(registry1, id, log) == (
                log,
                Err::<(Seq<char>, u8), ErrorCode>(ErrorCode::NotFound),
            ) && spec_update(registry1, store, caller, id, name, price) == (
                registry1,
                Err::<(), ErrorCode>(ErrorCode::NotFound),
            )
        }),
{
}

/// Every mutation keeps the registry well formed: starting from a registry
/// whose records all fit their slots, creating or updating with a name
/// within the slot's bound, or deleting, leaves every record still fitting
/// its slot. (A purchase never touches the registry at all.)
pub proof fn lemma_operations_preserve_wf(
    registry: Seq<Option<CoffeeV>>,
    store: CoffeeStoreV,
    user: Account,
    caller: Identity,
    id: usize,
    name: Seq<char>,
    price: u8,
)
    requires
        registry_wf(registry),
        name.len() <= MAX_NAME_LEN,
    ensures
        registry_wf(spec_create(registry, store, user, name, price).0),
        registry_wf(spec_update(registry, store, caller, id, name, price).0),
        registry_wf(spec_delete(registry, store, user, id).0),
{
}

} // verus!
