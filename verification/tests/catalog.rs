//! End-to-end exercises of the catalog: store lifecycle, item CRUD,
//! purchase settlement, and the error taxonomy.

use coffee_shop::errors::ErrorCode;
use coffee_shop::ledger::transfer;
use coffee_shop::shop::buy_coffee;
use coffee_shop::shop::create_coffee;
use coffee_shop::shop::delete_coffee;
use coffee_shop::shop::initialize;
use coffee_shop::shop::read_coffee;
use coffee_shop::shop::require_admin;
use coffee_shop::shop::update_coffee;
use coffee_shop::state::Account;
use coffee_shop::state::Coffee;
use coffee_shop::state::CoffeeStore;
use coffee_shop::state::Event;
use coffee_shop::state::Identity;
use coffee_shop::state::COFFEE_RENT;
use coffee_shop::state::MAX_NAME_LEN;
use coffee_shop::state::STORE_RENT;

const RICH: u64 = 100_000_000;

fn owner() -> Identity {
    Identity(1)
}

fn outsider() -> Identity {
    Identity(2)
}

fn funded(key: Identity) -> Account {
    Account { key, lamports: RICH }
}

fn init_store() -> (CoffeeStore, Account) {
    let mut slot: Option<CoffeeStore> = None;
    let mut payer = funded(owner());
    let r = initialize(&mut slot, &mut payer, owner(), String::from("Brew"));
    assert_eq!(r, Ok(()));
    (slot.unwrap(), payer)
}

#[test]
fn initialize_sets_owner_and_name() {
    let mut slot: Option<CoffeeStore> = None;
    let mut payer = funded(owner());
    let r = initialize(&mut slot, &mut payer, owner(), String::from("Brew"));
    assert_eq!(r, Ok(()));
    let store = slot.unwrap();
    assert_eq!(store.admin, owner());
    assert_eq!(store.store_name, "Brew");
    assert_eq!(payer.lamports, RICH - STORE_RENT);
}

#[test]
fn initialize_twice_fails_already_exists() {
    let mut slot: Option<CoffeeStore> = None;
    let mut payer = funded(owner());
    assert_eq!(initialize(&mut slot, &mut payer, owner(), String::from("Brew")), Ok(()));
    let balance_after_first = payer.lamports;

    let mut second_payer = funded(outsider());
    let r = initialize(&mut slot, &mut second_payer, outsider(), String::from("Usurper"));
    assert_eq!(r, Err(ErrorCode::AlreadyExists));
    // the second call changed nothing: same owner, same name, no charge
    let store = slot.unwrap();
    assert_eq!(store.admin, owner());
    assert_eq!(store.store_name, "Brew");
    assert_eq!(second_payer.lamports, RICH);
    assert_eq!(payer.lamports, balance_after_first);
}

#[test]
fn initialize_needs_the_deposit() {
    let mut slot: Option<CoffeeStore> = None;
    let mut payer = Account { key: owner(), lamports: STORE_RENT - 1 };
    let r = initialize(&mut slot, &mut payer, owner(), String::from("Brew"));
    assert_eq!(r, Err(ErrorCode::InsufficientBalance));
    assert!(slot.is_none());
    assert_eq!(payer.lamports, STORE_RENT - 1);
}

#[test]
fn create_by_non_owner_is_unauthorized() {
    let (store, _) = init_store();
    let mut registry: Vec<Option<Coffee>> = Vec::new();
    let mut outsider = funded(outsider());
    let r = create_coffee(&mut registry, &store, &mut outsider, String::from("Latte"), 5);
    assert_eq!(r, Err(ErrorCode::Unauthorized));
    assert!(registry.is_empty());
    assert_eq!(outsider.lamports, RICH);
}

#[test]
fn update_by_non_owner_is_unauthorized() {
    let (store, mut owner_acct) = init_store();
    let mut registry: Vec<Option<Coffee>> = Vec::new();
    let id = create_coffee(&mut registry, &store, &mut owner_acct, String::from("Latte"), 5)
        .unwrap();
    let r = update_coffee(&mut registry, &store, outsider(), id, String::from("Mocha"), 6);
    assert_eq!(r, Err(ErrorCode::Unauthorized));
    // the record is untouched
    let coffee = registry[id].as_ref().unwrap();
    assert_eq!(coffee.name, "Latte");
    assert_eq!(coffee.price, 5);
}

#[test]
fn delete_by_non_owner_is_unauthorized() {
    let (store, mut owner_acct) = init_store();
    let mut registry: Vec<Option<Coffee>> = Vec::new();
    let id = create_coffee(&mut registry, &store, &mut owner_acct, String::from("Latte"), 5)
        .unwrap();
    let mut outsider = funded(outsider());
    let r = delete_coffee(&mut registry, &store, &mut outsider, id);
    assert_eq!(r, Err(ErrorCode::Unauthorized));
    assert!(registry[id].is_some());
    assert_eq!(outsider.lamports, RICH);
}

#[test]
fn create_assigns_fresh_identifiers_and_charges_rent() {
    let (store, mut owner_acct) = init_store();
    let mut registry: Vec<Option<Coffee>> = Vec::new();
    let before = owner_acct.lamports;
    let a = create_coffee(&mut registry, &store, &mut owner_acct, String::from("Latte"), 5)
        .unwrap();
    let b = create_coffee(&mut registry, &store, &mut owner_acct, String::from("Espresso"), 3)
        .unwrap();
    assert_eq!(a, 0);
    assert_eq!(b, 1);
    assert_eq!(owner_acct.lamports, before - 2 * COFFEE_RENT);
}

#[test]
fn create_needs_the_deposit() {
    let (store, _) = init_store();
    let mut registry: Vec<Option<Coffee>> = Vec::new();
    let mut poor_owner = Account { key: owner(), lamports: COFFEE_RENT - 1 };
    let r = create_coffee(&mut registry, &store, &mut poor_owner, String::from("Latte"), 5);
    assert_eq!(r, Err(ErrorCode::InsufficientBalance));
    assert!(registry.is_empty());
    assert_eq!(poor_owner.lamports, COFFEE_RENT - 1);
}

#[test]
fn longest_accepted_name_fits() {
    let (store, mut owner_acct) = init_store();
    let mut registry: Vec<Option<Coffee>> = Vec::new();
    let name: String = "x".repeat(MAX_NAME_LEN);
    let id = create_coffee(&mut registry, &store, &mut owner_acct, name.clone(), 7).unwrap();
    let mut log: Vec<Event> = Vec::new();
    assert_eq!(read_coffee(&registry, id, &mut log), Ok((name, 7)));
}

#[test]
fn update_overwrites_unconditionally() {
    let (store, mut owner_acct) = init_store();
    let mut registry: Vec<Option<Coffee>> = Vec::new();
    let id = create_coffee(&mut registry, &store, &mut owner_acct, String::from("Latte"), 5)
        .unwrap();
    assert_eq!(update_coffee(&mut registry, &store, owner(), id, String::from("Mocha"), 6), Ok(()));
    let mut log: Vec<Event> = Vec::new();
    assert_eq!(read_coffee(&registry, id, &mut log), Ok((String::from("Mocha"), 6)));
    // same name and price again: last writer still wins
    assert_eq!(update_coffee(&mut registry, &store, owner(), id, String::from("Mocha"), 6), Ok(()));
    assert_eq!(read_coffee(&registry, id, &mut log), Ok((String::from("Mocha"), 6)));
}

#[test]
fn update_unknown_identifier_not_found() {
    let (store, _) = init_store();
    let mut registry: Vec<Option<Coffee>> = Vec::new();
    let r = update_coffee(&mut registry, &store, owner(), 0, String::from("Mocha"), 6);
    assert_eq!(r, Err(ErrorCode::NotFound));
}

#[test]
fn buy_zero_price_is_invalid_and_moves_nothing() {
    let (store, mut owner_acct) = init_store();
    let mut registry: Vec<Option<Coffee>> = Vec::new();
    let id = create_coffee(&mut registry, &store, &mut owner_acct, String::from("Unpriced"), 0)
        .unwrap();
    let recipient_before = owner_acct.lamports;
    let mut buyer = funded(outsider());
    let mut log: Vec<Event> = Vec::new();
    let r = buy_coffee(&registry, id, &mut buyer, &mut owner_acct, &mut log);
    assert_eq!(r, Err(ErrorCode::InvalidCoffee));
    assert_eq!(buyer.lamports, RICH);
    assert_eq!(owner_acct.lamports, recipient_before);
    assert!(log.is_empty());
}

#[test]
fn buy_transfers_exactly_the_price() {
    let (store, mut owner_acct) = init_store();
    let mut registry: Vec<Option<Coffee>> = Vec::new();
    let id = create_coffee(&mut registry, &store, &mut owner_acct, String::from("Latte"), 5)
        .unwrap();
    let recipient_before = owner_acct.lamports;
    let mut buyer = funded(outsider());
    let mut log: Vec<Event> = Vec::new();
    assert_eq!(buy_coffee(&registry, id, &mut buyer, &mut owner_acct, &mut log), Ok(()));
    assert_eq!(buyer.lamports, RICH - 5);
    assert_eq!(owner_acct.lamports, recipient_before + 5);
    assert_eq!(
        log,
        vec![Event::Purchase { buyer: outsider(), name: String::from("Latte"), price: 5 }]
    );
    // the item is unchanged and can be bought again at the same price
    assert_eq!(buy_coffee(&registry, id, &mut buyer, &mut owner_acct, &mut log), Ok(()));
    assert_eq!(buyer.lamports, RICH - 10);
    assert_eq!(owner_acct.lamports, recipient_before + 10);
}

#[test]
fn buy_with_short_balance_fails_and_moves_nothing() {
    let (store, mut owner_acct) = init_store();
    let mut registry: Vec<Option<Coffee>> = Vec::new();
    let id = create_coffee(&mut registry, &store, &mut owner_acct, String::from("Latte"), 5)
        .unwrap();
    let recipient_before = owner_acct.lamports;
    let mut buyer = Account { key: outsider(), lamports: 4 };
    let mut log: Vec<Event> = Vec::new();
    let r = buy_coffee(&registry, id, &mut buyer, &mut owner_acct, &mut log);
    assert_eq!(r, Err(ErrorCode::InsufficientBalance));
    assert_eq!(buyer.lamports, 4);
    assert_eq!(owner_acct.lamports, recipient_before);
    assert!(log.is_empty());
}

#[test]
fn buy_unknown_identifier_not_found() {
    let (_, mut owner_acct) = init_store();
    let registry: Vec<Option<Coffee>> = Vec::new();
    let mut buyer = funded(outsider());
    let mut log: Vec<Event> = Vec::new();
    let r = buy_coffee(&registry, 0, &mut buyer, &mut owner_acct, &mut log);
    assert_eq!(r, Err(ErrorCode::NotFound));
}

#[test]
fn delete_reclaims_slot_and_refunds_deposit() {
    let (store, mut owner_acct) = init_store();
    let mut registry: Vec<Option<Coffee>> = Vec::new();
    let before = owner_acct.lamports;
    let id = create_coffee(&mut registry, &store, &mut owner_acct, String::from("Latte"), 5)
        .unwrap();
    assert_eq!(delete_coffee(&mut registry, &store, &mut owner_acct, id), Ok(()));
    // the deposit came back to the releasing caller
    assert_eq!(owner_acct.lamports, before);
    assert!(registry[id].is_none());
}

#[test]
fn deleted_identifier_is_dead() {
    let (store, mut owner_acct) = init_store();
    let mut registry: Vec<Option<Coffee>> = Vec::new();
    let id = create_coffee(&mut registry, &store, &mut owner_acct, String::from("Latte"), 5)
        .unwrap();
    assert_eq!(delete_coffee(&mut registry, &store, &mut owner_acct, id), Ok(()));

    let mut log: Vec<Event> = Vec::new();
    assert_eq!(read_coffee(&registry, id, &mut log), Err(ErrorCode::NotFound));
    assert!(log.is_empty());
    assert_eq!(
        update_coffee(&mut registry, &store, owner(), id, String::from("Mocha"), 6),
        Err(ErrorCode::NotFound)
    );
    assert_eq!(
        delete_coffee(&mut registry, &store, &mut owner_acct, id),
        Err(ErrorCode::NotFound)
    );
    let mut buyer = funded(outsider());
    assert_eq!(
        buy_coffee(&registry, id, &mut buyer, &mut owner_acct, &mut log),
        Err(ErrorCode::NotFound)
    );
}

#[test]
fn read_returns_record_and_logs_it() {
    let (store, mut owner_acct) = init_store();
    let mut registry: Vec<Option<Coffee>> = Vec::new();
    let id = create_coffee(&mut registry, &store, &mut owner_acct, String::from("Latte"), 5)
        .unwrap();
    let mut log: Vec<Event> = Vec::new();
    assert_eq!(read_coffee(&registry, id, &mut log), Ok((String::from("Latte"), 5)));
    assert_eq!(log, vec![Event::ReadItem { name: String::from("Latte"), price: 5 }]);
}

#[test]
fn transfer_moves_exact_amount_and_checks_balance() {
    let mut from = Account { key: owner(), lamports: 10 };
    let mut to = Account { key: outsider(), lamports: 0 };
    assert_eq!(transfer(&mut from, &mut to, 10), Ok(()));
    assert_eq!(from.lamports, 0);
    assert_eq!(to.lamports, 10);
    assert_eq!(transfer(&mut from, &mut to, 1), Err(ErrorCode::InsufficientBalance));
    assert_eq!(from.lamports, 0);
    assert_eq!(to.lamports, 10);
}

#[test]
fn require_admin_gates_on_identity() {
    let (store, _) = init_store();
    assert_eq!(require_admin(&store, owner()), Ok(()));
    assert_eq!(require_admin(&store, outsider()), Err(ErrorCode::Unauthorized));
}

#[test]
fn cleared_record_is_empty_and_unpriced() {
    let mut coffee = Coffee::new(String::from("Latte"), 5);
    coffee.clear();
    assert_eq!(coffee.name, "");
    assert_eq!(coffee.price, 0);
}

#[test]
fn brew_store_full_scenario() {
    // The owner opens the store and lists a latte.
    let owner = Identity(10);
    let buyer_id = Identity(20);
    let outsider = Identity(30);
    let mut slot: Option<CoffeeStore> = None;
    let mut owner_acct = Account { key: owner, lamports: RICH };
    assert_eq!(initialize(&mut slot, &mut owner_acct, owner, String::from("Brew")), Ok(()));
    let store = slot.unwrap();

    let mut registry: Vec<Option<Coffee>> = Vec::new();
    let id = create_coffee(&mut registry, &store, &mut owner_acct, String::from("Latte"), 5)
        .unwrap();
    let mut log: Vec<Event> = Vec::new();
    assert_eq!(read_coffee(&registry, id, &mut log), Ok((String::from("Latte"), 5)));

    // A buyer with sufficient balance pays exactly the price to the owner.
    let mut buyer = Account { key: buyer_id, lamports: 1_000 };
    let owner_before = owner_acct.lamports;
    assert_eq!(buy_coffee(&registry, id, &mut buyer, &mut owner_acct, &mut log), Ok(()));
    assert_eq!(buyer.lamports, 995);
    assert_eq!(owner_acct.lamports, owner_before + 5);
    assert_eq!(read_coffee(&registry, id, &mut log), Ok((String::from("Latte"), 5)));

    // A non-owner cannot rename it.
    assert_eq!(
        update_coffee(&mut registry, &store, outsider, id, String::from("Mocha"), 6),
        Err(ErrorCode::Unauthorized)
    );
    assert_eq!(read_coffee(&registry, id, &mut log), Ok((String::from("Latte"), 5)));

    // The owner can.
    assert_eq!(update_coffee(&mut registry, &store, owner, id, String::from("Mocha"), 6), Ok(()));
    assert_eq!(read_coffee(&registry, id, &mut log), Ok((String::from("Mocha"), 6)));

    // Deletion clears the record, reclaims the slot, and kills the identifier.
    assert_eq!(delete_coffee(&mut registry, &store, &mut owner_acct, id), Ok(()));
    assert!(registry[id].is_none());
    assert_eq!(read_coffee(&registry, id, &mut log), Err(ErrorCode::NotFound));
}
