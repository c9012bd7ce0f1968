//! The records the catalog persists, their mathematical models, and the
//! constants the host's storage imposes on them.

use vstd::prelude::*;

verus! {

/// Longest label accepted for the store's display name or an item's name,
/// forced by the fixed size of the slot each record is written into.
pub const MAX_NAME_LEN: usize = 40;

/// Deposit the host charges the payer for the store's slot at initialization,
/// proportional to the slot's size under the host's fee schedule.
pub const STORE_RENT: u64 = 1_475_520;

/// Deposit the host charges the creator for one item's slot, credited back
/// to the caller that releases the slot when the item is deleted.
pub const COFFEE_RENT: u64 = 1_280_640;

/// An authenticated caller identity.
///
/// The host's cryptographic signer verification is taken as given: a value of
/// this type stands for an identity the host has already proven authentic for
/// the current operation. The catalog logic only ever compares identities for
/// equality.
#[derive(Clone, Copy, Debug, PartialEq, Eq, Hash, Structural)]
pub struct Identity(pub u64);

/// A ledger account: an identity together with its balance in the smallest
/// currency unit.
#[derive(Clone, Copy, Debug, PartialEq, Eq, Structural)]
pub struct Account {
    pub key: Identity,
    pub lamports: u64,
}

/// A priced catalog entry. An entry with `price == 0` is not purchasable:
/// either not yet priced, or cleared by deletion.
#[derive(Clone, Debug, PartialEq, Eq)]
pub struct Coffee {
    pub name: String,
    pub price: u8,
}

/// Mathematical model of a [`Coffee`].
pub ghost struct CoffeeV {
    pub name: Seq<char>,
    pub price: u8,
}

impl CoffeeV {
    /// The record fits its slot.
    pub open spec fn wf(self) -> bool {
        self.name.len() <= MAX_NAME_LEN
    }
}

impl View for Coffee {
    type V = CoffeeV;

    open spec fn view(&self) -> CoffeeV {
        CoffeeV { name: self.name@, price: self.price }
    }
}

impl DeepView for Coffee {
    type V = CoffeeV;

    open spec fn deep_view(&self) -> CoffeeV {
        self.view()
    }
}

impl Coffee {
    /// The record as written at creation or update time: the supplied label
    /// and price, unvalidated beyond the slot's size bound (price zero is
    /// accepted and means "not yet for sale").
    pub fn new(name: String, price: u8) -> (c: Coffee)
        requires
            name@.len() <= MAX_NAME_LEN,
        ensures
            c@ == (CoffeeV { name: name@, price }),
            c@.wf(),
    {
        Coffee { name, price }
    }

    /// The defensive clear run by deletion before the slot is released: the
    /// label becomes empty and the price zero, leaving the record
    /// unpurchasable.
    pub fn clear(&mut self)
        ensures
            final(self)@ == (CoffeeV { name: Seq::<char>::empty(), price: 0 }),
    {
        self.name = String::new();
        self.price = 0;
    }
}

/// The singleton store record: the identity authorized to mutate the catalog
/// and a display name. The owner is set once, at initialization, and no
/// operation ever writes it afterwards.
#[derive(Clone, Debug, PartialEq, Eq)]
pub struct CoffeeStore {
    pub admin: Identity,
    pub store_name: String,
}

/// Mathematical model of a [`CoffeeStore`].
pub ghost struct CoffeeStoreV {
    pub admin: Identity,
    pub store_name: Seq<char>,
}

impl CoffeeStoreV {
    /// The record fits its slot.
    pub open spec fn wf(self) -> bool {
        self.store_name.len() <= MAX_NAME_LEN
    }
}

impl View for CoffeeStore {
    type V = CoffeeStoreV;

    open spec fn view(&self) -> CoffeeStoreV {
        CoffeeStoreV { admin: self.admin, store_name: self.store_name@ }
    }
}

impl DeepView for CoffeeStore {
    type V = CoffeeStoreV;

    open spec fn deep_view(&self) -> CoffeeStoreV {
        self.view()
    }
}

impl CoffeeStore {
    /// The store record as written at initialization: the caller that
    /// initializes becomes the admin of record, with no further check.
    pub fn new(admin: Identity, store_name: String) -> (s: CoffeeStore)
        requires
            store_name@.len() <= MAX_NAME_LEN,
        ensures
            s@ == (CoffeeStoreV { admin, store_name: store_name@ }),
            s@.wf(),
    {
        CoffeeStore { admin, store_name }
    }
}

/// An entry of the host's observable log: the human-readable record each
/// purchase and each read emits. The log is append-only and best-effort; no
/// operation's outcome depends on it.
#[derive(Clone, Debug, PartialEq, Eq)]
pub enum Event {
    /// `buyer` paid `price` units for the item labeled `name`.
    Purchase { buyer: Identity, name: String, price: u8 },
    /// The item labeled `name` was read at `price`.
    ReadItem { name: String, price: u8 },
}

/// Mathematical model of an [`Event`].
pub ghost enum EventV {
    Purchase { buyer: Identity, name: Seq<char>, price: u8 },
    ReadItem { name: Seq<char>, price: u8 },
}

impl View for Event {
    type V = EventV;

    open spec fn view(&self) -> EventV {
        match self {
            Event::Purchase { buyer, name, price } => EventV::Purchase {
                buyer: *buyer,
                name: name@,
                price: *price,
            },
            Event::ReadItem { name, price } => EventV::ReadItem { name: name@, price: *price },
        }
    }
}

impl DeepView for Event {
    type V = EventV;

    open spec fn deep_view(&self) -> EventV {
        self.view()
    }
}

} // verus!
