//! The directory facade: answers "telemetry for the node named X" by
//! resolving name to id through the address book and id to snapshot through
//! the telemetry store, keeping the two stages of not-found distinct.

use crate::address_book::{book_contains, book_get, AddressBook};
use crate::address_book::lemma_book_get_contains;
use crate::city_info::{CityInfo, CityMetaDataV};
use crate::telemetry_store::{store_get, TelemetryStore};
use vstd::prelude::*;

verus! {

/// The three-way result of resolving telemetry by node name. It keeps
/// "never heard of this node" apart from "node exists but has not reported
/// yet": a binary found/not-found answer would conflate the two.
#[derive(Clone, Copy, Debug, PartialEq, Eq, Structural)]
pub enum TelemetryLookup {
    /// The name is absent from the address book.
    NodeUnknown,
    /// The name is registered, but its id has no snapshot yet.
    TelemetryPending,
    /// The name is registered and its id has reported: the latest snapshot.
    Found(CityInfo),
}

/// What a lookup by name yields, over the two directories' contents.
pub open spec fn lookup_spec(
    book: Seq<CityMetaDataV>,
    store: Seq<(Seq<char>, CityInfo)>,
    name: Seq<char>,
) -> TelemetryLookup {
    match book_get(book, name) {
        Option::None => TelemetryLookup::NodeUnknown,
        Option::Some(m) => match store_get(store, m.id) {
            Option::None => TelemetryLookup::TelemetryPending,
            Option::Some(t) => TelemetryLookup::Found(t),
        },
    }
}

/// Law: a name never registered yields `NodeUnknown`, whatever the store
/// holds (orphan telemetry stays invisible until the id is registered).
pub proof fn lemma_lookup_unregistered(
    book: Seq<CityMetaDataV>,
    store: Seq<(Seq<char>, CityInfo)>,
    name: Seq<char>,
)
    requires
        !book_contains(book, name),
    ensures
        lookup_spec(book, store, name) == TelemetryLookup::NodeUnknown,
{
    lemma_book_get_contains(book, name);
}

/// Law: a registered name whose id has never received a snapshot yields
/// `TelemetryPending` — never `NodeUnknown`.
pub proof fn lemma_lookup_pending(
    book: Seq<CityMetaDataV>,
    store: Seq<(Seq<char>, CityInfo)>,
    m: CityMetaDataV,
)
    requires
        book_get(book, m.name) == Some(m),
        store_get(store, m.id) is None,
    ensures
        lookup_spec(book, store, m.name) == TelemetryLookup::TelemetryPending,
{
}

/// Law: a registered name whose id holds a snapshot yields `Found` with
/// exactly that snapshot — the one the most recent `put` stored.
pub proof fn lemma_lookup_found(
    book: Seq<CityMetaDataV>,
    store: Seq<(Seq<char>, CityInfo)>,
    m: CityMetaDataV,
    t: CityInfo,
)
    requires
        book_get(book, m.name) == Some(m),
        store_get(store, m.id) == Some(t),
    ensures
        lookup_spec(book, store, m.name) == TelemetryLookup::Found(t),
{
}

/// Resolves the telemetry of the node named `name` in two stages:
/// name to id through `book`, then id to snapshot through `store`.
pub fn get_telemetry_by_name(
    book: &AddressBook,
    store: &TelemetryStore,
    name: &String,
) -> (r: TelemetryLookup)
    ensures
        r == lookup_spec(book@, store@, name@),
{
    match book.resolve(name) {
        Option::None => TelemetryLookup::NodeUnknown,
        Option::Some(meta) => match store.get(&meta.id) {
            Option::None => TelemetryLookup::TelemetryPending,
            Option::Some(t) => TelemetryLookup::Found(t),
        },
    }
}

/// The stored command-port address of the node named `name`, or `None`
/// when the name is unknown.
pub fn resolve_address(book: &AddressBook, name: &String) -> (r: Option<String>)
    ensures
        match r {
            Some(a) => book_get(book@, name@) matches Some(m) && a@ == m.address,
            None => book_get(book@, name@) is None,
        },
{
    match book.resolve(name) {
        Option::Some(meta) => Some(meta.address),
        Option::None => None,
    }
}

} // verus!
