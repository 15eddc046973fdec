//! Results of key-value store operations.

use vstd::prelude::*;
use vstd::string::*;
use std::collections::HashSet;
use crate::error::{try_fe, ErrorSlot};
use crate::handle::put_if_present;

verus! {

/// The failure categories of a store operation.
#[derive(Copy, Clone, Debug, PartialEq, Eq, Structural)]
pub enum KVStoreErrorCode {
    InvalidKey,
    InvalidStoreHandle,
    InvalidStoreOptions,
    ItemBadRequest,
    ItemNotFound,
    ItemPreconditionFailed,
    ItemPayloadTooLarge,
    StoreNotFound,
    TooManyRequests,
    Unexpected,
}

/// How an insert treats a value that is already stored under the key.
#[derive(Copy, Clone, Debug, PartialEq, Eq, Structural)]
pub enum InsertMode {
    Overwrite,
    Add,
    Append,
    Prepend,
}

/// The consistency a listing was made with.
#[derive(Copy, Clone, Debug, PartialEq, Eq, Structural)]
pub enum ListModeType {
    Strong,
    Eventual,
    Other,
}

/// What went wrong in a store operation, as the runtime tells it.
#[derive(Copy, Clone, Debug, PartialEq, Eq, Structural)]
pub enum KVStoreFailure {
    /// The key was not valid.
    InvalidKey,
    /// The store handle was not valid.
    InvalidStoreHandle,
    /// The options were not valid.
    InvalidStoreOptions,
    /// The request for the item was bad.
    ItemBadRequest,
    /// No item is stored under the key.
    ItemNotFound,
    /// A precondition on the item failed.
    ItemPreconditionFailed,
    /// The item is over the payload limit.
    ItemPayloadTooLarge,
    /// No store has the name.
    StoreNotFound,
    /// A rate limit was hit.
    TooManyRequests,
    /// The runtime reported a status that fits none of the above.
    Unexpected,
    /// A failure this library has no variant for.
    Unrecognized,
}

/// The error object of a store operation: what went wrong, and the text
/// that describes it.
#[derive(Debug, PartialEq, Eq)]
pub struct KVStoreError {
    pub failure: KVStoreFailure,
    pub message: String,
}

impl KVStoreError {
    /// The code of each failure. A failure this library has no variant for
    /// reads `Unexpected`.
    pub open spec fn code(&self) -> KVStoreErrorCode {
        match self.failure {
            KVStoreFailure::InvalidKey => KVStoreErrorCode::InvalidKey,
            KVStoreFailure::InvalidStoreHandle => KVStoreErrorCode::InvalidStoreHandle,
            KVStoreFailure::InvalidStoreOptions => KVStoreErrorCode::InvalidStoreOptions,
            KVStoreFailure::ItemBadRequest => KVStoreErrorCode::ItemBadRequest,
            KVStoreFailure::ItemNotFound => KVStoreErrorCode::ItemNotFound,
            KVStoreFailure::ItemPreconditionFailed => KVStoreErrorCode::ItemPreconditionFailed,
            KVStoreFailure::ItemPayloadTooLarge => KVStoreErrorCode::ItemPayloadTooLarge,
            KVStoreFailure::StoreNotFound => KVStoreErrorCode::StoreNotFound,
            KVStoreFailure::TooManyRequests => KVStoreErrorCode::TooManyRequests,
            KVStoreFailure::Unexpected => KVStoreErrorCode::Unexpected,
            KVStoreFailure::Unrecognized => KVStoreErrorCode::Unexpected,
        }
    }

    /// Appends the error's text to `out`.
    pub fn error_msg(&self, out: &mut String)
        ensures
            final(out)@ == old(out)@ + self.message@,
    {
        out.append(self.message.as_str());
    }

    /// The category of the error.
    pub fn error_code(&self) -> (code: KVStoreErrorCode)
        ensures
            code == self.code(),
    {
        match self.failure {
            KVStoreFailure::InvalidKey => KVStoreErrorCode::InvalidKey,
            KVStoreFailure::InvalidStoreHandle => KVStoreErrorCode::InvalidStoreHandle,
            KVStoreFailure::InvalidStoreOptions => KVStoreErrorCode::InvalidStoreOptions,
            KVStoreFailure::ItemBadRequest => KVStoreErrorCode::ItemBadRequest,
            KVStoreFailure::ItemNotFound => KVStoreErrorCode::ItemNotFound,
            KVStoreFailure::ItemPreconditionFailed => KVStoreErrorCode::ItemPreconditionFailed,
            KVStoreFailure::ItemPayloadTooLarge => KVStoreErrorCode::ItemPayloadTooLarge,
            KVStoreFailure::StoreNotFound => KVStoreErrorCode::StoreNotFound,
            KVStoreFailure::TooManyRequests => KVStoreErrorCode::TooManyRequests,
            KVStoreFailure::Unexpected => KVStoreErrorCode::Unexpected,
            KVStoreFailure::Unrecognized => KVStoreErrorCode::Unexpected,
        }
    }
}

/// The consistency a listing was made with, with the runtime's own word for
/// it where this library has none.
#[derive(Debug, PartialEq, Eq)]
pub enum ListMode {
    Strong,
    Eventual,
    Other(String),
}

impl ListMode {
    /// The mode as a plain tag.
    pub fn code(&self) -> (tag: ListModeType)
        ensures
            self is Strong ==> tag == ListModeType::Strong,
            self is Eventual ==> tag == ListModeType::Eventual,
            self is Other ==> tag == ListModeType::Other,
    {
        match self {
            ListMode::Strong => ListModeType::Strong,
            ListMode::Eventual => ListModeType::Eventual,
            ListMode::Other(_) => ListModeType::Other,
        }
    }

    /// Appends the runtime's word for a mode that has no tag of its own to
    /// `out`, and returns `true`; for `Strong` and `Eventual` appends
    /// nothing and returns `false`.
    pub fn other_string(&self, out: &mut String) -> (present: bool)
        ensures
            present == (self is Other),
            self matches ListMode::Other(word) ==> final(out)@ == old(out)@ + word@,
            !(self is Other) ==> final(out)@ == old(out)@,
    {
        match self {
            ListMode::Other(word) => {
                out.append(word.as_str());
                true
            },
            _ => false,
        }
    }
}

/// Reports the outcome of opening a store.
///
/// A store that was found goes to `out`, and `true` is returned. A name
/// that no store has is no failure: `out` stays as it was and `false` is
/// returned. In both cases the slot is cleared. A failure leaves the error
/// in the slot, `out` as it was, and returns `false`.
pub fn m_static_kv_store_kv_store_open<S>(
    opened: Result<Option<S>, KVStoreError>,
    out: &mut Option<Box<S>>,
    err: &mut ErrorSlot<KVStoreError>,
) -> (found: bool)
    ensures
        found == (opened matches Ok(Some(_))),
        final(err).null() <==> opened is Ok,
        opened matches Ok(Some(store)) ==> *final(out) == Some(Box::new(store)),
        opened matches Ok(None) ==> *final(out) == *old(out),
        opened matches Err(error) ==> final(err).holds(error) && *final(out) == *old(out),
{
    match try_fe(err, opened) {
        Some(store) => put_if_present(out, store),
        None => false,
    }
}

/// Reports one step of a cursor over the pages of a listing, given what
/// the runtime produced for that step.
///
/// A page goes to `out` with the slot cleared, and `true` is returned. A
/// failure to fetch the page goes to the slot with `out` as it was, and
/// `false` is returned, as by every operation that fails. When the listing
/// is exhausted, `false` is returned, the slot is cleared and `out` stays as
/// it was: after `false`, the slot tells a failed page from the end of the
/// listing.
pub fn list_response_next<Pg>(
    step: Option<Result<Pg, KVStoreError>>,
    out: &mut Option<Box<Pg>>,
    err: &mut ErrorSlot<KVStoreError>,
) -> (more: bool)
    ensures
        more == (step matches Some(Ok(_))),
        final(err).null() <==> !(step matches Some(Err(_))),
        step matches Some(Ok(page)) ==> *final(out) == Some(Box::new(page)),
        step matches Some(Err(error)) ==> final(err).holds(error) && *final(out) == *old(out),
        step is None ==> *final(out) == *old(out),
{
    match step {
        Some(Ok(page)) => {
            err.set_null();
            *out = Some(Box::new(page));
            true
        },
        Some(Err(error)) => {
            err.set_error(error);
            false
        },
        None => {
            err.set_null();
            false
        },
    }
}

/// The correlation ids of the store operations that were started and have
/// not been redeemed yet.
///
/// An id stands for one operation from the call that starts it to the one
/// wait that redeems it. The ledger lets the owner of the ids notice a wait
/// on an id that was never handed out, or that was redeemed before.
pub struct CorrelationLedger {
    outstanding: HashSet<u32>,
}

impl View for CorrelationLedger {
    type V = Set<u32>;

    closed spec fn view(&self) -> Set<u32> {
        self.outstanding@
    }
}

impl CorrelationLedger {
    /// A ledger with no operation outstanding.
    pub fn new() -> (ledger: Self)
        ensures
            ledger@ == Set::<u32>::empty(),
    {
        CorrelationLedger { outstanding: HashSet::new() }
    }

    /// Whether `id` stands for an operation that is still to be redeemed.
    pub fn is_outstanding(&self, id: u32) -> (b: bool)
        ensures
            b == self@.contains(id),
    {
        broadcast use vstd::std_specs::hash::group_hash_axioms;

        self.outstanding.contains(&id)
    }

    /// Records that an operation was started under `id`. Returns `false`
    /// when `id` already stands for an operation that was not redeemed.
    pub fn issue(&mut self, id: u32) -> (fresh: bool)
        ensures
            fresh == !old(self)@.contains(id),
            final(self)@ == issued(old(self)@, id),
    {
        broadcast use vstd::std_specs::hash::group_hash_axioms;

        self.outstanding.insert(id)
    }

    /// Retires `id` for a wait. Returns `true` when `id` was outstanding,
    /// and `false` for an id that was never handed out or was redeemed
    /// before: such a wait breaks the contract.
    pub fn redeem(&mut self, id: u32) -> (known: bool)
        ensures
            (final(self)@, known) == redeemed(old(self)@, id),
            !final(self)@.contains(id),
    {
        broadcast use vstd::std_specs::hash::group_hash_axioms;

        self.outstanding.remove(&id)
    }
}

/// Reports the outcome of starting an asynchronous store operation.
///
/// When the runtime started the operation, its correlation id is written
/// to `out`, the slot is cleared and the id is entered in the ledger; the
/// result tells whether the id was free to be handed out, which it is
/// unless the runtime reuses an id that was not redeemed. When the
/// operation could not be started, the error goes to the slot, `out` and the
/// ledger stay as they were, and the result is `true`.
pub fn execute_async(
    ledger: &mut CorrelationLedger,
    started: Result<u32, KVStoreError>,
    out: &mut u32,
    err: &mut ErrorSlot<KVStoreError>,
) -> (fresh: bool)
    ensures
        final(err).null() <==> started is Ok,
        started matches Ok(id) ==> *final(out) == id && final(ledger)@ == issued(old(ledger)@, id)
            && fresh == !old(ledger)@.contains(id),
        started matches Err(error) ==> final(err).holds(error) && *final(out) == *old(out)
            && final(ledger)@ == old(ledger)@ && fresh,
{
    match try_fe(err, started) {
        Some(id) => {
            *out = id;
            ledger.issue(id)
        },
        None => true,
    }
}

/// What `issue` does to the set of outstanding ids.
pub open spec fn issued(outstanding: Set<u32>, id: u32) -> Set<u32> {
    outstanding.insert(id)
}

/// What `redeem` does to the set of outstanding ids, and what it returns.
pub open spec fn redeemed(outstanding: Set<u32>, id: u32) -> (Set<u32>, bool) {
    (outstanding.remove(id), outstanding.contains(id))
}

/// An id is redeemed once: the wait that follows its start is accepted,
/// and a second wait on the same id is refused, until the id is handed out
/// again. Redeeming one id leaves every other id as it was.
pub proof fn lemma_single_redemption(outstanding: Set<u32>, id: u32, other: u32)
    ensures
        redeemed(issued(outstanding, id), id).1,
        !redeemed(redeemed(outstanding, id).0, id).1,
        other != id ==> redeemed(outstanding, id).0.contains(other) == outstanding.contains(other),
{
}

} // verus!
