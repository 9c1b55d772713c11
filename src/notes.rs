use vstd::prelude::*;

use crate::error::SettlementError;
use crate::ledger::AssetId;
use crate::routing::{routing_is_valid, routing_tag, routing_tag_bits, Routing};

verus! {

/// A four-word digest: a recipient commitment or a serial number.
#[derive(Clone, Copy, Debug, PartialEq, Eq, Structural)]
pub struct Digest {
    pub w0: u64,
    pub w1: u64,
    pub w2: u64,
    pub w3: u64,
}

/// What a note asks for, each kind with its own fixed fields.
#[derive(Clone, Copy, Debug, PartialEq, Eq, Structural)]
pub enum NoteBody {
    /// Moves `amount` of `asset` into the pool.
    Deposit { asset: AssetId, amount: u64 },
    /// Trades `amount_in` of `asset_in` for `asset_out`; the pool pays out through a note
    /// whose recipient commitment is `committed_output`.
    Swap { asset_in: AssetId, amount_in: u64, asset_out: AssetId, committed_output: Digest },
    /// Pays `amount` of `asset` to the note's target account.
    Withdrawal { asset: AssetId, amount: u64 },
}

/// An immutable transfer message.
#[derive(Clone, Copy, Debug, PartialEq, Eq, Structural)]
pub struct Note {
    pub body: NoteBody,
    pub creator: u128,
    pub recipient_commitment: Digest,
    pub serial_number: Digest,
    pub tag: u32,
    /// The account the note is directed at, if any.
    pub target: Option<u128>,
    /// Whether consuming it needs proof of ownership of the consuming account.
    pub authenticated: bool,
}

/// The assets a note carries, in order.
pub open spec fn note_assets(body: NoteBody) -> Seq<(AssetId, u64)> {
    match body {
        NoteBody::Deposit { asset, amount } => seq![(asset, amount)],
        NoteBody::Swap { asset_in, amount_in, .. } => seq![(asset_in, amount_in)],
        NoteBody::Withdrawal { asset, amount } => seq![(asset, amount)],
    }
}

/// The account a routing directs a note at.
pub open spec fn routing_target(routing: Routing) -> Option<u128> {
    match routing {
        Routing::UseCase { .. } => None,
        Routing::Account { account_id } => Some(account_id),
    }
}

/// The note built from these parts along a routing that can be formed.
pub open spec fn built_note(
    body: NoteBody,
    creator: u128,
    recipient_commitment: Digest,
    serial_number: Digest,
    routing: Routing,
    authenticated: bool,
) -> Note {
    Note {
        body,
        creator,
        recipient_commitment,
        serial_number,
        tag: routing_tag_bits(routing),
        target: routing_target(routing),
        authenticated,
    }
}

/// Builds a note; fails with `InvalidTag` when no tag can be formed for `routing`.
pub fn build_note(
    body: NoteBody,
    creator: u128,
    recipient_commitment: Digest,
    serial_number: Digest,
    routing: Routing,
    authenticated: bool,
) -> (r: Result<Note, SettlementError>)
    ensures
        r is Ok <==> routing_is_valid(routing),
        r is Ok ==> r->Ok_0 == built_note(
            body,
            creator,
            recipient_commitment,
            serial_number,
            routing,
            authenticated,
        ),
        r is Err ==> r->Err_0 == SettlementError::InvalidTag,
{
    let tag = match routing_tag(routing) {
        Ok(t) => t,
        Err(e) => return Err(e),
    };
    let target = match routing {
        Routing::UseCase { .. } => None,
        Routing::Account { account_id } => Some(account_id),
    };
    Ok(Note { body, creator, recipient_commitment, serial_number, tag, target, authenticated })
}

impl Note {
    /// The assets the note carries, in order.
    pub fn assets(&self) -> (r: Vec<(AssetId, u64)>)
        ensures
            r@ == note_assets(self.body),
    {
        match self.body {
            NoteBody::Deposit { asset, amount } => vec![(asset, amount)],
            NoteBody::Swap { asset_in, amount_in, .. } => vec![(asset_in, amount_in)],
            NoteBody::Withdrawal { asset, amount } => vec![(asset, amount)],
        }
    }
}

/// Where a note stands in its lifecycle.
#[derive(Clone, Copy, Debug, PartialEq, Eq, Structural)]
pub enum NoteState {
    Created,
    Broadcast,
    Consumable,
    Consumed,
    Expired,
}

/// A lifecycle step other than consumption.
#[derive(Clone, Copy, Debug, PartialEq, Eq, Structural)]
pub enum Step {
    /// Created to Broadcast: the producer publishes the note.
    Publish,
    /// Broadcast to Consumable: the note becomes visible to matching consumers.
    Reveal,
    /// Consumable to Expired: the note was never consumed.
    Expire,
}

/// The state a step leads to, or `InvalidTransition`.
pub open spec fn step_result(state: NoteState, step: Step) -> Result<NoteState, SettlementError> {
    match (state, step) {
        (NoteState::Created, Step::Publish) => Ok(NoteState::Broadcast),
        (NoteState::Broadcast, Step::Reveal) => Ok(NoteState::Consumable),
        (NoteState::Consumable, Step::Expire) => Ok(NoteState::Expired),
        _ => Err(SettlementError::InvalidTransition),
    }
}

/// Whether `consumer`, with or without proof of ownership, may consume `note`.
pub open spec fn consumer_authorized(note: Note, consumer: u128, proves_ownership: bool) -> bool {
    !note.authenticated || (proves_ownership && match note.target {
        Some(t) => t == consumer,
        None => true,
    })
}

/// Whether a note in `state` may be consumed by `consumer`, or why not.
pub open spec fn consume_check(
    note: Note,
    state: NoteState,
    consumer: u128,
    proves_ownership: bool,
) -> Result<(), SettlementError> {
    match state {
        NoteState::Consumed => Err(SettlementError::NoteAlreadyConsumed),
        NoteState::Expired => Err(SettlementError::NoteExpired),
        NoteState::Consumable => if consumer_authorized(note, consumer, proves_ownership) {
            Ok(())
        } else {
            Err(SettlementError::AuthenticationFailure)
        },
        _ => Err(SettlementError::InvalidTransition),
    }
}

/// Of two attempts to consume one note, at most one succeeds: once a consumption has
/// succeeded, every further attempt fails with `NoteAlreadyConsumed`.
pub proof fn lemma_at_most_once(
    note: Note,
    state: NoteState,
    first: u128,
    first_proves: bool,
    second: u128,
    second_proves: bool,
)
    requires
        consume_check(note, state, first, first_proves) is Ok,
    ensures
        consume_check(note, NoteState::Consumed, second, second_proves) == Err::<(), SettlementError>(
            SettlementError::NoteAlreadyConsumed,
        ),
{
}

/// A note together with where it stands.
#[derive(Clone, Copy, Debug, PartialEq, Eq, Structural)]
pub struct Entry {
    pub note: Note,
    pub state: NoteState,
}

/// The shared record of every note and its lifecycle state; a note's identifier is its
/// position here.
pub struct NoteBook {
    entries: Vec<Entry>,
}

impl NoteBook {
    /// Every note created so far, with its state, by identifier.
    pub closed spec fn entries(&self) -> Seq<Entry> {
        self.entries@
    }

    /// An empty book.
    pub fn new() -> (b: NoteBook)
        ensures
            b.entries() == Seq::<Entry>::empty(),
    {
        NoteBook { entries: Vec::new() }
    }

    /// How many notes were ever created.
    pub fn len(&self) -> (r: usize)
        ensures
            r == self.entries().len(),
    {
        self.entries.len()
    }

    /// The note with identifier `id`, if there is one.
    pub fn note(&self, id: usize) -> (r: Option<Note>)
        ensures
            id < self.entries().len() ==> r == Some(self.entries()[id as int].note),
            id >= self.entries().len() ==> r is None,
    {
        if id < self.entries.len() {
            Some(self.entries[id].note)
        } else {
            None
        }
    }

    /// The state of note `id`, if there is one.
    pub fn state(&self, id: usize) -> (r: Option<NoteState>)
        ensures
            id < self.entries().len() ==> r == Some(self.entries()[id as int].state),
            id >= self.entries().len() ==> r is None,
    {
        if id < self.entries.len() {
            Some(self.entries[id].state)
        } else {
            None
        }
    }

    /// Records a newly built note in state `Created` and returns its identifier.
    pub fn create(&mut self, note: Note) -> (id: usize)
        ensures
            id == old(self).entries().len(),
            final(self).entries() == old(self).entries().push(
                (Entry { note, state: NoteState::Created }),
            ),
    {
        let id = self.entries.len();
        self.entries.push(Entry { note, state: NoteState::Created });
        id
    }

    /// Moves note `id` one step along its lifecycle and returns its new state.
    /// Nothing changes when it fails.
    pub fn advance(&mut self, id: usize, step: Step) -> (r: Result<NoteState, SettlementError>)
        ensures
            id >= old(self).entries().len() ==> r == Err::<NoteState, SettlementError>(
                SettlementError::UnknownNote,
            ) && final(self).entries() == old(self).entries(),
            id < old(self).entries().len() ==> {
                let e = old(self).entries()[id as int];
                match step_result(e.state, step) {
                    Ok(s) => r == Ok::<NoteState, SettlementError>(s) && final(self).entries()
                        == old(self).entries().update(id as int, Entry { note: e.note, state: s }),
                    Err(err) => r == Err::<NoteState, SettlementError>(err)
                        && final(self).entries() == old(self).entries(),
                }
            },
    {
        if id >= self.entries.len() {
            return Err(SettlementError::UnknownNote);
        }
        let e = self.entries[id];
        let next = match (e.state, step) {
            (NoteState::Created, Step::Publish) => NoteState::Broadcast,
            (NoteState::Broadcast, Step::Reveal) => NoteState::Consumable,
            (NoteState::Consumable, Step::Expire) => NoteState::Expired,
            _ => return Err(SettlementError::InvalidTransition),
        };
        self.entries.set(id, Entry { note: e.note, state: next });
        Ok(next)
    }

    /// Whether note `id` may be consumed now by `consumer`, or why not; changes nothing.
    pub fn check_consume(&self, id: usize, consumer: u128, proves_ownership: bool) -> (r: Result<
        (),
        SettlementError,
    >)
        ensures
            id >= self.entries().len() ==> r == Err::<(), SettlementError>(
                SettlementError::UnknownNote,
            ),
            id < self.entries().len() ==> r == consume_check(
                self.entries()[id as int].note,
                self.entries()[id as int].state,
                consumer,
                proves_ownership,
            ),
    {
        if id >= self.entries.len() {
            return Err(SettlementError::UnknownNote);
        }
        let e = self.entries[id];
        match e.state {
            NoteState::Consumed => Err(SettlementError::NoteAlreadyConsumed),
            NoteState::Expired => Err(SettlementError::NoteExpired),
            NoteState::Consumable => {
                let authorized = !e.note.authenticated || (proves_ownership && match e.note.target {
                    Some(t) => t == consumer,
                    None => true,
                });
                if authorized {
                    Ok(())
                } else {
                    Err(SettlementError::AuthenticationFailure)
                }
            },
            _ => Err(SettlementError::InvalidTransition),
        }
    }

    /// Consumes note `id` on behalf of `consumer` and returns the note. At most one
    /// consumption of a note ever succeeds; nothing changes when it fails.
    pub fn consume(&mut self, id: usize, consumer: u128, proves_ownership: bool) -> (r: Result<
        Note,
        SettlementError,
    >)
        ensures
            id >= old(self).entries().len() ==> r == Err::<Note, SettlementError>(
                SettlementError::UnknownNote,
            ) && final(self).entries() == old(self).entries(),
            id < old(self).entries().len() ==> {
                let e = old(self).entries()[id as int];
                match consume_check(e.note, e.state, consumer, proves_ownership) {
                    Ok(_) => r == Ok::<Note, SettlementError>(e.note) && final(self).entries()
                        == old(self).entries().update(
                        id as int,
                        Entry { note: e.note, state: NoteState::Consumed },
                    ),
                    Err(err) => r == Err::<Note, SettlementError>(err) && final(self).entries()
                        == old(self).entries(),
                }
            },
    {
        match self.check_consume(id, consumer, proves_ownership) {
            Ok(_) => {},
            Err(e) => return Err(e),
        }
        let e = self.entries[id];
        self.entries.set(id, Entry { note: e.note, state: NoteState::Consumed });
        Ok(e.note)
    }
}

} // verus!
