use vstd::prelude::*;

use crate::error::SettlementError;
use crate::ledger::{deposit_result, reserve_in, swap_result, withdrawal_result, AssetId, Pool};
use crate::notes::{
    build_note, built_note, consume_check, Digest, Entry, NoteBody, NoteBook, NoteState, Step,
};
use crate::routing::{routing_is_valid, routing_tag, Routing};

verus! {

/// The note through which the pool pays `amount` of `asset` to `recipient`, committed to
/// `recipient_commitment` and already broadcast.
pub open spec fn payout_entry(
    pool_account: u128,
    recipient: u128,
    asset: AssetId,
    amount: u64,
    recipient_commitment: Digest,
    serial_number: Digest,
) -> Entry {
    Entry {
        note: built_note(
            NoteBody::Withdrawal { asset, amount },
            pool_account,
            recipient_commitment,
            serial_number,
            Routing::Account { account_id: recipient },
            true,
        ),
        state: NoteState::Broadcast,
    }
}

/// Reserves after the pool consumes deposit note `id`, or why it cannot.
pub open spec fn deposit_settlement(
    reserves: Map<AssetId, u64>,
    allow_zero: bool,
    entries: Seq<Entry>,
    id: int,
    pool_account: u128,
) -> Result<Map<AssetId, u64>, SettlementError> {
    if id < 0 || id >= entries.len() {
        Err(SettlementError::UnknownNote)
    } else {
        let e = entries[id];
        match e.note.body {
            NoteBody::Deposit { asset, amount } => match consume_check(
                e.note,
                e.state,
                pool_account,
                false,
            ) {
                Ok(_) => deposit_result(reserves, allow_zero, asset, amount),
                Err(err) => Err(err),
            },
            _ => Err(SettlementError::WrongNoteKind),
        }
    }
}

/// Reserves and amount paid out after the pool consumes swap note `id`, or why it cannot.
pub open spec fn swap_settlement(
    reserves: Map<AssetId, u64>,
    entries: Seq<Entry>,
    id: int,
    pool_account: u128,
) -> Result<(Map<AssetId, u64>, u64), SettlementError> {
    if id < 0 || id >= entries.len() {
        Err(SettlementError::UnknownNote)
    } else {
        let e = entries[id];
        match e.note.body {
            NoteBody::Swap { asset_in, amount_in, asset_out, .. } => match consume_check(
                e.note,
                e.state,
                pool_account,
                false,
            ) {
                Ok(_) => if !routing_is_valid(Routing::Account { account_id: e.note.creator }) {
                    Err(SettlementError::InvalidTag)
                } else {
                    swap_result(reserves, asset_in, amount_in, asset_out)
                },
                Err(err) => Err(err),
            },
            _ => Err(SettlementError::WrongNoteKind),
        }
    }
}

/// Reserves after the pool pays `amount` of `asset` out to `recipient`, or why it cannot.
pub open spec fn payout_settlement(
    reserves: Map<AssetId, u64>,
    recipient: u128,
    asset: AssetId,
    amount: u64,
) -> Result<Map<AssetId, u64>, SettlementError> {
    if !routing_is_valid(Routing::Account { account_id: recipient }) {
        Err(SettlementError::InvalidTag)
    } else {
        withdrawal_result(reserves, asset, amount)
    }
}

/// The pool consumes deposit note `id` and credits its assets; returns the new reserve of
/// the deposited asset. The pool holds no key, so the note must not require authentication.
/// Either the note is consumed and the reserve credited, or nothing changes.
pub fn settle_deposit(pool: &mut Pool, book: &mut NoteBook, id: usize, pool_account: u128) -> (r:
    Result<u64, SettlementError>)
    ensures
        final(pool).allows_zero_deposits() == old(pool).allows_zero_deposits(),
        match deposit_settlement(
            old(pool).reserves(),
            old(pool).allows_zero_deposits(),
            old(book).entries(),
            id as int,
            pool_account,
        ) {
            Ok(m) => {
                let e = old(book).entries()[id as int];
                &&& r is Ok
                &&& r->Ok_0 == reserve_in(m, e.note.body->Deposit_asset)
                &&& final(pool).reserves() == m
                &&& final(book).entries() == old(book).entries().update(
                    id as int,
                    Entry { note: e.note, state: NoteState::Consumed },
                )
            },
            Err(err) => {
                &&& r == Err::<u64, SettlementError>(err)
                &&& final(pool).reserves() == old(pool).reserves()
                &&& final(book).entries() == old(book).entries()
            },
        },
{
    let note = match book.note(id) {
        Some(n) => n,
        None => return Err(SettlementError::UnknownNote),
    };
    let (asset, amount) = match note.body {
        NoteBody::Deposit { asset, amount } => (asset, amount),
        _ => return Err(SettlementError::WrongNoteKind),
    };
    match book.check_consume(id, pool_account, false) {
        Ok(_) => {},
        Err(e) => return Err(e),
    }
    let updated = match pool.apply_deposit(asset, amount) {
        Ok(v) => v,
        Err(e) => return Err(e),
    };
    let consumed = book.consume(id, pool_account, false);
    assert(consumed is Ok);
    Ok(updated)
}

/// The pool consumes swap note `id`: it prices the swap, moves both reserves, and
/// broadcasts a payout note to the swap's creator whose recipient commitment is the one the
/// swap committed to. Returns the amount paid out and the payout note's identifier.
/// Either all of this happens or nothing changes.
pub fn settle_swap(pool: &mut Pool, book: &mut NoteBook, id: usize, pool_account: u128) -> (r:
    Result<(u64, usize), SettlementError>)
    requires
        old(book).entries().len() < usize::MAX,
    ensures
        final(pool).allows_zero_deposits() == old(pool).allows_zero_deposits(),
        match swap_settlement(old(pool).reserves(), old(book).entries(), id as int, pool_account) {
            Ok((m, out)) => {
                let e = old(book).entries()[id as int];
                &&& r == Ok::<(u64, usize), SettlementError>((out, old(book).entries().len() as usize))
                &&& final(pool).reserves() == m
                &&& final(book).entries() == old(book).entries().update(
                    id as int,
                    Entry { note: e.note, state: NoteState::Consumed },
                ).push(
                    payout_entry(
                        pool_account,
                        e.note.creator,
                        e.note.body->Swap_asset_out,
                        out,
                        e.note.body->Swap_committed_output,
                        e.note.serial_number,
                    ),
                )
            },
            Err(err) => {
                &&& r == Err::<(u64, usize), SettlementError>(err)
                &&& final(pool).reserves() == old(pool).reserves()
                &&& final(book).entries() == old(book).entries()
            },
        },
{
    let note = match book.note(id) {
        Some(n) => n,
        None => return Err(SettlementError::UnknownNote),
    };
    let (asset_in, amount_in, asset_out, committed_output) = match note.body {
        NoteBody::Swap { asset_in, amount_in, asset_out, committed_output } => (
            asset_in,
            amount_in,
            asset_out,
            committed_output,
        ),
        _ => return Err(SettlementError::WrongNoteKind),
    };
    match book.check_consume(id, pool_account, false) {
        Ok(_) => {},
        Err(e) => return Err(e),
    }
    let recipient = Routing::Account { account_id: note.creator };
    // The payout's routing is checked before any reserve moves.
    match routing_tag(recipient) {
        Ok(_) => {},
        Err(e) => return Err(e),
    }
    let out = match pool.apply_swap(asset_in, amount_in, asset_out) {
        Ok(v) => v,
        Err(e) => return Err(e),
    };
    let consumed = book.consume(id, pool_account, false);
    assert(consumed is Ok);
    let payout = build_note(
        NoteBody::Withdrawal { asset: asset_out, amount: out },
        pool_account,
        committed_output,
        note.serial_number,
        recipient,
        true,
    );
    let payout = match payout {
        Ok(n) => n,
        Err(e) => return Err(e),
    };
    let payout_id = book.create(payout);
    let published = book.advance(payout_id, Step::Publish);
    assert(published is Ok);
    Ok((out, payout_id))
}

/// The pool pays `amount` of `asset` to `recipient` through a broadcast note committed to
/// `recipient_commitment`; returns the note's identifier. Either the reserve is debited and
/// the note broadcast, or nothing changes.
pub fn pay_out(
    pool: &mut Pool,
    book: &mut NoteBook,
    pool_account: u128,
    recipient: u128,
    asset: AssetId,
    amount: u64,
    recipient_commitment: Digest,
    serial_number: Digest,
) -> (r: Result<usize, SettlementError>)
    requires
        old(book).entries().len() < usize::MAX,
    ensures
        final(pool).allows_zero_deposits() == old(pool).allows_zero_deposits(),
        match payout_settlement(old(pool).reserves(), recipient, asset, amount) {
            Ok(m) => {
                &&& r == Ok::<usize, SettlementError>(old(book).entries().len() as usize)
                &&& final(pool).reserves() == m
                &&& final(book).entries() == old(book).entries().push(
                    payout_entry(
                        pool_account,
                        recipient,
                        asset,
                        amount,
                        recipient_commitment,
                        serial_number,
                    ),
                )
            },
            Err(err) => {
                &&& r == Err::<usize, SettlementError>(err)
                &&& final(pool).reserves() == old(pool).reserves()
                &&& final(book).entries() == old(book).entries()
            },
        },
{
    let note = match build_note(
        NoteBody::Withdrawal { asset, amount },
        pool_account,
        recipient_commitment,
        serial_number,
        Routing::Account { account_id: recipient },
        true,
    ) {
        Ok(n) => n,
        Err(e) => return Err(e),
    };
    match pool.apply_withdrawal(asset, amount) {
        Ok(_) => {},
        Err(e) => return Err(e),
    }
    let id = book.create(note);
    let published = book.advance(id, Step::Publish);
    assert(published is Ok);
    Ok(id)
}

} // verus!
