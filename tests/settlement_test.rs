use miden_amm::error::SettlementError;
use miden_amm::ledger::Pool;
use miden_amm::notes::{build_note, Digest, NoteBody, NoteBook, NoteState, Step};
use miden_amm::routing::Routing;
use miden_amm::settlement::{pay_out, settle_deposit, settle_swap};

const ALICE: u128 = 0xaa00_0000_0000_bb00_0000_cc00_0000_dd00;
const POOL: u128 = 0xaa00_0000_0000_cc40_0000_bb00_0000_dd00;
const BAD_ACCOUNT: u128 = 0xaa00_0000_0000_00c0_0000_0000_0000_0000;
const A: u128 = 1;
const B: u128 = 2;

fn digest(n: u64) -> Digest {
    Digest { w0: n, w1: n, w2: n, w3: n }
}

fn visible_note(book: &mut NoteBook, body: NoteBody, creator: u128, authenticated: bool) -> usize {
    let note = build_note(
        body,
        creator,
        digest(0),
        digest(5),
        Routing::Account { account_id: POOL },
        authenticated,
    )
    .unwrap();
    let id = book.create(note);
    book.advance(id, Step::Publish).unwrap();
    book.advance(id, Step::Reveal).unwrap();
    id
}

fn funded_pool(book: &mut NoteBook) -> Pool {
    let mut pool = Pool::new(false);
    let a = visible_note(book, NoteBody::Deposit { asset: A, amount: 1000 }, ALICE, false);
    let b = visible_note(book, NoteBody::Deposit { asset: B, amount: 2000 }, ALICE, false);
    assert_eq!(settle_deposit(&mut pool, book, a, POOL), Ok(1000));
    assert_eq!(settle_deposit(&mut pool, book, b, POOL), Ok(2000));
    pool
}

#[test]
fn deposit_note_credits_pool_once() {
    let mut book = NoteBook::new();
    let mut pool = Pool::new(false);
    let id = visible_note(&mut book, NoteBody::Deposit { asset: A, amount: 300 }, ALICE, false);
    assert_eq!(settle_deposit(&mut pool, &mut book, id, POOL), Ok(300));
    assert_eq!(book.state(id), Some(NoteState::Consumed));
    assert_eq!(
        settle_deposit(&mut pool, &mut book, id, POOL),
        Err(SettlementError::NoteAlreadyConsumed)
    );
    assert_eq!(pool.reserve(A), 300);
}

#[test]
fn refused_deposit_leaves_note_consumable() {
    let mut book = NoteBook::new();
    let mut pool = Pool::new(false);
    let id = visible_note(&mut book, NoteBody::Deposit { asset: A, amount: 0 }, ALICE, false);
    assert_eq!(settle_deposit(&mut pool, &mut book, id, POOL), Err(SettlementError::InvalidAmount));
    assert_eq!(book.state(id), Some(NoteState::Consumable));
    assert_eq!(pool.reserve(A), 0);
}

#[test]
fn deposit_settlement_checks_kind_and_authentication() {
    let mut book = NoteBook::new();
    let mut pool = Pool::new(false);
    let swap = visible_note(
        &mut book,
        NoteBody::Swap { asset_in: A, amount_in: 1, asset_out: B, committed_output: digest(1) },
        ALICE,
        false,
    );
    assert_eq!(settle_deposit(&mut pool, &mut book, swap, POOL), Err(SettlementError::WrongNoteKind));
    let signed = visible_note(&mut book, NoteBody::Deposit { asset: A, amount: 5 }, ALICE, true);
    assert_eq!(
        settle_deposit(&mut pool, &mut book, signed, POOL),
        Err(SettlementError::AuthenticationFailure)
    );
    assert_eq!(settle_deposit(&mut pool, &mut book, 99, POOL), Err(SettlementError::UnknownNote));
}

#[test]
fn swap_note_pays_out_through_committed_note() {
    let mut book = NoteBook::new();
    let mut pool = funded_pool(&mut book);
    let commitment = digest(42);
    let id = visible_note(
        &mut book,
        NoteBody::Swap { asset_in: A, amount_in: 100, asset_out: B, committed_output: commitment },
        ALICE,
        false,
    );
    let before = book.len();
    let (out, payout_id) = settle_swap(&mut pool, &mut book, id, POOL).unwrap();
    assert_eq!(out, 95);
    assert_eq!(payout_id, before);
    assert_eq!(pool.reserve(A), 1100);
    assert_eq!(pool.reserve(B), 1905);
    assert_eq!(book.state(id), Some(NoteState::Consumed));
    assert_eq!(book.state(payout_id), Some(NoteState::Broadcast));
    let payout = book.note(payout_id).unwrap();
    assert_eq!(payout.body, NoteBody::Withdrawal { asset: B, amount: 95 });
    assert_eq!(payout.recipient_commitment, commitment);
    assert_eq!(payout.target, Some(ALICE));
    assert_eq!(payout.creator, POOL);
    assert_eq!(payout.tag, 0xea80_0000);
    assert!(payout.authenticated);
    assert_eq!(
        settle_swap(&mut pool, &mut book, id, POOL),
        Err(SettlementError::NoteAlreadyConsumed)
    );
}

#[test]
fn swap_to_unroutable_creator_changes_nothing() {
    let mut book = NoteBook::new();
    let mut pool = funded_pool(&mut book);
    let id = visible_note(
        &mut book,
        NoteBody::Swap { asset_in: A, amount_in: 100, asset_out: B, committed_output: digest(1) },
        BAD_ACCOUNT,
        false,
    );
    let before = book.len();
    assert_eq!(settle_swap(&mut pool, &mut book, id, POOL), Err(SettlementError::InvalidTag));
    assert_eq!(book.len(), before);
    assert_eq!(book.state(id), Some(NoteState::Consumable));
    assert_eq!(pool.reserve(A), 1000);
    assert_eq!(pool.reserve(B), 2000);
}

#[test]
fn refused_swap_leaves_note_consumable() {
    let mut book = NoteBook::new();
    let mut pool = funded_pool(&mut book);
    let id = visible_note(
        &mut book,
        NoteBody::Swap { asset_in: A, amount_in: 100, asset_out: A, committed_output: digest(1) },
        ALICE,
        false,
    );
    assert_eq!(settle_swap(&mut pool, &mut book, id, POOL), Err(SettlementError::InvalidAmount));
    assert_eq!(book.state(id), Some(NoteState::Consumable));
    assert_eq!(pool.reserve(A), 1000);
}

#[test]
fn pay_out_debits_pool_and_broadcasts_note() {
    let mut book = NoteBook::new();
    let mut pool = funded_pool(&mut book);
    let before = book.len();
    let id = pay_out(&mut pool, &mut book, POOL, ALICE, A, 400, digest(7), digest(8)).unwrap();
    assert_eq!(id, before);
    assert_eq!(pool.reserve(A), 600);
    assert_eq!(book.state(id), Some(NoteState::Broadcast));
    let note = book.note(id).unwrap();
    assert_eq!(note.body, NoteBody::Withdrawal { asset: A, amount: 400 });
    assert_eq!(note.recipient_commitment, digest(7));
    assert_eq!(note.serial_number, digest(8));
    assert_eq!(
        pay_out(&mut pool, &mut book, POOL, ALICE, A, 601, digest(7), digest(8)),
        Err(SettlementError::InsufficientLiquidity)
    );
    assert_eq!(book.len(), before + 1);
    assert_eq!(pool.reserve(A), 600);
}
