use miden_objects::account::AccountId;
use miden_objects::note::NoteTag;
use miden_objects::{AccountIdError, NoteError};
use vstd::prelude::*;

use crate::error::SettlementError;

verus! {

#[verifier::external_type_specification]
#[verifier::external_body]
pub struct ExNoteError(NoteError);

#[verifier::external_type_specification]
#[verifier::external_body]
pub struct ExAccountIdError(AccountIdError);

/// Whether a 128-bit value is a well-formed account identifier (version, type, storage mode
/// and field-element constraints all met).
pub uninterp spec fn is_valid_account_id(id: u128) -> bool;

/// Use-case identifiers occupy 14 bits of a tag.
pub const USE_CASE_LIMIT: u16 = 16384;

/// Tags whose top bit is clear hint that the network should consume the note.
pub const LOCAL_EXECUTION_BIT: u32 = 0x8000_0000;

/// The local use-case tag: prefix `0b11`, then the use case, then the payload.
pub open spec fn use_case_tag_bits(use_case_id: u16, payload: u16) -> u32 {
    (0xc000_0000 + use_case_id * 0x1_0000 + payload) as u32
}

/// The high 64 bits of an account identifier.
pub open spec fn account_prefix(id: u128) -> int {
    id as int / 0x1_0000_0000_0000_0000
}

/// Whether the account's storage mode (prefix bits 6 and 7) marks a network account.
pub open spec fn is_network_account(id: u128) -> bool {
    (account_prefix(id) / 64) % 4 == 1
}

/// The tag that targets an account: the top 30 prefix bits for a network account, and
/// otherwise prefix `0b11` followed by the top 14 prefix bits and 16 zero bits.
pub open spec fn account_tag_bits(id: u128) -> u32 {
    if is_network_account(id) {
        (account_prefix(id) / 0x4_0000_0000) as u32
    } else {
        (0xc000_0000 + (account_prefix(id) / 0x4_0000_0000_0000) * 0x1_0000) as u32
    }
}

/// Whether a tag asks for execution by the network rather than by a local consumer.
pub open spec fn is_network_tag(tag: u32) -> bool {
    tag < LOCAL_EXECUTION_BIT
}

/// Relies on `NoteTag::for_local_use_case`: it refuses use cases of 14 bits or more and
/// otherwise lays out `0b11 | use case | payload`, which `as_u32` returns unchanged.
#[verifier::external_body]
fn local_use_case_tag(use_case_id: u16, payload: u16) -> (r: Result<u32, NoteError>)
    ensures
        r is Ok <==> use_case_id < USE_CASE_LIMIT,
        r is Ok ==> r->Ok_0 == use_case_tag_bits(use_case_id, payload),
{
    NoteTag::for_local_use_case(use_case_id, payload).map(u32::from)
}

/// Relies on `AccountId::try_from(u128)` to validate the identifier and on
/// `NoteTag::from_account_id` for the tag that targets it.
#[verifier::external_body]
fn account_target_tag(account_id: u128) -> (r: Result<u32, AccountIdError>)
    ensures
        r is Ok <==> is_valid_account_id(account_id),
        r is Ok ==> r->Ok_0 == account_tag_bits(account_id),
{
    let account = AccountId::try_from(account_id)?;
    Ok(u32::from(NoteTag::from_account_id(account)))
}

/// How a note finds its consumer.
#[derive(Clone, Copy, Debug, PartialEq, Eq, Structural)]
pub enum Routing {
    /// Free for all: any consumer watching this use case may take the note.
    UseCase { use_case_id: u16, payload: u16 },
    /// Directed at one account; for a network account the network consumes it on its own.
    Account { account_id: u128 },
}

/// Whether a tag can be formed for the routing.
pub open spec fn routing_is_valid(routing: Routing) -> bool {
    match routing {
        Routing::UseCase { use_case_id, .. } => use_case_id < USE_CASE_LIMIT,
        Routing::Account { account_id } => is_valid_account_id(account_id),
    }
}

/// The tag of a routing that can be formed.
pub open spec fn routing_tag_bits(routing: Routing) -> u32 {
    match routing {
        Routing::UseCase { use_case_id, payload } => use_case_tag_bits(use_case_id, payload),
        Routing::Account { account_id } => account_tag_bits(account_id),
    }
}

/// The tag that carries a note along `routing`; `InvalidTag` when none can be formed.
pub fn routing_tag(routing: Routing) -> (r: Result<u32, SettlementError>)
    ensures
        r is Ok <==> routing_is_valid(routing),
        r is Ok ==> r->Ok_0 == routing_tag_bits(routing),
        r is Err ==> r->Err_0 == SettlementError::InvalidTag,
{
    match routing {
        Routing::UseCase { use_case_id, payload } => match local_use_case_tag(use_case_id, payload) {
            Ok(tag) => Ok(tag),
            Err(_) => Err(SettlementError::InvalidTag),
        },
        Routing::Account { account_id } => match account_target_tag(account_id) {
            Ok(tag) => Ok(tag),
            Err(_) => Err(SettlementError::InvalidTag),
        },
    }
}

/// Whether the network, rather than a local consumer, is meant to consume a note with `tag`.
pub fn network_executes(tag: u32) -> (r: bool)
    ensures
        r == is_network_tag(tag),
{
    tag < LOCAL_EXECUTION_BIT
}

} // verus!
