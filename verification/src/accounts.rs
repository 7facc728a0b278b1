//! Views of the accounts and instructions an operation is handed.
//!
//! An inbound operation carries a list of accounts, each with its address and
//! the privileges the transaction granted it, and runs inside a transaction
//! whose instruction list can be introspected. These types are the library's
//! plain-value views of that data; the host runtime's own account structures
//! are converted to them at the boundary.

use vstd::prelude::*;

use crate::pubkey::Pubkey;

verus! {

/// A supplied account: its address and granted privileges.
#[derive(Clone, Copy, Debug, PartialEq, Eq, Structural)]
pub struct AccountView {
    pub key: Pubkey,
    pub is_signer: bool,
    pub is_writable: bool,
}

/// An account a cross-program invocation must name, with the privileges the
/// callee requires of it.
#[derive(Clone, Copy, Debug, PartialEq, Eq, Structural)]
pub struct AccountMetaView {
    pub key: Pubkey,
    pub is_signer: bool,
    pub is_writable: bool,
}

/// One instruction: the program it targets, the accounts it names, and its
/// data bytes. Instructions of the enclosing transaction are introspected
/// through this same view.
#[derive(Clone, Debug)]
pub struct InstructionView {
    pub program_id: Pubkey,
    pub accounts: Vec<AccountMetaView>,
    pub data: Vec<u8>,
}

pub fn readonly_meta(key: Pubkey) -> (r: AccountMetaView)
    ensures
        r == (AccountMetaView { key, is_signer: false, is_writable: false }),
{
    AccountMetaView { key, is_signer: false, is_writable: false }
}

pub fn writable_meta(key: Pubkey) -> (r: AccountMetaView)
    ensures
        r == (AccountMetaView { key, is_signer: false, is_writable: true }),
{
    AccountMetaView { key, is_signer: false, is_writable: true }
}

pub fn signer_meta(key: Pubkey) -> (r: AccountMetaView)
    ensures
        r == (AccountMetaView { key, is_signer: true, is_writable: false }),
{
    AccountMetaView { key, is_signer: true, is_writable: false }
}

pub fn writable_signer_meta(key: Pubkey) -> (r: AccountMetaView)
    ensures
        r == (AccountMetaView { key, is_signer: true, is_writable: true }),
{
    AccountMetaView { key, is_signer: true, is_writable: true }
}

} // verus!
