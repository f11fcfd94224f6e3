use vstd::prelude::*;
use crate::pubkey::Pubkey;

verus! {

/// Everything this engine reads of one account handed over by the host: its
/// address, the program that owns its storage, its balance, its record bytes,
/// and whether the host confirmed its signature for the current call.
pub struct AccountInfo {
    /// Address of the account.
    pub key: Pubkey,
    /// Program that owns the account's storage.
    pub owner: Pubkey,
    /// Balance of the account, in the host's native unit.
    pub lamports: u64,
    /// Record bytes stored in the account.
    pub data: Vec<u8>,
    /// True iff the host confirmed that this account signed the call.
    pub is_signer: bool,
}

/// Mathematical image of an [`AccountInfo`].
pub struct AccountInfoView {
    pub key: Seq<u8>,
    pub owner: Seq<u8>,
    pub lamports: u64,
    pub data: Seq<u8>,
    pub is_signer: bool,
}

impl View for AccountInfo {
    type V = AccountInfoView;

    open spec fn view(&self) -> AccountInfoView {
        AccountInfoView {
            key: self.key@,
            owner: self.owner@,
            lamports: self.lamports,
            data: self.data@,
            is_signer: self.is_signer,
        }
    }
}

impl DeepView for AccountInfo {
    type V = AccountInfoView;

    open spec fn deep_view(&self) -> AccountInfoView {
        self@
    }
}

} // verus!
