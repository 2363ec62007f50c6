use vstd::prelude::*;

verus! {

/// A user's ledger record, as persisted in the user's derived account.
#[derive(Debug, PartialEq, Eq)]
pub struct VaultAccountState {
    /// False until the record's first write.
    pub is_initialized: bool,
    /// The vault that the record was last used with.
    pub vault_id: String,
    /// The external user that the record stands for; fixed at the first write.
    pub user_pubkey: String,
    /// The credited balance, in whole ledger units.
    pub amount: u32,
    /// Free-form status tag, overwritten by every deposit and withdrawal.
    pub fund_status: String,
    /// Free-form status tag, overwritten by every deposit and withdrawal.
    pub bot_status: String,
}

/// What a record holds, as mathematical values.
pub struct RecordView {
    pub is_initialized: bool,
    pub vault_id: Seq<char>,
    pub user_pubkey: Seq<char>,
    pub amount: u32,
    pub fund_status: Seq<char>,
    pub bot_status: Seq<char>,
}

impl View for VaultAccountState {
    type V = RecordView;

    open spec fn view(&self) -> RecordView {
        RecordView {
            is_initialized: self.is_initialized,
            vault_id: self.vault_id@,
            user_pubkey: self.user_pubkey@,
            amount: self.amount,
            fund_status: self.fund_status@,
            bot_status: self.bot_status@,
        }
    }
}

impl VaultAccountState {
    /// Whether the record has been written at least once.
    pub fn is_initialized(&self) -> (b: bool)
        ensures
            b == self@.is_initialized,
    {
        self.is_initialized
    }
}

impl Clone for VaultAccountState {
    fn clone(&self) -> (r: Self)
        ensures
            r@ == self@,
    {
        VaultAccountState {
            is_initialized: self.is_initialized,
            vault_id: self.vault_id.clone(),
            user_pubkey: self.user_pubkey.clone(),
            amount: self.amount,
            fund_status: self.fund_status.clone(),
            bot_status: self.bot_status.clone(),
        }
    }
}

} // verus!
