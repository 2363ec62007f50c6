use vstd::prelude::*;

verus! {

/// An operation with its arguments, as decoded from an instruction's payload.
#[derive(Clone, Debug, PartialEq, Eq)]
pub enum VaultInstruction {
    InitializeVault { vault_id: String },
    Deposit {
        vault_id: String,
        user_pubkey: String,
        amount: u32,
        fund_status: String,
        bot_status: String,
    },
    Withdraw {
        vault_id: String,
        user_pubkey: String,
        amount: u32,
        fund_status: String,
        bot_status: String,
    },
}

/// An operation with its arguments, as mathematical values.
pub enum InstructionView {
    InitializeVault { vault_id: Seq<char> },
    Deposit {
        vault_id: Seq<char>,
        user_pubkey: Seq<char>,
        amount: u32,
        fund_status: Seq<char>,
        bot_status: Seq<char>,
    },
    Withdraw {
        vault_id: Seq<char>,
        user_pubkey: Seq<char>,
        amount: u32,
        fund_status: Seq<char>,
        bot_status: Seq<char>,
    },
}

impl View for VaultInstruction {
    type V = InstructionView;

    open spec fn view(&self) -> InstructionView {
        match self {
            VaultInstruction::InitializeVault { vault_id } => InstructionView::InitializeVault {
                vault_id: vault_id@,
            },
            VaultInstruction::Deposit {
                vault_id,
                user_pubkey,
                amount,
                fund_status,
                bot_status,
            } => InstructionView::Deposit {
                vault_id: vault_id@,
                user_pubkey: user_pubkey@,
                amount: *amount,
                fund_status: fund_status@,
                bot_status: bot_status@,
            },
            VaultInstruction::Withdraw {
                vault_id,
                user_pubkey,
                amount,
                fund_status,
                bot_status,
            } => InstructionView::Withdraw {
                vault_id: vault_id@,
                user_pubkey: user_pubkey@,
                amount: *amount,
                fund_status: fund_status@,
                bot_status: bot_status@,
            },
        }
    }
}

} // verus!
