use vstd::prelude::*;

verus! {

/// Commands that inspect or send transactions.
#[derive(Debug, Clone, Copy, PartialEq, Eq, Structural)]
pub enum TransactionCommand {
    CheckConfirmation,
    FetchStatus,
    FetchTransaction,
    SendTransaction,
}

impl TransactionCommand {
    /// The spinner text of each command.
    pub open spec fn spinner_text(self) -> Seq<char> {
        match self {
            TransactionCommand::CheckConfirmation => "Checking transaction confirmation…"@,
            TransactionCommand::FetchStatus => "Fetching transaction status…"@,
            TransactionCommand::FetchTransaction => "Fetching full transaction data…"@,
            TransactionCommand::SendTransaction => "Sending transaction…"@,
        }
    }

    /// The menu label of each command.
    pub open spec fn label_text(self) -> Seq<char> {
        match self {
            TransactionCommand::CheckConfirmation => "Check Transaction Confirmation"@,
            TransactionCommand::FetchStatus => "Fetch Transaction Status"@,
            TransactionCommand::FetchTransaction => "Fetch Transaction"@,
            TransactionCommand::SendTransaction => "Send Transaction"@,
        }
    }

    /// The commands of this group in the order in which a menu lists them.
    pub open spec fn menu_order() -> Seq<TransactionCommand> {
        seq![
            TransactionCommand::CheckConfirmation,
            TransactionCommand::FetchStatus,
            TransactionCommand::FetchTransaction,
            TransactionCommand::SendTransaction,
        ]
    }

    /// The text to show beside the spinner while the command runs.
    pub fn spinner_msg(&self) -> (r: &'static str)
        ensures
            r@ == self.spinner_text(),
    {
        match self {
            TransactionCommand::CheckConfirmation => "Checking transaction confirmation…",
            TransactionCommand::FetchStatus => "Fetching transaction status…",
            TransactionCommand::FetchTransaction => "Fetching full transaction data…",
            TransactionCommand::SendTransaction => "Sending transaction…",
        }
    }

    /// The text under which the command appears in a menu.
    pub fn label(&self) -> (r: &'static str)
        ensures
            r@ == self.label_text(),
    {
        match self {
            TransactionCommand::CheckConfirmation => "Check Transaction Confirmation",
            TransactionCommand::FetchStatus => "Fetch Transaction Status",
            TransactionCommand::FetchTransaction => "Fetch Transaction",
            TransactionCommand::SendTransaction => "Send Transaction",
        }
    }

    /// Every command of the group, once, in menu order.
    pub fn menu() -> (r: Vec<TransactionCommand>)
        ensures
            r@ == Self::menu_order(),
    {
        let mut items: Vec<TransactionCommand> = Vec::new();
        items.push(TransactionCommand::CheckConfirmation);
        items.push(TransactionCommand::FetchStatus);
        items.push(TransactionCommand::FetchTransaction);
        items.push(TransactionCommand::SendTransaction);
        assert(items@ =~= Self::menu_order());
        items
    }
}

/// Every command of the group stands in its menu.
pub proof fn law_transaction_menu_complete(c: TransactionCommand)
    ensures
        TransactionCommand::menu_order().contains(c),
{
    let m = TransactionCommand::menu_order();
    match c {
        TransactionCommand::CheckConfirmation => {
            assert(m[0] == c);
        },
        TransactionCommand::FetchStatus => {
            assert(m[1] == c);
        },
        TransactionCommand::FetchTransaction => {
            assert(m[2] == c);
        },
        TransactionCommand::SendTransaction => {
            assert(m[3] == c);
        },
    }
}

} // verus!
