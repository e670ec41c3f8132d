use vstd::prelude::*;

verus! {

/// Commands related to staking operations.
#[derive(Debug, Clone, Copy, PartialEq, Eq, Structural)]
pub enum StakeCommand {
    Create,
    Delegate,
    Deactivate,
    Withdraw,
    Merge,
    Split,
    Show,
    History,
    GoBack,
}

impl StakeCommand {
    /// The spinner text of each command.
    pub open spec fn spinner_text(self) -> Seq<char> {
        match self {
            StakeCommand::Create => "Creating new stake account…"@,
            StakeCommand::Delegate => "Delegating stake to validator…"@,
            StakeCommand::Deactivate => "Deactivating stake (cooldown starting)…"@,
            StakeCommand::Withdraw => "Withdrawing SOL from deactivated stake…"@,
            StakeCommand::Merge => "Merging stake accounts…"@,
            StakeCommand::Split => "Splitting stake into multiple accounts…"@,
            StakeCommand::Show => "Fetching stake account details…"@,
            StakeCommand::History => "Fetching stake account history…"@,
            StakeCommand::GoBack => "Going back…"@,
        }
    }

    /// The menu label of each command.
    pub open spec fn label_text(self) -> Seq<char> {
        match self {
            StakeCommand::Create => "Create stake account"@,
            StakeCommand::Delegate => "Delegate stake"@,
            StakeCommand::Deactivate => "Deactivate stake"@,
            StakeCommand::Withdraw => "Withdraw stake"@,
            StakeCommand::Merge => "Merge stake accounts"@,
            StakeCommand::Split => "Split stake account"@,
            StakeCommand::Show => "Show stake"@,
            StakeCommand::History => "View stake history"@,
            StakeCommand::GoBack => "Go back"@,
        }
    }

    /// The commands of this group in the order in which a menu lists them.
    pub open spec fn menu_order() -> Seq<StakeCommand> {
        seq![
            StakeCommand::Create,
            StakeCommand::Delegate,
            StakeCommand::Deactivate,
            StakeCommand::Withdraw,
            StakeCommand::Merge,
            StakeCommand::Split,
            StakeCommand::Show,
            StakeCommand::History,
            StakeCommand::GoBack,
        ]
    }

    /// The text to show beside the spinner while the command runs.
    pub fn spinner_msg(&self) -> (r: &'static str)
        ensures
            r@ == self.spinner_text(),
    {
        match self {
            StakeCommand::Create => "Creating new stake account…",
            StakeCommand::Delegate => "Delegating stake to validator…",
            StakeCommand::Deactivate => "Deactivating stake (cooldown starting)…",
            StakeCommand::Withdraw => "Withdrawing SOL from deactivated stake…",
            StakeCommand::Merge => "Merging stake accounts…",
            StakeCommand::Split => "Splitting stake into multiple accounts…",
            StakeCommand::Show => "Fetching stake account details…",
            StakeCommand::History => "Fetching stake account history…",
            StakeCommand::GoBack => "Going back…",
        }
    }

    /// The text under which the command appears in a menu.
    pub fn label(&self) -> (r: &'static str)
        ensures
            r@ == self.label_text(),
    {
        match self {
            StakeCommand::Create => "Create stake account",
            StakeCommand::Delegate => "Delegate stake",
            StakeCommand::Deactivate => "Deactivate stake",
            StakeCommand::Withdraw => "Withdraw stake",
            StakeCommand::Merge => "Merge stake accounts",
            StakeCommand::Split => "Split stake account",
            StakeCommand::Show => "Show stake",
            StakeCommand::History => "View stake history",
            StakeCommand::GoBack => "Go back",
        }
    }

    /// Every command of the group, once, in menu order.
    pub fn menu() -> (r: Vec<StakeCommand>)
        ensures
            r@ == Self::menu_order(),
    {
        let mut items: Vec<StakeCommand> = Vec::new();
        items.push(StakeCommand::Create);
        items.push(StakeCommand::Delegate);
        items.push(StakeCommand::Deactivate);
        items.push(StakeCommand::Withdraw);
        items.push(StakeCommand::Merge);
        items.push(StakeCommand::Split);
        items.push(StakeCommand::Show);
        items.push(StakeCommand::History);
        items.push(StakeCommand::GoBack);
        assert(items@ =~= Self::menu_order());
        items
    }
}

/// Every command of the group stands in its menu.
pub proof fn law_stake_menu_complete(c: StakeCommand)
    ensures
        StakeCommand::menu_order().contains(c),
{
    let m = StakeCommand::menu_order();
    match c {
        StakeCommand::Create => {
            assert(m[0] == c);
        },
        StakeCommand::Delegate => {
            assert(m[1] == c);
        },
        StakeCommand::Deactivate => {
            assert(m[2] == c);
        },
        StakeCommand::Withdraw => {
            assert(m[3] == c);
        },
        StakeCommand::Merge => {
            assert(m[4] == c);
        },
        StakeCommand::Split => {
            assert(m[5] == c);
        },
        StakeCommand::Show => {
            assert(m[6] == c);
        },
        StakeCommand::History => {
            assert(m[7] == c);
        },
        StakeCommand::GoBack => {
            assert(m[8] == c);
        },
    }
}

} // verus!
