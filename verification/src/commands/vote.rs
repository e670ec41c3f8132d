use vstd::prelude::*;

verus! {

/// Commands related to validator and vote account operations.
#[derive(Debug, Clone, Copy, PartialEq, Eq, Structural)]
pub enum VoteCommand {
    CreateVoteAccount,
    AuthorizeVoter,
    WithdrawFromVoteAccount,
    ShowVoteAccount,
    CloseVoteAccount,
    GoBack,
}

impl VoteCommand {
    /// The spinner text of each command.
    pub open spec fn spinner_text(self) -> Seq<char> {
        match self {
            VoteCommand::CreateVoteAccount => "Creating vote account…"@,
            VoteCommand::AuthorizeVoter => "Authorizing voter…"@,
            VoteCommand::WithdrawFromVoteAccount => "Withdrawing SOL from vote account…"@,
            VoteCommand::ShowVoteAccount => "Fetching vote account details…"@,
            VoteCommand::CloseVoteAccount => "Closing vote account…"@,
            VoteCommand::GoBack => "Going back…"@,
        }
    }

    /// The menu label of each command.
    pub open spec fn label_text(self) -> Seq<char> {
        match self {
            VoteCommand::CreateVoteAccount => "Create vote account"@,
            VoteCommand::AuthorizeVoter => "Authorize voter"@,
            VoteCommand::WithdrawFromVoteAccount => "Withdraw from vote account"@,
            VoteCommand::ShowVoteAccount => "Show vote account"@,
            VoteCommand::CloseVoteAccount => "Close vote account"@,
            VoteCommand::GoBack => "Go back"@,
        }
    }

    /// The commands of this group in the order in which a menu lists them.
    pub open spec fn menu_order() -> Seq<VoteCommand> {
        seq![
            VoteCommand::CreateVoteAccount,
            VoteCommand::AuthorizeVoter,
            VoteCommand::WithdrawFromVoteAccount,
            VoteCommand::ShowVoteAccount,
            VoteCommand::CloseVoteAccount,
            VoteCommand::GoBack,
        ]
    }

    /// The text to show beside the spinner while the command runs.
    pub fn spinner_msg(&self) -> (r: &'static str)
        ensures
            r@ == self.spinner_text(),
    {
        match self {
            VoteCommand::CreateVoteAccount => "Creating vote account…",
            VoteCommand::AuthorizeVoter => "Authorizing voter…",
            VoteCommand::WithdrawFromVoteAccount => "Withdrawing SOL from vote account…",
            VoteCommand::ShowVoteAccount => "Fetching vote account details…",
            VoteCommand::CloseVoteAccount => "Closing vote account…",
            VoteCommand::GoBack => "Going back…",
        }
    }

    /// The text under which the command appears in a menu.
    pub fn label(&self) -> (r: &'static str)
        ensures
            r@ == self.label_text(),
    {
        match self {
            VoteCommand::CreateVoteAccount => "Create vote account",
            VoteCommand::AuthorizeVoter => "Authorize voter",
            VoteCommand::WithdrawFromVoteAccount => "Withdraw from vote account",
            VoteCommand::ShowVoteAccount => "Show vote account",
            VoteCommand::CloseVoteAccount => "Close vote account",
            VoteCommand::GoBack => "Go back",
        }
    }

    /// Every command of the group, once, in menu order.
    pub fn menu() -> (r: Vec<VoteCommand>)
        ensures
            r@ == Self::menu_order(),
    {
        let mut items: Vec<VoteCommand> = Vec::new();
        items.push(VoteCommand::CreateVoteAccount);
        items.push(VoteCommand::AuthorizeVoter);
        items.push(VoteCommand::WithdrawFromVoteAccount);
        items.push(VoteCommand::ShowVoteAccount);
        items.push(VoteCommand::CloseVoteAccount);
        items.push(VoteCommand::GoBack);
        assert(items@ =~= Self::menu_order());
        items
    }
}

/// Every command of the group stands in its menu.
pub proof fn law_vote_menu_complete(c: VoteCommand)
    ensures
        VoteCommand::menu_order().contains(c),
{
    let m = VoteCommand::menu_order();
    match c {
        VoteCommand::CreateVoteAccount => {
            assert(m[0] == c);
        },
        VoteCommand::AuthorizeVoter => {
            assert(m[1] == c);
        },
        VoteCommand::WithdrawFromVoteAccount => {
            assert(m[2] == c);
        },
        VoteCommand::ShowVoteAccount => {
            assert(m[3] == c);
        },
        VoteCommand::CloseVoteAccount => {
            assert(m[4] == c);
        },
        VoteCommand::GoBack => {
            assert(m[5] == c);
        },
    }
}

} // verus!
