use vstd::prelude::*;

verus! {

/// Commands related to wallet or account management.
#[derive(Debug, Clone, Copy, PartialEq, Eq, Structural)]
pub enum AccountCommand {
    FetchAccount,
    Balance,
    Transfer,
    Airdrop,
    LargestAccounts,
    NonceAccount,
    GoBack,
}

impl AccountCommand {
    /// The spinner text of each command.
    pub open spec fn spinner_text(self) -> Seq<char> {
        match self {
            AccountCommand::FetchAccount => "Fetching account…"@,
            AccountCommand::Balance => "Checking SOL balance…"@,
            AccountCommand::Transfer => "Sending SOL…"@,
            AccountCommand::Airdrop => "Requesting SOL on devnet/testnet…"@,
            AccountCommand::LargestAccounts => "Fetching largest accounts on the cluster…"@,
            AccountCommand::NonceAccount => "Inspecting or managing durable nonces…"@,
            AccountCommand::GoBack => "Going back…"@,
        }
    }

    /// The menu label of each command.
    pub open spec fn label_text(self) -> Seq<char> {
        match self {
            AccountCommand::FetchAccount => "Fetch account"@,
            AccountCommand::Balance => "Check balance"@,
            AccountCommand::Transfer => "Transfer SOL"@,
            AccountCommand::Airdrop => "Request airdrop"@,
            AccountCommand::LargestAccounts => "View largest accounts"@,
            AccountCommand::NonceAccount => "View nonce account"@,
            AccountCommand::GoBack => "Go back"@,
        }
    }

    /// The commands of this group in the order in which a menu lists them.
    pub open spec fn menu_order() -> Seq<AccountCommand> {
        seq![
            AccountCommand::FetchAccount,
            AccountCommand::Balance,
            AccountCommand::Transfer,
            AccountCommand::Airdrop,
            AccountCommand::LargestAccounts,
            AccountCommand::NonceAccount,
            AccountCommand::GoBack,
        ]
    }

    /// The text to show beside the spinner while the command runs.
    pub fn spinner_msg(&self) -> (r: &'static str)
        ensures
            r@ == self.spinner_text(),
    {
        match self {
            AccountCommand::FetchAccount => "Fetching account…",
            AccountCommand::Balance => "Checking SOL balance…",
            AccountCommand::Transfer => "Sending SOL…",
            AccountCommand::Airdrop => "Requesting SOL on devnet/testnet…",
            AccountCommand::LargestAccounts => "Fetching largest accounts on the cluster…",
            AccountCommand::NonceAccount => "Inspecting or managing durable nonces…",
            AccountCommand::GoBack => "Going back…",
        }
    }

    /// The text under which the command appears in a menu.
    pub fn label(&self) -> (r: &'static str)
        ensures
            r@ == self.label_text(),
    {
        match self {
            AccountCommand::FetchAccount => "Fetch account",
            AccountCommand::Balance => "Check balance",
            AccountCommand::Transfer => "Transfer SOL",
            AccountCommand::Airdrop => "Request airdrop",
            AccountCommand::LargestAccounts => "View largest accounts",
            AccountCommand::NonceAccount => "View nonce account",
            AccountCommand::GoBack => "Go back",
        }
    }

    /// Every command of the group, once, in menu order.
    pub fn menu() -> (r: Vec<AccountCommand>)
        ensures
            r@ == Self::menu_order(),
    {
        let mut items: Vec<AccountCommand> = Vec::new();
        items.push(AccountCommand::FetchAccount);
        items.push(AccountCommand::Balance);
        items.push(AccountCommand::Transfer);
        items.push(AccountCommand::Airdrop);
        items.push(AccountCommand::LargestAccounts);
        items.push(AccountCommand::NonceAccount);
        items.push(AccountCommand::GoBack);
        assert(items@ =~= Self::menu_order());
        items
    }
}

/// Every command of the group stands in its menu.
pub proof fn law_account_menu_complete(c: AccountCommand)
    ensures
        AccountCommand::menu_order().contains(c),
{
    let m = AccountCommand::menu_order();
    match c {
        AccountCommand::FetchAccount => {
            assert(m[0] == c);
        },
        AccountCommand::Balance => {
            assert(m[1] == c);
        },
        AccountCommand::Transfer => {
            assert(m[2] == c);
        },
        AccountCommand::Airdrop => {
            assert(m[3] == c);
        },
        AccountCommand::LargestAccounts => {
            assert(m[4] == c);
        },
        AccountCommand::NonceAccount => {
            assert(m[5] == c);
        },
        AccountCommand::GoBack => {
            assert(m[6] == c);
        },
    }
}

/// Which of the largest accounts to list.
#[derive(Debug, Clone, Copy, PartialEq, Eq, Structural)]
pub enum LargestAccountsFilter {
    All,
    Circulating,
    NonCirculating,
}

impl LargestAccountsFilter {
    /// The menu label of each filter.
    pub open spec fn label_text(self) -> Seq<char> {
        match self {
            LargestAccountsFilter::All => "All"@,
            LargestAccountsFilter::Circulating => "Circulating"@,
            LargestAccountsFilter::NonCirculating => "Non-Circulating"@,
        }
    }

    /// The filters in the order in which a menu lists them.
    pub open spec fn menu_order() -> Seq<LargestAccountsFilter> {
        seq![
            LargestAccountsFilter::All,
            LargestAccountsFilter::Circulating,
            LargestAccountsFilter::NonCirculating,
        ]
    }

    /// The text under which the filter appears in a menu.
    pub fn label(&self) -> (r: &'static str)
        ensures
            r@ == self.label_text(),
    {
        match self {
            LargestAccountsFilter::All => "All",
            LargestAccountsFilter::Circulating => "Circulating",
            LargestAccountsFilter::NonCirculating => "Non-Circulating",
        }
    }

    /// Every filter, once, in menu order.
    pub fn menu() -> (r: Vec<LargestAccountsFilter>)
        ensures
            r@ == Self::menu_order(),
    {
        let mut items: Vec<LargestAccountsFilter> = Vec::new();
        items.push(LargestAccountsFilter::All);
        items.push(LargestAccountsFilter::Circulating);
        items.push(LargestAccountsFilter::NonCirculating);
        assert(items@ =~= Self::menu_order());
        items
    }
}

} // verus!
