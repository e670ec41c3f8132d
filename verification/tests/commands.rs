use scilla::commands::account::{AccountCommand, LargestAccountsFilter};
use scilla::commands::cluster::ClusterCommand;
use scilla::commands::config::{ConfigCommand, ConfigField};
use scilla::commands::stake::StakeCommand;
use scilla::commands::transaction::TransactionCommand;
use scilla::commands::vote::VoteCommand;
use scilla::LAMPORTS_PER_SOL;

#[test]
fn account_commands_have_their_texts() {
    let expected = [
        (AccountCommand::FetchAccount, "Fetching account…", "Fetch account"),
        (AccountCommand::Balance, "Checking SOL balance…", "Check balance"),
        (AccountCommand::Transfer, "Sending SOL…", "Transfer SOL"),
        (AccountCommand::Airdrop, "Requesting SOL on devnet/testnet…", "Request airdrop"),
        (
            AccountCommand::LargestAccounts,
            "Fetching largest accounts on the cluster…",
            "View largest accounts",
        ),
        (
            AccountCommand::NonceAccount,
            "Inspecting or managing durable nonces…",
            "View nonce account",
        ),
        (AccountCommand::GoBack, "Going back…", "Go back"),
    ];
    for (command, spinner, label) in expected {
        assert_eq!(command.spinner_msg(), spinner);
        assert_eq!(command.label(), label);
    }
    assert_eq!(AccountCommand::menu(), expected.map(|(command, _, _)| command).to_vec());
}

#[test]
fn cluster_commands_have_their_texts() {
    let expected = [
        (ClusterCommand::EpochInfo, "Fetching current epoch and progress…", "Epoch Info"),
        (ClusterCommand::CurrentSlot, "Fetching latest confirmed slot…", "Current Slot"),
        (ClusterCommand::BlockHeight, "Fetching current block height…", "Block Height"),
        (ClusterCommand::BlockTime, "Fetching block timestamp…", "Block Time"),
        (ClusterCommand::Validators, "Fetching active validators…", "Validators"),
        (ClusterCommand::ClusterVersion, "Fetching cluster Solana version…", "Cluster Version"),
        (ClusterCommand::SupplyInfo, "Fetching total and circulating supply…", "Supply Info"),
        (ClusterCommand::Inflation, "Fetching inflation parameters…", "Inflation"),
        (ClusterCommand::GoBack, "Going back…", "Go back"),
    ];
    for (command, spinner, label) in expected {
        assert_eq!(command.spinner_msg(), spinner);
        assert_eq!(command.label(), label);
    }
    assert_eq!(ClusterCommand::menu(), expected.map(|(command, _, _)| command).to_vec());
}

#[test]
fn config_commands_have_their_texts() {
    let expected = [
        (ConfigCommand::Show, "Displaying current Scilla configuration…", "View ScillaConfig"),
        (ConfigCommand::Generate, "Generating new Scilla configuration…", "Generate ScillaConfig"),
        (ConfigCommand::Edit, "Editing existing Scilla configuration…", "Edit ScillaConfig"),
        (ConfigCommand::GoBack, "Going back…", "Go back"),
    ];
    for (command, spinner, label) in expected {
        assert_eq!(command.spinner_msg(), spinner);
        assert_eq!(command.label(), label);
    }
    assert_eq!(ConfigCommand::menu(), expected.map(|(command, _, _)| command).to_vec());
}

#[test]
fn config_fields_are_listed_in_order() {
    assert_eq!(
        ConfigField::all(),
        vec![ConfigField::RpcUrl, ConfigField::CommitmentLevel, ConfigField::KeypairPath]
    );
    assert_eq!(ConfigField::RpcUrl.label(), "RPC URL");
    assert_eq!(ConfigField::CommitmentLevel.label(), "Commitment Level");
    assert_eq!(ConfigField::KeypairPath.label(), "Keypair Path");
}

#[test]
fn stake_commands_have_their_texts() {
    let expected = [
        (StakeCommand::Create, "Creating new stake account…", "Create stake account"),
        (StakeCommand::Delegate, "Delegating stake to validator…", "Delegate stake"),
        (StakeCommand::Deactivate, "Deactivating stake (cooldown starting)…", "Deactivate stake"),
        (StakeCommand::Withdraw, "Withdrawing SOL from deactivated stake…", "Withdraw stake"),
        (StakeCommand::Merge, "Merging stake accounts…", "Merge stake accounts"),
        (StakeCommand::Split, "Splitting stake into multiple accounts…", "Split stake account"),
        (StakeCommand::Show, "Fetching stake account details…", "Show stake"),
        (StakeCommand::History, "Fetching stake account history…", "View stake history"),
        (StakeCommand::GoBack, "Going back…", "Go back"),
    ];
    for (command, spinner, label) in expected {
        assert_eq!(command.spinner_msg(), spinner);
        assert_eq!(command.label(), label);
    }
    assert_eq!(StakeCommand::menu(), expected.map(|(command, _, _)| command).to_vec());
}

#[test]
fn transaction_commands_have_their_texts() {
    let expected = [
        (
            TransactionCommand::CheckConfirmation,
            "Checking transaction confirmation…",
            "Check Transaction Confirmation",
        ),
        (
            TransactionCommand::FetchStatus,
            "Fetching transaction status…",
            "Fetch Transaction Status",
        ),
        (
            TransactionCommand::FetchTransaction,
            "Fetching full transaction data…",
            "Fetch Transaction",
        ),
        (TransactionCommand::SendTransaction, "Sending transaction…", "Send Transaction"),
    ];
    for (command, spinner, label) in expected {
        assert_eq!(command.spinner_msg(), spinner);
        assert_eq!(command.label(), label);
    }
    assert_eq!(TransactionCommand::menu(), expected.map(|(command, _, _)| command).to_vec());
}

#[test]
fn vote_commands_have_their_texts() {
    let expected = [
        (VoteCommand::CreateVoteAccount, "Creating vote account…", "Create vote account"),
        (VoteCommand::AuthorizeVoter, "Authorizing voter…", "Authorize voter"),
        (
            VoteCommand::WithdrawFromVoteAccount,
            "Withdrawing SOL from vote account…",
            "Withdraw from vote account",
        ),
        (VoteCommand::ShowVoteAccount, "Fetching vote account details…", "Show vote account"),
        (VoteCommand::CloseVoteAccount, "Closing vote account…", "Close vote account"),
        (VoteCommand::GoBack, "Going back…", "Go back"),
    ];
    for (command, spinner, label) in expected {
        assert_eq!(command.spinner_msg(), spinner);
        assert_eq!(command.label(), label);
    }
    assert_eq!(VoteCommand::menu(), expected.map(|(command, _, _)| command).to_vec());
}

#[test]
fn one_sol_is_a_billion_lamports() {
    assert_eq!(LAMPORTS_PER_SOL, 1_000_000_000);
}

#[test]
fn largest_accounts_filters_are_listed_in_order() {
    assert_eq!(
        LargestAccountsFilter::menu(),
        vec![
            LargestAccountsFilter::All,
            LargestAccountsFilter::Circulating,
            LargestAccountsFilter::NonCirculating
        ]
    );
    assert_eq!(LargestAccountsFilter::All.label(), "All");
    assert_eq!(LargestAccountsFilter::Circulating.label(), "Circulating");
    assert_eq!(LargestAccountsFilter::NonCirculating.label(), "Non-Circulating");
}
