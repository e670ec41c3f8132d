use vstd::prelude::*;

verus! {

/// Commands related to cluster operations.
#[derive(Debug, Clone, Copy, PartialEq, Eq, Structural)]
pub enum ClusterCommand {
    EpochInfo,
    CurrentSlot,
    BlockHeight,
    BlockTime,
    Validators,
    SupplyInfo,
    Inflation,
    ClusterVersion,
    GoBack,
}

impl ClusterCommand {
    /// The spinner text of each command.
    pub open spec fn spinner_text(self) -> Seq<char> {
        match self {
            ClusterCommand::EpochInfo => "Fetching current epoch and progress…"@,
            ClusterCommand::CurrentSlot => "Fetching latest confirmed slot…"@,
            ClusterCommand::BlockHeight => "Fetching current block height…"@,
            ClusterCommand::BlockTime => "Fetching block timestamp…"@,
            ClusterCommand::Validators => "Fetching active validators…"@,
            ClusterCommand::SupplyInfo => "Fetching total and circulating supply…"@,
            ClusterCommand::Inflation => "Fetching inflation parameters…"@,
            ClusterCommand::ClusterVersion => "Fetching cluster Solana version…"@,
            ClusterCommand::GoBack => "Going back…"@,
        }
    }

    /// The menu label of each command.
    pub open spec fn label_text(self) -> Seq<char> {
        match self {
            ClusterCommand::EpochInfo => "Epoch Info"@,
            ClusterCommand::CurrentSlot => "Current Slot"@,
            ClusterCommand::BlockHeight => "Block Height"@,
            ClusterCommand::BlockTime => "Block Time"@,
            ClusterCommand::Validators => "Validators"@,
            ClusterCommand::SupplyInfo => "Supply Info"@,
            ClusterCommand::Inflation => "Inflation"@,
            ClusterCommand::ClusterVersion => "Cluster Version"@,
            ClusterCommand::GoBack => "Go back"@,
        }
    }

    /// The commands of this group in the order in which a menu lists them.
    pub open spec fn menu_order() -> Seq<ClusterCommand> {
        seq![
            ClusterCommand::EpochInfo,
            ClusterCommand::CurrentSlot,
            ClusterCommand::BlockHeight,
            ClusterCommand::BlockTime,
            ClusterCommand::Validators,
            ClusterCommand::ClusterVersion,
            ClusterCommand::SupplyInfo,
            ClusterCommand::Inflation,
            ClusterCommand::GoBack,
        ]
    }

    /// The text to show beside the spinner while the command runs.
    pub fn spinner_msg(&self) -> (r: &'static str)
        ensures
            r@ == self.spinner_text(),
    {
        match self {
            ClusterCommand::EpochInfo => "Fetching current epoch and progress…",
            ClusterCommand::CurrentSlot => "Fetching latest confirmed slot…",
            ClusterCommand::BlockHeight => "Fetching current block height…",
            ClusterCommand::BlockTime => "Fetching block timestamp…",
            ClusterCommand::Validators => "Fetching active validators…",
            ClusterCommand::SupplyInfo => "Fetching total and circulating supply…",
            ClusterCommand::Inflation => "Fetching inflation parameters…",
            ClusterCommand::ClusterVersion => "Fetching cluster Solana version…",
            ClusterCommand::GoBack => "Going back…",
        }
    }

    /// The text under which the command appears in a menu.
    pub fn label(&self) -> (r: &'static str)
        ensures
            r@ == self.label_text(),
    {
        match self {
            ClusterCommand::EpochInfo => "Epoch Info",
            ClusterCommand::CurrentSlot => "Current Slot",
            ClusterCommand::BlockHeight => "Block Height",
            ClusterCommand::BlockTime => "Block Time",
            ClusterCommand::Validators => "Validators",
            ClusterCommand::SupplyInfo => "Supply Info",
            ClusterCommand::Inflation => "Inflation",
            ClusterCommand::ClusterVersion => "Cluster Version",
            ClusterCommand::GoBack => "Go back",
        }
    }

    /// Every command of the group, once, in menu order.
    pub fn menu() -> (r: Vec<ClusterCommand>)
        ensures
            r@ == Self::menu_order(),
    {
        let mut items: Vec<ClusterCommand> = Vec::new();
        items.push(ClusterCommand::EpochInfo);
        items.push(ClusterCommand::CurrentSlot);
        items.push(ClusterCommand::BlockHeight);
        items.push(ClusterCommand::BlockTime);
        items.push(ClusterCommand::Validators);
        items.push(ClusterCommand::ClusterVersion);
        items.push(ClusterCommand::SupplyInfo);
        items.push(ClusterCommand::Inflation);
        items.push(ClusterCommand::GoBack);
        assert(items@ =~= Self::menu_order());
        items
    }
}

/// Every command of the group stands in its menu.
pub proof fn law_cluster_menu_complete(c: ClusterCommand)
    ensures
        ClusterCommand::menu_order().contains(c),
{
    let m = ClusterCommand::menu_order();
    match c {
        ClusterCommand::EpochInfo => {
            assert(m[0] == c);
        },
        ClusterCommand::CurrentSlot => {
            assert(m[1] == c);
        },
        ClusterCommand::BlockHeight => {
            assert(m[2] == c);
        },
        ClusterCommand::BlockTime => {
            assert(m[3] == c);
        },
        ClusterCommand::Validators => {
            assert(m[4] == c);
        },
        ClusterCommand::ClusterVersion => {
            assert(m[5] == c);
        },
        ClusterCommand::SupplyInfo => {
            assert(m[6] == c);
        },
        ClusterCommand::Inflation => {
            assert(m[7] == c);
        },
        ClusterCommand::GoBack => {
            assert(m[8] == c);
        },
    }
}

} // verus!
