use vstd::prelude::*;

verus! {

/// Commands related to the configuration: endpoint, commitment level and keypair path.
#[derive(Debug, Clone, Copy, PartialEq, Eq, Structural)]
pub enum ConfigCommand {
    Show,
    Generate,
    Edit,
    GoBack,
}

impl ConfigCommand {
    /// The spinner text of each command.
    pub open spec fn spinner_text(self) -> Seq<char> {
        match self {
            ConfigCommand::Show => "Displaying current Scilla configuration…"@,
            ConfigCommand::Generate => "Generating new Scilla configuration…"@,
            ConfigCommand::Edit => "Editing existing Scilla configuration…"@,
            ConfigCommand::GoBack => "Going back…"@,
        }
    }

    /// The menu label of each command.
    pub open spec fn label_text(self) -> Seq<char> {
        match self {
            ConfigCommand::Show => "View ScillaConfig"@,
            ConfigCommand::Generate => "Generate ScillaConfig"@,
            ConfigCommand::Edit => "Edit ScillaConfig"@,
            ConfigCommand::GoBack => "Go back"@,
        }
    }

    /// The commands of this group in the order in which a menu lists them.
    pub open spec fn menu_order() -> Seq<ConfigCommand> {
        seq![
            ConfigCommand::Show,
            ConfigCommand::Generate,
            ConfigCommand::Edit,
            ConfigCommand::GoBack,
        ]
    }

    /// The text to show beside the spinner while the command runs.
    pub fn spinner_msg(&self) -> (r: &'static str)
        ensures
            r@ == self.spinner_text(),
    {
        match self {
            ConfigCommand::Show => "Displaying current Scilla configuration…",
            ConfigCommand::Generate => "Generating new Scilla configuration…",
            ConfigCommand::Edit => "Editing existing Scilla configuration…",
            ConfigCommand::GoBack => "Going back…",
        }
    }

    /// The text under which the command appears in a menu.
    pub fn label(&self) -> (r: &'static str)
        ensures
            r@ == self.label_text(),
    {
        match self {
            ConfigCommand::Show => "View ScillaConfig",
            ConfigCommand::Generate => "Generate ScillaConfig",
            ConfigCommand::Edit => "Edit ScillaConfig",
            ConfigCommand::GoBack => "Go back",
        }
    }

    /// Every command of the group, once, in menu order.
    pub fn menu() -> (r: Vec<ConfigCommand>)
        ensures
            r@ == Self::menu_order(),
    {
        let mut items: Vec<ConfigCommand> = Vec::new();
        items.push(ConfigCommand::Show);
        items.push(ConfigCommand::Generate);
        items.push(ConfigCommand::Edit);
        items.push(ConfigCommand::GoBack);
        assert(items@ =~= Self::menu_order());
        items
    }
}

/// Every command of the group stands in its menu.
pub proof fn law_config_menu_complete(c: ConfigCommand)
    ensures
        ConfigCommand::menu_order().contains(c),
{
    let m = ConfigCommand::menu_order();
    match c {
        ConfigCommand::Show => {
            assert(m[0] == c);
        },
        ConfigCommand::Generate => {
            assert(m[1] == c);
        },
        ConfigCommand::Edit => {
            assert(m[2] == c);
        },
        ConfigCommand::GoBack => {
            assert(m[3] == c);
        },
    }
}

/// The fields of the configuration that can be edited.
#[derive(Debug, Clone, Copy, PartialEq, Eq, Structural)]
pub enum ConfigField {
    RpcUrl,
    CommitmentLevel,
    KeypairPath,
}

impl ConfigField {
    /// The menu label of each field.
    pub open spec fn label_text(self) -> Seq<char> {
        match self {
            ConfigField::RpcUrl => "RPC URL"@,
            ConfigField::CommitmentLevel => "Commitment Level"@,
            ConfigField::KeypairPath => "Keypair Path"@,
        }
    }

    /// The fields in the order in which a menu lists them.
    pub open spec fn all_fields() -> Seq<ConfigField> {
        seq![ConfigField::RpcUrl, ConfigField::CommitmentLevel, ConfigField::KeypairPath]
    }

    /// The text under which the field appears in a menu.
    pub fn label(&self) -> (r: &'static str)
        ensures
            r@ == self.label_text(),
    {
        match self {
            ConfigField::RpcUrl => "RPC URL",
            ConfigField::CommitmentLevel => "Commitment Level",
            ConfigField::KeypairPath => "Keypair Path",
        }
    }

    /// Every field, once, in menu order.
    pub fn all() -> (r: Vec<ConfigField>)
        ensures
            r@ == Self::all_fields(),
    {
        let mut fields: Vec<ConfigField> = Vec::new();
        fields.push(ConfigField::RpcUrl);
        fields.push(ConfigField::CommitmentLevel);
        fields.push(ConfigField::KeypairPath);
        assert(fields@ =~= Self::all_fields());
        fields
    }
}

/// Every field stands in the list of all fields.
pub proof fn law_config_fields_complete(field: ConfigField)
    ensures
        ConfigField::all_fields().contains(field),
{
    let all = ConfigField::all_fields();
    match field {
        ConfigField::RpcUrl => {
            assert(all[0] == field);
        },
        ConfigField::CommitmentLevel => {
            assert(all[1] == field);
        },
        ConfigField::KeypairPath => {
            assert(all[2] == field);
        },
    }
}

} // verus!
