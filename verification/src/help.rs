//! The help menu: the list of all commands, or what one of them does.

use vstd::prelude::*;
use vstd::string::*;
use crate::embed::{Embed, EmbedField, EmbedFieldView, EmbedView, ORANGE, RED};
use crate::text::same_text;

verus! {

/// What the help menu knows of a registered command.
#[derive(Clone, Debug, PartialEq, Eq)]
pub struct CommandInfo {
    pub name: String,
    pub description: Option<String>,
}

/// A command's entry as a mathematical value.
pub ghost struct CommandInfoView {
    pub name: Seq<char>,
    pub description: Option<Seq<char>>,
}

impl View for CommandInfo {
    type V = CommandInfoView;

    open spec fn view(&self) -> CommandInfoView {
        CommandInfoView { name: self.name@, description: self.description.deep_view() }
    }
}

impl DeepView for CommandInfo {
    type V = CommandInfoView;

    open spec fn deep_view(&self) -> CommandInfoView {
        self@
    }
}

/// What the menu says a command does: its description, or that it has none.
pub open spec fn described(command: CommandInfoView) -> Seq<char> {
    match command.description {
        Some(text) => text,
        None => "No Description"@,
    }
}

/// The first of `commands` that is called exactly `name`.
pub open spec fn lookup(commands: Seq<CommandInfoView>, name: Seq<char>) -> Option<CommandInfoView>
    decreases commands.len(),
{
    if commands.len() == 0 {
        None
    } else if commands[0].name == name {
        Some(commands[0])
    } else {
        lookup(commands.skip(1), name)
    }
}

/// The menu's entry for the command at position `i`: of each row of three
/// entries, the first two are laid out inline.
pub open spec fn menu_field(commands: Seq<CommandInfoView>, i: int) -> EmbedFieldView {
    EmbedFieldView {
        name: commands[i].name,
        value: described(commands[i]),
        inline: (i + 1) % 3 != 0,
    }
}

/// An embed of the help menu, which carries the bot's name as its footer.
pub open spec fn menu_embed(
    colour: u32,
    title: Seq<char>,
    description: Option<Seq<char>>,
    fields: Seq<EmbedFieldView>,
) -> EmbedView {
    EmbedView {
        title,
        description,
        colour,
        thumbnail: None,
        fields,
        footer_text: "Pyrite Bot"@,
        footer_icon: None,
    }
}

/// The help menu for `commands`. Asked about one command, it shows what the
/// first command of that name does, or that there is none; asked about none,
/// it lists every command in order.
pub open spec fn help_of(commands: Seq<CommandInfoView>, command: Option<Seq<char>>) -> EmbedView {
    match command {
        Some(name) => match lookup(commands, name) {
            Some(found) => menu_embed(ORANGE, name, Some(described(found)), Seq::empty()),
            None => menu_embed(
                RED,
                "Command not Found"@,
                Some(
                    "The command you provided does not appear to exist, do /help to see all available commands"@,
                ),
                Seq::empty(),
            ),
        },
        None => menu_embed(
            ORANGE,
            "Help"@,
            None,
            Seq::new(commands.len(), |i: int| menu_field(commands, i)),
        ),
    }
}

/// `lookup` finds the command at the least position that bears the name, and
/// finds none exactly if no command bears it.
pub proof fn lemma_lookup_is_first(commands: Seq<CommandInfoView>, name: Seq<char>)
    ensures
        match lookup(commands, name) {
            Some(found) => exists|i: int|
                0 <= i < commands.len() && #[trigger] commands[i] == found && found.name == name
                    && forall|j: int| 0 <= j < i ==> (#[trigger] commands[j]).name != name,
            None => forall|j: int| 0 <= j < commands.len() ==> (#[trigger] commands[j]).name != name,
        },
    decreases commands.len(),
{
    if commands.len() == 0 {
    } else if commands[0].name == name {
        assert(commands[0] == lookup(commands, name)->Some_0);
    } else {
        let rest = commands.skip(1);
        lemma_lookup_is_first(rest, name);
        assert(forall|j: int| 0 <= j < rest.len() ==> rest[j] == commands[j + 1]);
        match lookup(rest, name) {
            Some(found) => {
                let i = choose|i: int|
                    0 <= i < rest.len() && #[trigger] rest[i] == found && found.name == name
                        && forall|j: int| 0 <= j < i ==> (#[trigger] rest[j]).name != name;
                assert(commands[i + 1] == found);
                assert forall|j: int| 0 <= j < i + 1 implies (#[trigger] commands[j]).name
                    != name by {
                    if j > 0 {
                        assert(rest[j - 1] == commands[j]);
                    }
                }
            },
            None => {
                assert forall|j: int| 0 <= j < commands.len() implies (#[trigger] commands[j]).name
                    != name by {
                    if j > 0 {
                        assert(rest[j - 1] == commands[j]);
                    }
                }
            },
        }
    }
}

/// What a command does, in the menu's words.
fn describe(command: &CommandInfo) -> (r: String)
    ensures
        r@ == described(command@),
{
    match &command.description {
        Some(text) => text.clone(),
        None => String::from_str("No Description"),
    }
}

/// Builds an embed of the help menu.
fn menu(colour: u32, title: String, description: Option<String>, fields: Vec<EmbedField>) -> (r:
    Embed)
    ensures
        r@ == menu_embed(colour, title@, description.deep_view(), fields.deep_view()),
{
    Embed {
        title,
        description,
        colour,
        thumbnail: None,
        fields,
        footer_text: String::from_str("Pyrite Bot"),
        footer_icon: None,
    }
}

/// Finds the first of `commands` that is called `name`.
pub fn find_command<'a>(commands: &'a Vec<CommandInfo>, name: &str) -> (r: Option<&'a CommandInfo>)
    ensures
        r.deep_view() == lookup(commands.deep_view(), name@),
{
    let ghost all = commands.deep_view();
    let mut i: usize = 0;
    assert(all.skip(0) =~= all);
    while i < commands.len()
        invariant
            i <= commands.len(),
            all == commands.deep_view(),
            lookup(all, name@) == lookup(all.skip(i as int), name@),
        decreases commands.len() - i,
    {
        let ghost rest = all.skip(i as int);
        assert(rest[0] == commands[i as int]@);
        assert(rest.skip(1) =~= all.skip(i + 1));
        if same_text(commands[i].name.as_str(), name) {
            return Some(&commands[i]);
        }
        i = i + 1;
    }
    None
}

/// Shows the help menu: what `command` does, or the list of all `commands`.
pub fn help(commands: &Vec<CommandInfo>, command: Option<String>) -> (r: Embed)
    ensures
        r@ == help_of(commands.deep_view(), command.deep_view()),
{
    match command {
        Some(name) => match find_command(commands, name.as_str()) {
            Some(found) => {
                let text: String = describe(found);
                let r = menu(ORANGE, name, Some(text), Vec::new());
                assert(r@.fields =~= Seq::<EmbedFieldView>::empty());
                r
            },
            None => {
                let r = menu(
                    RED,
                    String::from_str("Command not Found"),
                    Some(
                        String::from_str(
                            "The command you provided does not appear to exist, do /help to see all available commands",
                        ),
                    ),
                    Vec::new(),
                );
                assert(r@.fields =~= Seq::<EmbedFieldView>::empty());
                r
            },
        },
        None => {
            let ghost all = commands.deep_view();
            let mut fields: Vec<EmbedField> = Vec::new();
            let mut i: usize = 0;
            while i < commands.len()
                invariant
                    i <= commands.len(),
                    all == commands.deep_view(),
                    fields.deep_view() =~= Seq::new(i as nat, |k: int| menu_field(all, k)),
                decreases commands.len() - i,
            {
                let ghost before = fields.deep_view();
                let entry = EmbedField {
                    name: commands[i].name.clone(),
                    value: describe(&commands[i]),
                    inline: (i % 3) != 2,
                };
                assert(all[i as int] == commands[i as int]@);
                assert(entry@ == menu_field(all, i as int));
                fields.push(entry);
                assert(fields.deep_view() =~= before.push(entry@));
                i = i + 1;
            }
            menu(ORANGE, String::from_str("Help"), None, fields)
        },
    }
}

} // verus!
