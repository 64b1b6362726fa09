use pyrite_bot::embed::{Embed, EmbedField, ORANGE, RED};
use pyrite_bot::help::{find_command, help, CommandInfo};
use pyrite_bot::policy::{command_check, on_error, Fault, FaultAction, BLOCKED_AUTHOR_ID};
use pyrite_bot::update::{bullet_lines, update, UpdateModal, UpdateReply, UPDATE_CHANNEL_ID};
use pyrite_bot::Data;

fn command(name: &str, description: Option<&str>) -> CommandInfo {
    CommandInfo { name: name.to_string(), description: description.map(|d| d.to_string()) }
}

fn registry() -> Vec<CommandInfo> {
    vec![
        command("help", Some("Show the help menu.")),
        command("update", Some("Add an update!")),
        command("ping", None),
        command("vote", Some("Vote for the bot")),
    ]
}

fn field(name: &str, value: &str, inline: bool) -> EmbedField {
    EmbedField { name: name.to_string(), value: value.to_string(), inline }
}

#[test]
fn data_is_constructible() {
    let _data = Data {};
}

#[test]
fn help_lists_every_command_in_rows_of_three() {
    let embed = help(&registry(), None);
    assert_eq!(
        embed,
        Embed {
            title: "Help".to_string(),
            description: None,
            colour: 0xE67E22,
            thumbnail: None,
            fields: vec![
                field("help", "Show the help menu.", true),
                field("update", "Add an update!", true),
                field("ping", "No Description", false),
                field("vote", "Vote for the bot", true),
            ],
            footer_text: "Pyrite Bot".to_string(),
            footer_icon: None,
        }
    );
}

#[test]
fn help_inline_flag_drops_on_every_third_entry() {
    let commands: Vec<CommandInfo> =
        (0..10).map(|i| command(&format!("c{}", i), None)).collect();
    let embed = help(&commands, None);
    let flags: Vec<bool> = embed.fields.iter().map(|f| f.inline).collect();
    assert_eq!(flags, vec![true, true, false, true, true, false, true, true, false, true]);
    let names: Vec<&str> = embed.fields.iter().map(|f| f.name.as_str()).collect();
    assert_eq!(names, vec!["c0", "c1", "c2", "c3", "c4", "c5", "c6", "c7", "c8", "c9"]);
}

#[test]
fn help_without_commands_is_an_empty_list() {
    let embed = help(&Vec::new(), None);
    assert_eq!(embed.title, "Help");
    assert!(embed.fields.is_empty());
    assert_eq!(embed.colour, ORANGE);
}

#[test]
fn help_about_a_known_command() {
    let embed = help(&registry(), Some("update".to_string()));
    assert_eq!(
        embed,
        Embed {
            title: "update".to_string(),
            description: Some("Add an update!".to_string()),
            colour: ORANGE,
            thumbnail: None,
            fields: Vec::new(),
            footer_text: "Pyrite Bot".to_string(),
            footer_icon: None,
        }
    );
    let embed = help(&registry(), Some("ping".to_string()));
    assert_eq!(embed.title, "ping");
    assert_eq!(embed.description, Some("No Description".to_string()));
}

#[test]
fn help_about_an_unknown_command() {
    for name in ["nope", "", "Help", "help ", "hel"] {
        let embed = help(&registry(), Some(name.to_string()));
        assert_eq!(
            embed,
            Embed {
                title: "Command not Found".to_string(),
                description: Some(
                    "The command you provided does not appear to exist, do /help to see all available commands"
                        .to_string()
                ),
                colour: RED,
                thumbnail: None,
                fields: Vec::new(),
                footer_text: "Pyrite Bot".to_string(),
                footer_icon: None,
            }
        );
        assert_eq!(embed.colour, 0xE74C3C);
    }
}

#[test]
fn find_command_takes_the_first_of_a_name() {
    let commands = vec![
        command("a", Some("first")),
        command("b", None),
        command("a", Some("second")),
    ];
    assert_eq!(find_command(&commands, "a"), Some(&commands[0]));
    assert_eq!(find_command(&commands, "b"), Some(&commands[1]));
    assert_eq!(find_command(&commands, "c"), None);
    assert_eq!(find_command(&Vec::new(), "a"), None);
    assert_eq!(help(&commands, Some("a".to_string())).description, Some("first".to_string()));
}

#[test]
fn update_log_has_one_bullet_for_each_line() {
    let reply = update(Some(UpdateModal {
        version: "1.2.3".to_string(),
        description: "Added votes\nFixed help\nRemoved bugs".to_string(),
    }));
    assert_eq!(
        reply,
        UpdateReply::Announce {
            channel_id: 1023607934825013310,
            content: "<:arrow:1068604670764916876> **Pyrite v1.2.3 Update Log**\n   ・ Added votes\n   ・ Fixed help\n   ・ Removed bugs"
                .to_string(),
        }
    );
    assert_eq!(UPDATE_CHANNEL_ID, 1023607934825013310);
}

#[test]
fn update_log_of_a_single_line() {
    let reply = update(Some(UpdateModal {
        version: "0.0.1".to_string(),
        description: "First release".to_string(),
    }));
    assert_eq!(
        reply,
        UpdateReply::Announce {
            channel_id: UPDATE_CHANNEL_ID,
            content: "<:arrow:1068604670764916876> **Pyrite v0.0.1 Update Log**\n   ・ First release"
                .to_string(),
        }
    );
}

#[test]
fn update_without_form_data_is_a_failure() {
    assert_eq!(
        update(None),
        UpdateReply::Failure { content: "There was an error loading the data!".to_string() }
    );
}

#[test]
fn bullet_lines_agrees_with_replace() {
    for text in ["", "one", "\n", "a\nb", "a\n\nb", "\nlead", "trail\n", "・\n・", "tab\tand\r\nreturn"] {
        assert_eq!(bullet_lines(text), text.replace("\n", "\n   ・ "), "{:?}", text);
    }
    assert_eq!(bullet_lines("a\nb"), "a\n   ・ b");
}

#[test]
fn command_check_blocks_one_author() {
    assert!(!command_check(123456789));
    assert!(!command_check(BLOCKED_AUTHOR_ID));
    assert!(command_check(123456788));
    assert!(command_check(0));
    assert!(command_check(u64::MAX));
}

#[test]
fn on_error_decides_by_the_kind_of_fault() {
    assert_eq!(
        on_error(Fault::Setup { error: "bad token".to_string() }),
        FaultAction::Abort { message: "Failed to start bot: bad token".to_string() }
    );
    assert_eq!(
        on_error(Fault::Command { command: "help".to_string(), error: "Http(timeout)".to_string() }),
        FaultAction::Report { line: "Error in command `help`: Http(timeout)".to_string() }
    );
    assert_eq!(on_error(Fault::Other), FaultAction::Forward);
}
