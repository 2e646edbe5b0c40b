use ribbon::commands::{
    check_declaration, command_description, command_name, declared_option, subcommand_option, DeclarationError, find_name, first_focused, registered_kinds, route_command, subcommand_description, text_eq,
    CommandContext, CommandEntry, CommandKind, CommandOptionKind, CommandRoute, List,
};

#[test]
fn discord_codes() {
    assert_eq!(CommandContext::Guild.code(), 0);
    assert_eq!(CommandContext::BotDM.code(), 1);
    assert_eq!(CommandContext::PrivateChannel.code(), 2);
    assert_eq!(CommandOptionKind::SubCommand.code(), 1);
    assert_eq!(CommandOptionKind::String.code(), 3);
    assert_eq!(CommandOptionKind::Attachment.code(), 11);
}

#[test]
fn descriptions() {
    let none: Option<String> = None;
    let some = Some("Sync roles".to_string());
    assert_eq!(command_description(CommandKind::User, &some), "");
    assert_eq!(command_description(CommandKind::ChatInput, &some), "Sync roles");
    assert_eq!(command_description(CommandKind::Message, &none), "there is no description yet, how sad...");
    assert_eq!(subcommand_description(&none), "there is no description yet, how sad...");
    assert_eq!(subcommand_description(&some), "Sync roles");
}

#[test]
fn registration_kinds() {
    assert_eq!(registered_kinds(true, false, false), vec![CommandKind::ChatInput]);
    assert_eq!(registered_kinds(true, true, true), vec![CommandKind::ChatInput, CommandKind::Message, CommandKind::User]);
    assert!(registered_kinds(false, false, false).is_empty());
}

fn entries() -> Vec<CommandEntry> {
    vec![
        CommandEntry { name: "dashboard".to_string(), subcommand_names: vec![] },
        CommandEntry { name: "sync".to_string(), subcommand_names: vec![] },
        CommandEntry { name: "group".to_string(), subcommand_names: vec!["add".to_string()] },
    ]
}

#[test]
fn routing() {
    let commands = entries();
    assert_eq!(route_command(&commands, "sync", None), Some(CommandRoute::Command { index: 1 }));
    assert_eq!(
        route_command(&commands, "group", Some(("add", true))),
        Some(CommandRoute::Subcommand { index: 2, sub_index: 0 })
    );
    assert_eq!(route_command(&commands, "group", Some(("add", false))), None);
    assert_eq!(route_command(&commands, "group", Some(("remove", true))), None);
    assert_eq!(route_command(&commands, "group", None), None);
    assert_eq!(route_command(&commands, "missing", None), None);
}

#[test]
fn text_equality() {
    assert!(text_eq("abc", "abc"));
    assert!(!text_eq("abc", "abd"));
    assert!(!text_eq("ab", "abc"));
    assert!(text_eq("", ""));
}

#[test]
fn default_list_is_empty() {
    let list: List<u8> = List::default();
    assert!(list.0.is_empty());
}

#[test]
fn declared_contexts() {
    assert_eq!(CommandContext::from_name("guild"), Some(CommandContext::Guild));
    assert_eq!(CommandContext::from_name("bot_dm"), Some(CommandContext::BotDM));
    assert_eq!(CommandContext::from_name("private_channel"), Some(CommandContext::PrivateChannel));
    assert_eq!(CommandContext::from_name("Guild"), None);
    assert_eq!(CommandContext::from_name(""), None);
}

#[test]
fn declared_names() {
    assert_eq!(command_name(Some("add"), "group_add"), "add");
    assert_eq!(command_name(None, "sync"), "sync");
    assert_eq!(command_name(None, "r#type"), "type");
    assert_eq!(command_name(None, "r#r#type"), "type");
    assert_eq!(command_name(None, "r#"), "");
    assert_eq!(command_name(None, "r"), "r");
    assert_eq!(command_name(None, "ar#b"), "ar#b");
}

#[test]
fn focused_options() {
    assert_eq!(first_focused(&vec![false, true, true]), Some(1));
    assert_eq!(first_focused(&vec![false, false]), None);
    assert_eq!(first_focused(&vec![]), None);
}

#[test]
fn options_by_name() {
    let names = vec!["a".to_string(), "b".to_string(), "a".to_string()];
    assert_eq!(find_name(&names, "a"), Some(0));
    assert_eq!(find_name(&names, "b"), Some(1));
    assert_eq!(find_name(&names, "c"), None);
}

#[test]
fn declared_options() {
    assert_eq!(declared_option(Some("user"), Some("member"), false), Some(("user".to_string(), true)));
    assert_eq!(declared_option(None, Some("r#type"), true), Some(("type".to_string(), false)));
    assert_eq!(declared_option(None, None, false), None);
}

#[test]
fn declarations_are_checked() {
    let guild = vec!["guild"];
    assert_eq!(check_declaration(false, false, false, &guild), Err(DeclarationError::MissingKind));
    assert_eq!(check_declaration(true, false, false, &guild), Ok(vec![CommandContext::Guild]));
    assert_eq!(
        check_declaration(false, false, true, &vec!["bot_dm", "private_channel"]),
        Ok(vec![CommandContext::BotDM, CommandContext::PrivateChannel])
    );
    assert_eq!(check_declaration(false, false, false, &vec![]), Err(DeclarationError::MissingKind));
    assert_eq!(check_declaration(true, false, false, &vec![]), Ok(vec![]));
}

#[test]
fn subcommands_become_options() {
    let option = subcommand_option("add", &Some("test".to_string()));
    assert_eq!(option.kind, CommandOptionKind::SubCommand);
    assert_eq!(option.name, "add");
    assert!(!option.required);
    assert_eq!(option.description, "test");
    assert_eq!(subcommand_option("x", &None).description, "there is no description yet, how sad...");
}
