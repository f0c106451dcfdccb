use chat_relay::commands::{handle_command, is_command, parse_command, Command};
use chat_relay::registry::Registry;

#[test]
fn is_command_checks_the_prefix() {
    assert!(is_command("/help"));
    assert!(is_command("/"));
    assert!(!is_command("help"));
    assert!(!is_command(""));
    assert!(!is_command(" /help"));
}

#[test]
fn parse_recognizes_each_command() {
    assert!(matches!(parse_command("/help"), Command::Help));
    assert!(matches!(parse_command("/list"), Command::List));
    assert!(matches!(parse_command("/quit"), Command::Quit));
    match parse_command("/nick Bob") {
        Command::Nick(arg) => assert_eq!(arg, "Bob"),
        _ => panic!("expected a nick command"),
    }
    assert!(matches!(parse_command("/dance"), Command::Unknown));
    assert!(matches!(parse_command("/LIST"), Command::Unknown));
}

#[test]
fn parse_takes_the_first_token_and_trims_the_argument() {
    assert!(matches!(parse_command("/help now please"), Command::Help));
    match parse_command("/nick   Bobby Tables  ") {
        Command::Nick(arg) => assert_eq!(arg, "Bobby Tables"),
        _ => panic!("expected a nick command"),
    }
    match parse_command("/nick") {
        Command::Nick(arg) => assert_eq!(arg, ""),
        _ => panic!("expected a nick command"),
    }
}

#[test]
fn help_replies_with_the_command_list() {
    let mut reg = Registry::new();
    let out = handle_command(1, "/help", &mut reg);
    assert_eq!(out.reply, "Comandos: /list, /nick <nome>, /quit, /help\n");
    assert!(out.broadcast.is_none());
    assert!(!out.disconnect);
    assert_eq!(reg.len(), 0);
}

#[test]
fn list_replies_with_the_names() {
    let mut reg = Registry::new();
    reg.register(1, String::from("Alice"));
    reg.register(2, String::from("Bob"));
    let out = handle_command(1, "/list", &mut reg);
    assert_eq!(out.reply, "Usu\u{e1}rios online:\n- Alice\n- Bob\n");
    assert!(out.broadcast.is_none());
    assert!(!out.disconnect);
}

#[test]
fn quit_removes_and_announces() {
    let mut reg = Registry::new();
    reg.register(1, String::from("Alice"));
    reg.register(2, String::from("Bob"));
    let out = handle_command(1, "/quit", &mut reg);
    assert_eq!(out.reply, "Leaving chat...\n");
    let env = out.broadcast.expect("a departure notice");
    assert_eq!(env.text, "[Server]: Alice left the chat\n");
    assert_eq!(env.origin, 1);
    assert!(out.disconnect);
    assert_eq!(reg.lookup(1), None);
    assert_eq!(reg.len(), 1);
}

#[test]
fn quit_of_unregistered_connection_announces_nothing() {
    let mut reg = Registry::new();
    let out = handle_command(1, "/quit", &mut reg);
    assert_eq!(out.reply, "Leaving chat...\n");
    assert!(out.broadcast.is_none());
    assert!(out.disconnect);
}

#[test]
fn nick_renames_and_announces() {
    let mut reg = Registry::new();
    reg.register(1, String::from("Old"));
    let out = handle_command(1, "/nick New", &mut reg);
    assert_eq!(out.reply, "Nome alterado para New\n");
    let env = out.broadcast.expect("a rename notice");
    assert_eq!(env.text, "[Server]: Old is now New\n");
    assert_eq!(env.origin, 1);
    assert!(!out.disconnect);
    assert_eq!(reg.lookup(1), Some(String::from("New")));
}

#[test]
fn nick_without_argument_replies_usage() {
    let mut reg = Registry::new();
    reg.register(1, String::from("Old"));
    let out = handle_command(1, "/nick", &mut reg);
    assert_eq!(out.reply, "Usage: /nick <name>\n");
    assert!(out.broadcast.is_none());
    assert!(!out.disconnect);
    assert_eq!(reg.lookup(1), Some(String::from("Old")));
    let out = handle_command(1, "/nick    ", &mut reg);
    assert_eq!(out.reply, "Usage: /nick <name>\n");
    assert_eq!(reg.lookup(1), Some(String::from("Old")));
}

#[test]
fn nick_of_unregistered_connection_changes_nothing() {
    let mut reg = Registry::new();
    let out = handle_command(1, "/nick New", &mut reg);
    assert_eq!(out.reply, "");
    assert!(out.broadcast.is_none());
    assert!(!out.disconnect);
    assert_eq!(reg.len(), 0);
}

#[test]
fn unknown_command_replies_notice_and_keeps_connection() {
    let mut reg = Registry::new();
    reg.register(1, String::from("Alice"));
    let out = handle_command(1, "/frobnicate", &mut reg);
    assert_eq!(out.reply, "Comando desconhecido. Use /help\n");
    assert!(out.broadcast.is_none());
    assert!(!out.disconnect);
    assert_eq!(reg.lookup(1), Some(String::from("Alice")));
}
