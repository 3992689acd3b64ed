use crab_trap::menu::{
    dispatch, get_prompt, help, listening_notice, new, parse_args, parse_port, same_chars, usage,
    ArgsError, InputHelper, MenuAction, MenuCommand, DEFAULT_PORT,
};
use termion::color;

#[test]
fn test_prompt() {
    let home = String::from("/home/operator");
    let prompt = get_prompt("/home/operator/loot", &home);
    assert!(prompt
        .starts_with(format!("{red}crab_trap 🦀:", red = color::Fg(color::LightRed)).as_str()));
    assert_ne!(home, "");
}

#[test]
fn prompt_writes_home_as_tilde() {
    assert_eq!(
        get_prompt("/home/operator/loot", "/home/operator"),
        "\x1b[38;5;9mcrab_trap 🦀:~/loot #\x1b[39m "
    );
    assert_eq!(get_prompt("/tmp", "/home/operator"), "\x1b[38;5;9mcrab_trap 🦀:/tmp #\x1b[39m ");
    assert_eq!(
        get_prompt("/a/b", ""),
        format!(
            "{}crab_trap 🦀:{} #{} ",
            color::Fg(color::LightRed),
            "/a/b".replace("", "~"),
            color::Fg(color::Reset)
        )
    );
}

#[test]
fn menu_knows_its_four_commands() {
    let menu = new();
    assert_eq!(menu.get("l"), Some(MenuCommand::List));
    assert_eq!(menu.get("clear"), Some(MenuCommand::Clear));
    assert_eq!(menu.get("h"), Some(MenuCommand::Help));
    assert_eq!(menu.get("exit"), Some(MenuCommand::Exit));
    assert_eq!(menu.get(""), None);
    assert_eq!(menu.get("L"), None);
    assert_eq!(menu.get("ls"), None);
    assert_eq!(menu.get("exit "), None);
    assert_eq!(menu.get("help"), None);
}

#[test]
fn help_lists_the_commands() {
    assert_eq!(
        help(),
        "l - list the connected shells\nh - display this help message\nclear - clear the display\nexit - quit the program\n"
    );
}

fn shell(action: MenuAction) -> String {
    match action {
        MenuAction::Shell(line) => line,
        _ => panic!("not a shell command"),
    }
}

fn dir(action: MenuAction) -> String {
    match action {
        MenuAction::ChangeDir(path) => path,
        _ => panic!("not a change of directory"),
    }
}

#[test]
fn dispatch_runs_commands_by_name() {
    let menu = new();
    assert!(matches!(dispatch(&menu, "l\n", "/h"), MenuAction::Run(MenuCommand::List)));
    assert!(matches!(dispatch(&menu, "exit  \t\n", "/h"), MenuAction::Run(MenuCommand::Exit)));
    assert!(matches!(dispatch(&menu, "clear", "/h"), MenuAction::Run(MenuCommand::Clear)));
    assert!(matches!(dispatch(&menu, "h\r\n", "/h"), MenuAction::Run(MenuCommand::Help)));
}

#[test]
fn dispatch_hands_other_lines_to_the_shell() {
    let menu = new();
    assert_eq!(shell(dispatch(&menu, "ls -la  \n", "/h")), "ls -la");
    assert_eq!(shell(dispatch(&menu, " l\n", "/h")), " l");
    assert_eq!(shell(dispatch(&menu, "\n", "/h")), "");
    assert_eq!(shell(dispatch(&menu, "", "/h")), "");
    assert_eq!(shell(dispatch(&menu, "cd\n", "/h")), "cd");
    assert_eq!(shell(dispatch(&menu, "cd \n", "/h")), "cd");
    assert_eq!(shell(dispatch(&menu, "cdx y\n", "/h")), "cdx y");
    assert_eq!(shell(dispatch(&menu, "echo ~\n", "/h")), "echo ~");
}

#[test]
fn dispatch_changes_directory_to_the_last_word() {
    let menu = new();
    assert_eq!(dir(dispatch(&menu, "cd /tmp\n", "/home/op")), "/tmp");
    assert_eq!(dir(dispatch(&menu, "cd ~/loot\n", "/home/op")), "/home/op/loot");
    assert_eq!(dir(dispatch(&menu, "cd ~\n", "/home/op")), "/home/op");
    assert_eq!(dir(dispatch(&menu, "cd a b\n", "/home/op")), "b");
    assert_eq!(dir(dispatch(&menu, "cd    x  \n", "/home/op")), "x");
    assert_eq!(dir(dispatch(&menu, "cd ~~\n", "/h")), "/h/h");
    assert_eq!(dir(dispatch(&menu, "cd ~/a\n", "")), "/a");
}

#[test]
fn parse_port_agrees_with_std() {
    for arg in [
        "", "+", "-", "0", "00080", "+80", "++80", "-1", "-0", "65535", "65536", "+65535", "4545",
        " 80", "80 ", "8o", "0x50", "99999999999999999999", "+ 80", "٣", "1_000", "000000000000000065535",
    ] {
        assert_eq!(parse_port(arg), arg.parse::<u16>().ok(), "port argument {:?}", arg);
    }
}

#[test]
fn no_arguments_means_the_default_address() {
    let bind = parse_args(&vec![String::from("crab_trap")]).ok().unwrap();
    assert_eq!(bind.host, "0.0.0.0");
    assert_eq!(bind.port, 4545);
    assert_eq!(DEFAULT_PORT, 4545);
}

#[test]
fn two_arguments_are_host_and_port() {
    let args = vec![String::from("crab_trap"), String::from("127.0.0.1"), String::from("9001")];
    let bind = parse_args(&args).ok().unwrap();
    assert_eq!(bind.host, "127.0.0.1");
    assert_eq!(bind.port, 9001);
}

#[test]
fn invalid_port_is_rejected() {
    let args = vec![String::from("crab_trap"), String::from("127.0.0.1"), String::from("70000")];
    match parse_args(&args) {
        Err(ArgsError::InvalidPort(arg)) => assert_eq!(arg, "70000"),
        _ => panic!("the port was accepted"),
    }
    let args = vec![String::from("crab_trap"), String::from("127.0.0.1"), String::from("http")];
    assert!(matches!(parse_args(&args), Err(ArgsError::InvalidPort(_))));
}

#[test]
fn wrong_number_of_arguments_asks_for_usage() {
    assert!(matches!(parse_args(&vec![]), Err(ArgsError::Usage)));
    assert!(matches!(
        parse_args(&vec![String::from("crab_trap"), String::from("host")]),
        Err(ArgsError::Usage)
    ));
    assert!(matches!(parse_args(&vec![String::from("a"); 4]), Err(ArgsError::Usage)));
}

#[test]
fn usage_names_the_program_twice() {
    assert_eq!(usage("crab_trap"), "Usage: crab_trap OR crab_trap <address> <port>");
}

#[test]
fn input_helpers_differ_in_completion() {
    assert!(InputHelper::new().completer);
    assert!(!InputHelper::new_only_hinter().completer);
    assert_eq!(InputHelper::new().highlight_hint("cd"), "\x1b[38;2;100;100;100mcd\x1b[39m");
}

#[test]
fn same_chars_compares_texts() {
    assert!(same_chars(&vec![], &vec![]));
    assert!(same_chars(&vec!['a', 'b'], &vec!['a', 'b']));
    assert!(!same_chars(&vec!['a', 'b'], &vec!['a', 'c']));
    assert!(!same_chars(&vec!['a'], &vec!['a', 'b']));
}

#[test]
fn listening_notice_names_the_address_in_red() {
    assert_eq!(listening_notice("0.0.0.0", 4545), "\x1b[38;5;9mlistening on 0.0.0.0:4545\x1b[39m");
}
