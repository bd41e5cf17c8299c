//! Client and server front ends.
use graftx::client::protocol_version;
use graftx::protocol::Welcome;
use graftx::tools::cli::{
    parse_command, parse_server_command, print_usage, print_welcome, Command, ServerCommand,
    EXIT_USAGE,
};

fn args(items: &[&str]) -> Vec<String> {
    items.iter().map(|s| (*s).to_owned()).collect()
}

#[test]
fn no_args_prints_usage_and_succeeds() {
    assert_eq!(parse_command(&[]), Command::Usage);
}

#[test]
fn help_succeeds() {
    for flag in ["help", "-h", "--help"] {
        assert_eq!(parse_command(&args(&[flag])), Command::Usage);
    }
}

#[test]
fn unknown_subcommand_is_usage_error() {
    assert_eq!(
        parse_command(&args(&["bogus"])),
        Command::Unknown("bogus".to_owned())
    );
    assert_eq!(EXIT_USAGE, 2);
}

#[test]
fn connect_without_addr_is_usage_error() {
    assert_eq!(parse_command(&args(&["connect"])), Command::MissingAddr);
    assert_eq!(EXIT_USAGE, 2);
}

#[test]
fn usage_banner_carries_protocol_version() {
    let (major, minor) = protocol_version();
    let text = print_usage();
    assert!(text.contains(&format!("protocol {major}.{minor}")));
    assert!(text.contains("connect <addr>"));
}

#[test]
fn welcome_summary_includes_negotiated_fields() {
    let welcome = Welcome {
        proto_major: 3,
        proto_minor: 7,
        features: 0x5,
        max_frame_body: 4096,
        session_id: 42,
    };
    let text = print_welcome("198.51.100.1:7000", &welcome);
    assert!(text.contains("connected to 198.51.100.1:7000"));
    assert!(text.contains("3.7"));
    assert!(text.contains("42"));
    assert!(text.contains("4096"));
}

#[test]
fn connect_takes_the_address() {
    assert_eq!(
        parse_command(&args(&["connect", "127.0.0.1:7000", "extra"])),
        Command::Connect("127.0.0.1:7000".to_owned())
    );
}

#[test]
fn server_serves_an_address_or_reports() {
    assert_eq!(
        parse_server_command(&args(&["serve", "0.0.0.0:7000"])),
        ServerCommand::Serve("0.0.0.0:7000".to_owned())
    );
    assert_eq!(parse_server_command(&args(&["serve"])), ServerCommand::Info);
    assert_eq!(parse_server_command(&args(&["other", "x"])), ServerCommand::Info);
    assert_eq!(parse_server_command(&[]), ServerCommand::Info);
}

#[test]
fn usage_banner_is_exact() {
    assert_eq!(
        print_usage(),
        "graftx \u{2014} GraftX demo client (protocol 0.0)\n\nUSAGE:\n    \
         graftx connect <addr>    connect, handshake, print the Welcome\n    \
         graftx help              show this message\n"
    );
}

#[test]
fn welcome_summary_is_exact() {
    let welcome = Welcome {
        proto_major: 1,
        proto_minor: 0,
        features: 0xAB,
        max_frame_body: 65536,
        session_id: u64::MAX,
    };
    assert_eq!(
        print_welcome("host:1", &welcome),
        "connected to host:1\n  \
         protocol:       1.0\n  \
         session id:     18446744073709551615\n  \
         features:       0x000000ab\n  \
         max frame body: 65536 bytes\n"
    );
}
