//! Front ends of the demo client and the server: what an invocation asks for,
//! and what is printed.
use vstd::prelude::*;

use crate::protocol as proto;
use crate::text;

verus! {

/// Exit code returned for an unknown or malformed invocation.
pub const EXIT_USAGE: u8 = 2;

/// Exit code returned when a `connect` attempt fails (network or handshake).
pub const EXIT_CONNECT: u8 = 1;

/// What an invocation of the demo client asks for.
#[derive(Debug, PartialEq, Eq)]
pub enum Command {
    /// Print the usage and succeed.
    Usage,
    /// Connect to the address, shake hands, and print the `Welcome`.
    Connect(String),
    /// `connect` without an address: a usage error.
    MissingAddr,
    /// An unknown subcommand: a usage error.
    Unknown(String),
}

/// Whether an argument is one of those that ask for the usage.
pub open spec fn asks_usage(arg: Seq<char>) -> bool {
    arg == "help"@ || arg == "-h"@ || arg == "--help"@
}

/// Read an invocation of the demo client.
///
/// `args` is the argument list *without* the program name. The first element
/// selects the subcommand; with no arguments the usage is printed.
pub fn parse_command(args: &[String]) -> (command: Command)
    ensures
        if args@.len() == 0 || asks_usage(args@[0]@) {
            command is Usage
        } else if args@[0]@ == "connect"@ {
            if args@.len() > 1 {
                command matches Command::Connect(addr) && addr@ == args@[1]@
            } else {
                command is MissingAddr
            }
        } else {
            command matches Command::Unknown(other) && other@ == args@[0]@
        },
{
    if args.len() == 0 {
        return Command::Usage;
    }
    let command: &str = args[0].as_str();
    if text::same(command, "help") || text::same(command, "-h") || text::same(command, "--help") {
        return Command::Usage;
    }
    if text::same(command, "connect") {
        if args.len() > 1 {
            return Command::Connect(args[1].clone());
        }
        return Command::MissingAddr;
    }
    Command::Unknown(args[0].clone())
}

/// What an invocation of the server asks for.
#[derive(Debug, PartialEq, Eq)]
pub enum ServerCommand {
    /// Serve on the address.
    Serve(String),
    /// Report build and protocol info.
    Info,
}

/// Read an invocation of the server: `serve` and an address, or anything else
/// for a report.
pub fn parse_server_command(args: &[String]) -> (command: ServerCommand)
    ensures
        if args@.len() > 1 && args@[0]@ == "serve"@ {
            command matches ServerCommand::Serve(addr) && addr@ == args@[1]@
        } else {
            command is Info
        },
{
    if args.len() > 1 && text::same(args[0].as_str(), "serve") {
        return ServerCommand::Serve(args[1].clone());
    }
    ServerCommand::Info
}

/// The connection summary for a `Welcome`.
pub open spec fn welcome_text(addr: Seq<char>, welcome: proto::Welcome) -> Seq<char> {
    "connected to "@ + addr + "\n  protocol:       "@ + text::dec(welcome.proto_major as nat) + "."@
        + text::dec(welcome.proto_minor as nat) + "\n  session id:     "@ + text::dec(
        welcome.session_id as nat,
    ) + "\n  features:       "@ + text::hex_word(welcome.features) + "\n  max frame body: "@
        + text::dec(welcome.max_frame_body as nat) + " bytes\n"@
}

/// Render a [`Welcome`](proto::Welcome) as the connection summary.
pub fn print_welcome(addr: &str, welcome: &proto::Welcome) -> (out: String)
    ensures
        out@ == welcome_text(addr@, *welcome),
{
    let mut out = String::new();
    out.append("connected to ");
    out.append(addr);
    out.append("\n  protocol:       ");
    text::push_dec(&mut out, welcome.proto_major as u64);
    out.append(".");
    text::push_dec(&mut out, welcome.proto_minor as u64);
    out.append("\n  session id:     ");
    text::push_dec(&mut out, welcome.session_id);
    out.append("\n  features:       ");
    text::push_hex_word(&mut out, welcome.features);
    out.append("\n  max frame body: ");
    text::push_dec(&mut out, welcome.max_frame_body as u64);
    out.append(" bytes\n");
    assert(out@ =~= welcome_text(addr@, *welcome));
    out
}

/// The usage banner for a protocol version.
pub open spec fn usage_text(major: u16, minor: u16) -> Seq<char> {
    "graftx \u{2014} GraftX demo client (protocol "@ + text::dec(major as nat) + "."@ + text::dec(
        minor as nat,
    )
        + ")\n\nUSAGE:\n    graftx connect <addr>    connect, handshake, print the Welcome\n    graftx help              show this message\n"@
}

/// Render the usage banner and the protocol version this build speaks.
pub fn print_usage() -> (out: String)
    ensures
        out@ == usage_text(proto::PROTOCOL_MAJOR, proto::PROTOCOL_MINOR),
{
    let (major, minor): (u16, u16) = crate::client::protocol_version();
    let mut out = String::new();
    out.append("graftx \u{2014} GraftX demo client (protocol ");
    text::push_dec(&mut out, major as u64);
    out.append(".");
    text::push_dec(&mut out, minor as u64);
    out.append(")\n\nUSAGE:\n    graftx connect <addr>    connect, handshake, print the Welcome\n    graftx help              show this message\n");
    assert(out@ =~= usage_text(major, minor));
    out
}

/// The connection summary tells what the server has confirmed: the address stands
/// in it, and the numbers read back as the protocol version, the session id, the
/// features and the frame body limit, in this order.
pub proof fn law_welcome_reads_back(addr: Seq<char>, welcome: proto::Welcome)
    ensures
        exists|
            major: Seq<char>,
            minor: Seq<char>,
            id: Seq<char>,
            features: Seq<char>,
            limit: Seq<char>,
        |
            {
                &&& welcome_text(addr, welcome) == "connected to "@ + addr
                    + "\n  protocol:       "@ + major + "."@ + minor + "\n  session id:     "@ + id
                    + "\n  features:       "@ + ("0x"@ + features) + "\n  max frame body: "@
                    + limit + " bytes\n"@
                &&& #[trigger] text::number(major) == Some(welcome.proto_major as nat)
                &&& #[trigger] text::number(minor) == Some(welcome.proto_minor as nat)
                &&& #[trigger] text::number(id) == Some(welcome.session_id as nat)
                &&& #[trigger] text::hex_value(features) == welcome.features
                &&& features.len() == 8
                &&& #[trigger] text::number(limit) == Some(welcome.max_frame_body as nat)
            },
{
    text::law_dec_reads_back(welcome.proto_major as nat);
    text::law_dec_reads_back(welcome.proto_minor as nat);
    text::law_dec_reads_back(welcome.session_id as nat);
    text::law_dec_reads_back(welcome.max_frame_body as nat);
    text::law_hex_word_reads_back(welcome.features);
    let features = choose|word: Seq<char>|
        {
            &&& text::hex_word(welcome.features) == "0x"@ + word
            &&& word.len() == 8
            &&& #[trigger] text::hex_value(word) == welcome.features
        };
    let major = text::dec(welcome.proto_major as nat);
    let minor = text::dec(welcome.proto_minor as nat);
    let id = text::dec(welcome.session_id as nat);
    let limit = text::dec(welcome.max_frame_body as nat);
    assert(text::number(major) == Some(welcome.proto_major as nat) && text::number(minor) == Some(
        welcome.proto_minor as nat,
    ) && text::number(id) == Some(welcome.session_id as nat) && text::number(limit) == Some(
        welcome.max_frame_body as nat,
    ) && text::hex_value(features) == welcome.features);
}

/// The usage names the protocol version: its two numbers read back as they are.
pub proof fn law_usage_reads_back(major: u16, minor: u16)
    ensures
        exists|m: Seq<char>, n: Seq<char>|
            {
                &&& usage_text(major, minor) == "graftx \u{2014} GraftX demo client (protocol "@ + m
                    + "."@ + n
                    + ")\n\nUSAGE:\n    graftx connect <addr>    connect, handshake, print the Welcome\n    graftx help              show this message\n"@
                &&& #[trigger] text::number(m) == Some(major as nat)
                &&& #[trigger] text::number(n) == Some(minor as nat)
            },
{
    text::law_dec_reads_back(major as nat);
    text::law_dec_reads_back(minor as nat);
    let (m, n) = (text::dec(major as nat), text::dec(minor as nat));
    assert(text::number(m) == Some(major as nat) && text::number(n) == Some(minor as nat));
}

/// An invocation of the demo client is read by its first argument: none, or one of
/// the three that ask for it, gives the usage; `connect` takes the argument behind
/// it as the address, whatever comes after, and lacks one if there is none; anything
/// else is unknown, and is named. The server serves on the address behind `serve`,
/// and reports on itself for everything else.
pub proof fn law_invocations_read(
    args: &[String],
    command: Command,
    server: ServerCommand,
    first: Seq<char>,
)
    requires
        call_ensures(parse_command, (args,), command),
        call_ensures(parse_server_command, (args,), server),
        args@.len() > 0 ==> first == args@[0]@,
    ensures
        command is Usage <==> args@.len() == 0 || first == "help"@ || first == "-h"@ || first
            == "--help"@,
        command is Connect <==> args@.len() > 1 && first == "connect"@,
        command matches Command::Connect(addr) ==> addr@ == args@[1]@,
        command is MissingAddr <==> args@.len() == 1 && first == "connect"@,
        command matches Command::Unknown(other) ==> other@ == first,
        server is Serve <==> args@.len() > 1 && first == "serve"@,
        server matches ServerCommand::Serve(addr) ==> addr@ == args@[1]@,
{
    reveal_strlit("help");
    reveal_strlit("-h");
    reveal_strlit("--help");
    reveal_strlit("connect");
    assert("connect"@.len() == 7 && "help"@.len() == 4 && "-h"@.len() == 2 && "--help"@.len() == 6);
}

/// A usage mistake and a connection that cannot be made exit with different codes,
/// and neither with that of success.
pub proof fn law_exit_codes()
    ensures
        EXIT_USAGE == 2,
        EXIT_CONNECT == 1,
{
}

} // verus!
