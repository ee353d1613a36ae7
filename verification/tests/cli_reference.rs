use clap::error::{ContextKind, ContextValue, ErrorKind};
use clap::{Arg, ArgAction, ArgMatches, Command};
use sip_trunk::cli::{version, CallsAction, Cli, CliError, Commands};

fn positional(name: &'static str, value: &'static str) -> Arg {
    Arg::new(name).required(true).value_name(value).action(ArgAction::Set)
}

/// The same command line, defined with clap's builder.
fn reference() -> Command {
    Command::new("sip-trunk")
        .about("Manage SIP trunk calls")
        .version("0.1.0")
        .arg(
            Arg::new("api_url")
                .long("api-url")
                .env("MANAGEMENT_API_URL")
                .default_value("http://localhost:8081")
                .value_name("API_URL")
                .action(ArgAction::Set),
        )
        .arg(
            Arg::new("api_key")
                .long("api-key")
                .env("API_SECRET_KEY")
                .required(true)
                .value_name("API_KEY")
                .action(ArgAction::Set),
        )
        .subcommand(
            Command::new("calls")
                .about("Call-related commands")
                .subcommand_required(true)
                .arg_required_else_help(true)
                .subcommand(Command::new("list").about("List all active calls"))
                .subcommand(Command::new("hangup").about("Hang up a call").arg(positional("id", "ID")))
                .subcommand(Command::new("hold").about("Place a call on hold").arg(positional("id", "ID")))
                .subcommand(
                    Command::new("transfer")
                        .about("Transfer a call to another number")
                        .arg(positional("id", "ID"))
                        .arg(positional("to", "TO")),
                )
                .subcommand(
                    Command::new("outbound")
                        .about("Initiate an outbound call")
                        .arg(Arg::new("from").long("from").required(true).value_name("FROM").action(ArgAction::Set))
                        .arg(positional("to", "TO")),
                ),
        )
        .subcommand_required(true)
        .arg_required_else_help(true)
}

fn text(m: &ArgMatches, id: &str) -> String {
    m.get_one::<String>(id).cloned().unwrap_or_default()
}

fn same_action(m: &ArgMatches, action: &CallsAction) -> bool {
    match m.subcommand() {
        Some(("list", _)) => matches!(action, CallsAction::List),
        Some(("hangup", s)) => matches!(action, CallsAction::Hangup { id } if *id == text(s, "id")),
        Some(("hold", s)) => matches!(action, CallsAction::Hold { id } if *id == text(s, "id")),
        Some(("transfer", s)) => {
            matches!(action, CallsAction::Transfer { id, to } if *id == text(s, "id") && *to == text(s, "to"))
        }
        Some(("outbound", s)) => {
            matches!(action, CallsAction::Outbound { from, to } if *from == text(s, "from") && *to == text(s, "to"))
        }
        _ => false,
    }
}

fn offending(e: &clap::Error, kind: ContextKind) -> Option<String> {
    match e.get(kind) {
        Some(ContextValue::String(s)) => Some(s.clone()),
        _ => None,
    }
}

/// Runs both parsers on `argv` and describes where they disagree.
fn compare(argv: &[&str]) -> Result<(), String> {
    let ours = Cli::parse_with_env(argv, None, None);
    let theirs = reference().try_get_matches_from(argv.to_vec());
    match (theirs, ours) {
        (Ok(m), Ok(cli)) => {
            let Commands::Calls { action } = &cli.command;
            let calls = m.subcommand_matches("calls").ok_or("no calls subcommand")?;
            if text(&m, "api_url") == cli.api_url && text(&m, "api_key") == cli.api_key && same_action(calls, action) {
                Ok(())
            } else {
                Err(format!("different values: {:?}", cli))
            }
        }
        (Err(e), Err(ours)) => {
            let rendered = e.render().to_string();
            let agrees = match (e.kind(), &ours) {
                (ErrorKind::DisplayHelp, CliError::DisplayHelp(t)) => rendered == t.usage(None, None),
                (ErrorKind::DisplayHelpOnMissingArgumentOrSubcommand, CliError::DisplayHelpOnMissing(t)) => {
                    rendered == t.usage(None, None)
                }
                (ErrorKind::DisplayVersion, CliError::DisplayVersion) => rendered == version(),
                (ErrorKind::MissingSubcommand, CliError::MissingSubcommand) => true,
                (ErrorKind::MissingRequiredArgument, CliError::MissingArgument(_)) => true,
                (ErrorKind::ArgumentConflict, CliError::RepeatedOption(_)) => true,
                (ErrorKind::InvalidValue, CliError::MissingValue(_)) => true,
                (ErrorKind::InvalidSubcommand, CliError::UnknownSubcommand(w)) => {
                    offending(&e, ContextKind::InvalidSubcommand).as_deref() == Some(w.as_str())
                }
                (ErrorKind::TooManyValues, CliError::UnexpectedValue(flag)) => {
                    offending(&e, ContextKind::InvalidArg).as_deref() == Some(flag.as_str())
                }
                (ErrorKind::UnknownArgument, CliError::UnexpectedArgument(w)) => {
                    offending(&e, ContextKind::InvalidArg).as_deref() == Some(w.as_str())
                }
                _ => false,
            };
            if agrees {
                Ok(())
            } else {
                Err(format!("clap {:?} {:?} / ours {:?}", e.kind(), rendered, ours))
            }
        }
        (Ok(_), Err(ours)) => Err(format!("clap accepted, ours refused with {:?}", ours)),
        (Err(e), Ok(cli)) => Err(format!("clap refused with {:?}, ours accepted {:?}", e.kind(), cli)),
    }
}

fn check_all(cases: &[&[&str]]) {
    let failures: Vec<String> = cases
        .iter()
        .filter_map(|argv| compare(argv).err().map(|why| format!("{:?}: {}", argv, why)))
        .collect();
    assert!(failures.is_empty(), "{}", failures.join("\n"));
}

#[test]
fn help_and_version_match_clap() {
    check_all(&[
        &["sip-trunk"],
        &["sip-trunk", "--"],
        &["sip-trunk", "--help"],
        &["sip-trunk", "-h"],
        &["sip-trunk", "-hV"],
        &["sip-trunk", "--version"],
        &["sip-trunk", "-V"],
        &["sip-trunk", "help"],
        &["sip-trunk", "help", "calls"],
        &["sip-trunk", "help", "calls", "list"],
        &["sip-trunk", "help", "calls", "hangup"],
        &["sip-trunk", "help", "calls", "hold"],
        &["sip-trunk", "help", "calls", "transfer"],
        &["sip-trunk", "help", "calls", "outbound"],
        &["sip-trunk", "help", "calls", "help"],
        &["sip-trunk", "help", "help"],
        &["sip-trunk", "help", "bogus"],
        &["sip-trunk", "help", "calls", "bogus"],
        &["sip-trunk", "help", "calls", "list", "extra"],
        &["sip-trunk", "help", "help", "calls"],
        &["sip-trunk", "calls"],
        &["sip-trunk", "calls", "--"],
        &["sip-trunk", "calls", "--help"],
        &["sip-trunk", "calls", "-h"],
        &["sip-trunk", "calls", "help"],
        &["sip-trunk", "calls", "help", "outbound"],
        &["sip-trunk", "calls", "help", "help"],
        &["sip-trunk", "calls", "help", "calls"],
        &["sip-trunk", "calls", "list", "--help"],
        &["sip-trunk", "calls", "hangup", "--help"],
        &["sip-trunk", "calls", "hold", "-h"],
        &["sip-trunk", "calls", "transfer", "a", "--help"],
        &["sip-trunk", "calls", "outbound", "--help"],
        &["sip-trunk", "--api-key", "k", "calls"],
        &["sip-trunk", "--api-key", "k", "help", "calls"],
    ]);
}

#[test]
fn parsing_matches_clap() {
    check_all(&[
        &["sip-trunk", "--api-key", "k", "calls", "list"],
        &["sip-trunk", "--api-url", "http://h", "--api-key", "k", "calls", "hangup", "id1"],
        &["sip-trunk", "--api-key=k", "calls", "hold", "id2"],
        &["sip-trunk", "--api-key", "k", "calls", "transfer", "id3", "+1555"],
        &["sip-trunk", "--api-key", "k", "calls", "outbound", "--from", "+1", "+2"],
        &["sip-trunk", "--api-key", "k", "calls", "outbound", "+2", "--from=+1"],
        &["sip-trunk", "--api-key", "k", "calls", "hangup", "--", "-x"],
        &["sip-trunk", "--api-key", "k", "calls", "hangup", "help"],
        &["sip-trunk", "--api-key", "k", "calls", "list", "--"],
        &["sip-trunk", "--api-key", "k"],
        &["sip-trunk", "--api-key", "k", "--"],
        &["sip-trunk", "--api-key", "k", "--", "calls"],
        &["sip-trunk", "--api-key", "k", "--", "other"],
        &["sip-trunk", "--api-key", "k", "calls", "--", "list"],
        &["sip-trunk", "--api-key", "k", "calls", "--", "other"],
        &["sip-trunk", "--api-key", "k", "phones"],
        &["sip-trunk", "--api-key", "k", "calls", "dial"],
        &["sip-trunk", "--api-key"],
        &["sip-trunk", "--api-key", "--help"],
        &["sip-trunk", "--api-key", "--verbose"],
        &["sip-trunk", "--api-key", "--", "calls"],
        &["sip-trunk", "--api-key", "a", "--api-key", "b", "calls", "list"],
        &["sip-trunk", "--api-key", "a", "--api-key", "b", "calls", "--help"],
        &["sip-trunk", "--api-key", "a", "--api-key=b", "calls", "list"],
        &["sip-trunk", "--api-key", "a", "--api-key", "b", "help"],
        &["sip-trunk", "--api-key", "a", "--api-key", "b", "--help"],
        &["sip-trunk", "--api-key", "a", "--api-key", "b"],
        &["sip-trunk", "--verbose", "calls", "list"],
        &["sip-trunk", "calls", "list"],
        &["sip-trunk", "--api-key", "k", "calls", "list", "extra"],
        &["sip-trunk", "--api-key", "k", "calls", "list", "help"],
        &["sip-trunk", "--api-key", "k", "calls", "hangup"],
        &["sip-trunk", "--api-key", "k", "calls", "transfer", "id"],
        &["sip-trunk", "--api-key", "k", "calls", "transfer", "--", "a", "b", "c"],
        &["sip-trunk", "--api-key", "k", "calls", "outbound", "+2"],
        &["sip-trunk", "--api-key", "k", "calls", "outbound", "--from", "+1"],
        &["sip-trunk", "--api-key", "k", "calls", "outbound", "--from"],
        &["sip-trunk", "--api-key", "k", "calls", "outbound", "--from", "--help"],
        &["sip-trunk", "--api-key", "k", "calls", "outbound", "--from", "--", "c"],
        &["sip-trunk", "--api-key", "k", "calls", "outbound", "--from", "a", "--from", "b", "c"],
        &["sip-trunk", "--api-key", "k", "calls", "outbound", "--from", "a", "--from", "b"],
        &["sip-trunk", "--api-key", "k", "calls", "outbound", "--from", "a", "--from=b", "c"],
        &["sip-trunk", "--api-key", "k", "calls", "outbound", "--from", "a", "--", "--help"],
        &["sip-trunk", "--api-key", "k", "calls", "list", "--api-url", "x"],
        &["sip-trunk", "--api-key", "k", "calls", "--version"],
    ]);
}

#[test]
fn unknown_flags_are_named_as_clap_names_them() {
    check_all(&[
        &["sip-trunk", "-xh"],
        &["sip-trunk", "-5"],
        &["sip-trunk", "-"],
        &["sip-trunk", "--bogus=1"],
        &["sip-trunk", "--api-urlx=1"],
        &["sip-trunk", "--help=x"],
        &["sip-trunk", "--version=x"],
        &["sip-trunk", "--api-key", "a", "--api-key", "b", "--help=x"],
        &["sip-trunk", "calls", "-Vh"],
        &["sip-trunk", "calls", "--help="],
        &["sip-trunk", "calls", "--no=1"],
        &["sip-trunk", "calls", "list", "-q"],
        &["sip-trunk", "calls", "list", "--help=1"],
        &["sip-trunk", "calls", "hangup", "--id=3"],
        &["sip-trunk", "calls", "outbound", "--to=3"],
        &["sip-trunk", "calls", "outbound", "--help=3"],
        &["sip-trunk", "calls", "outbound", "--from", "-x"],
        &["sip-trunk", "calls", "outbound", "--from", "a", "--from", "b", "--zz"],
        &["sip-trunk", "--api-key", "k", "calls", "outbound", "--from", "a", "b", "c"],
    ]);
}

