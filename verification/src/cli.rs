//! The admin command line: its grammar, the management API request each
//! command makes, and what is printed once a command succeeded.
//!
//! Grammar (after the program name):
//! `[--api-url <URL>] [--api-key <KEY>] calls <ACTION>` where `<ACTION>` is
//! `list`, `hangup <ID>`, `hold <ID>`, `transfer <ID> <TO>` or
//! `outbound --from <FROM> <TO>`. An option's value follows it as the next
//! word (which must not look like an option) or after `=` in the same word.
//! `--api-url` defaults to the `MANAGEMENT_API_URL` value, then to
//! `http://localhost:8081`; `--api-key` defaults to the `API_SECRET_KEY`
//! value and is otherwise required.
//!
//! Help: `--help`, or a cluster of short flags that starts with `h`, shows the
//! help of the level it stands in; the word `help` where a subcommand is
//! expected shows the help of the level named by the words after it. A level
//! that needs a subcommand and is given none shows its help as a refusal,
//! unless options were given (or came from the environment) at the top level,
//! which is then refused for its missing subcommand. `--version`, or a cluster
//! that starts with `V`, before the subcommand asks for the version.
//!
//! A refusal tied to an option whose value was read as the next word (its
//! value missing, or the option given twice) is raised when the next option
//! or flag of the same level is read, when a subcommand of that level has
//! been read successfully, or at the end; an unknown word or flag before that
//! is refused first, and a `help` subcommand is shown regardless.
use vstd::prelude::*;

use crate::gateway::{route_path, ManagementRoute};
use crate::text::str_equal;

verus! {

/// A call-related command.
#[derive(Debug)]
pub enum CallsAction {
    /// List all active calls.
    List,
    /// Hang up a call.
    Hangup { id: String },
    /// Place a call on hold.
    Hold { id: String },
    /// Transfer a call to another number.
    Transfer { id: String, to: String },
    /// Initiate an outbound call.
    Outbound { from: String, to: String },
}

/// The command groups of the command line.
#[derive(Debug)]
pub enum Commands {
    /// Call-related commands.
    Calls { action: CallsAction },
}

/// A parsed command line.
#[derive(Debug)]
pub struct Cli {
    pub api_url: String,
    pub api_key: String,
    pub command: Commands,
}

/// A call-related command as text.
pub enum ActionModel {
    List,
    Hangup(Seq<char>),
    Hold(Seq<char>),
    Transfer(Seq<char>, Seq<char>),
    Outbound(Seq<char>, Seq<char>),
}

/// A parsed command line as text.
pub struct CliModel {
    pub api_url: Seq<char>,
    pub api_key: Seq<char>,
    pub action: ActionModel,
}

impl View for CallsAction {
    type V = ActionModel;

    open spec fn view(&self) -> ActionModel {
        match self {
            CallsAction::List => ActionModel::List,
            CallsAction::Hangup { id } => ActionModel::Hangup(id@),
            CallsAction::Hold { id } => ActionModel::Hold(id@),
            CallsAction::Transfer { id, to } => ActionModel::Transfer(id@, to@),
            CallsAction::Outbound { from, to } => ActionModel::Outbound(from@, to@),
        }
    }
}

impl View for Cli {
    type V = CliModel;

    open spec fn view(&self) -> CliModel {
        CliModel {
            api_url: self.api_url@,
            api_key: self.api_key@,
            action: match self.command {
                Commands::Calls { action } => action@,
            },
        }
    }
}

/// Why a command line was refused, or what it asks to be shown instead.
#[derive(Debug)]
pub enum CliError {
    /// A required option or argument is absent.
    MissingArgument(String),
    /// An option is given without a value.
    MissingValue(String),
    /// An option is given more than once.
    RepeatedOption(String),
    /// A word that fits nowhere; for a flag, the flag it names.
    UnexpectedArgument(String),
    /// A value attached with `=` to a flag that takes none.
    UnexpectedValue(String),
    /// Options were given but the subcommand is missing.
    MissingSubcommand,
    /// A word where a subcommand is expected, but not a known one.
    UnknownSubcommand(String),
    /// Help was asked for: print the help of this level to standard output
    /// and stop successfully.
    DisplayHelp(HelpTopic),
    /// A level that needs a subcommand was given nothing: print its help to
    /// standard error and stop with a failure.
    DisplayHelpOnMissing(HelpTopic),
    /// The version was asked for: print it and stop successfully.
    DisplayVersion,
}

/// A level of the command line, for its help text.
#[derive(Debug, Clone, Copy, PartialEq, Eq, Structural)]
pub enum HelpTopic {
    Top,
    Calls,
    List,
    Hangup,
    Hold,
    Transfer,
    Outbound,
    /// The `help` subcommand of the top level.
    Help,
    /// The `help` subcommand of `calls`.
    CallsHelp,
}

/// A refusal as text.
pub enum Fault {
    MissingArgument(Seq<char>),
    MissingValue(Seq<char>),
    RepeatedOption(Seq<char>),
    UnexpectedArgument(Seq<char>),
    UnexpectedValue(Seq<char>),
    MissingSubcommand,
    UnknownSubcommand(Seq<char>),
    DisplayHelp(HelpTopic),
    DisplayHelpOnMissing(HelpTopic),
    DisplayVersion,
}

impl View for CliError {
    type V = Fault;

    open spec fn view(&self) -> Fault {
        match self {
            CliError::MissingArgument(s) => Fault::MissingArgument(s@),
            CliError::MissingValue(s) => Fault::MissingValue(s@),
            CliError::RepeatedOption(s) => Fault::RepeatedOption(s@),
            CliError::UnexpectedArgument(s) => Fault::UnexpectedArgument(s@),
            CliError::UnexpectedValue(s) => Fault::UnexpectedValue(s@),
            CliError::MissingSubcommand => Fault::MissingSubcommand,
            CliError::UnknownSubcommand(s) => Fault::UnknownSubcommand(s@),
            CliError::DisplayHelp(t) => Fault::DisplayHelp(*t),
            CliError::DisplayHelpOnMissing(t) => Fault::DisplayHelpOnMissing(*t),
            CliError::DisplayVersion => Fault::DisplayVersion,
        }
    }
}

/// The words of a command line.
pub open spec fn words(args: Seq<&str>) -> Seq<Seq<char>> {
    args.map_values(|a: &str| a@)
}

/// A word that is read as an option rather than a value: `-` followed by more.
pub open spec fn is_flag_like(t: Seq<char>) -> bool {
    t.len() > 1 && t[0] == '-'
}

/// Reads option `name` at word `i`: `None` when the word is not that option;
/// `Some(None)` when its value is missing; otherwise its value and the
/// position after it (`i + 1` when the value came after `=`).
pub open spec fn read_option(w: Seq<Seq<char>>, i: int, name: Seq<char>) -> Option<
    Option<(Seq<char>, int)>,
> {
    let t = w[i];
    if t == name {
        if i + 1 < w.len() && !is_flag_like(w[i + 1]) {
            Some(Some((w[i + 1], i + 2)))
        } else {
            Some(None)
        }
    } else if t.len() > name.len() && t.subrange(0, name.len() as int) == name && t[name.len() as int]
        == '=' {
        Some(Some((t.subrange(name.len() as int + 1, t.len() as int), i + 1)))
    } else {
        None
    }
}

/// `--help`, or a cluster of short flags whose first is `h`.
pub open spec fn is_help(t: Seq<char>) -> bool {
    t == "--help"@ || (t.len() >= 2 && t[0] == '-' && t[1] == 'h')
}

/// `--version`, or a cluster of short flags whose first is `V`.
pub open spec fn is_version(t: Seq<char>) -> bool {
    t == "--version"@ || (t.len() >= 2 && t[0] == '-' && t[1] == 'V')
}

/// `t` is the flag `name` with a value attached after `=`.
pub open spec fn attached(t: Seq<char>, name: Seq<char>) -> bool {
    t.len() > name.len() && t.subrange(0, name.len() as int) == name && t[name.len() as int] == '='
}

/// Where the name of a long flag ends: at the first `=` from `i` on, or at
/// the end of the word.
pub open spec fn name_end(t: Seq<char>, i: int) -> int
    decreases t.len() - i,
{
    if i >= t.len() {
        t.len() as int
    } else if t[i] == '=' {
        i
    } else {
        name_end(t, i + 1)
    }
}

/// The flag that a flag-like word names: a long flag up to its `=`, or the
/// first flag of a cluster of short flags.
pub open spec fn flag_named(t: Seq<char>) -> Seq<char> {
    if t[1] == '-' {
        t.subrange(0, name_end(t, 2))
    } else {
        t.subrange(0, 2)
    }
}

/// The level that the word `t` names below `topic`, if `topic` has such a
/// subcommand: `calls` and `help` at the top; the five actions and `help`
/// under `calls`.
pub open spec fn subcommand_of(topic: HelpTopic, t: Seq<char>) -> Option<HelpTopic> {
    match topic {
        HelpTopic::Top => if t == "calls"@ {
            Some(HelpTopic::Calls)
        } else if t == "help"@ {
            Some(HelpTopic::Help)
        } else {
            None
        },
        HelpTopic::Calls => if t == "list"@ {
            Some(HelpTopic::List)
        } else if t == "hangup"@ {
            Some(HelpTopic::Hangup)
        } else if t == "hold"@ {
            Some(HelpTopic::Hold)
        } else if t == "transfer"@ {
            Some(HelpTopic::Transfer)
        } else if t == "outbound"@ {
            Some(HelpTopic::Outbound)
        } else if t == "help"@ {
            Some(HelpTopic::CallsHelp)
        } else {
            None
        },
        _ => None,
    }
}

/// What `help` followed by the words from `i` on shows, starting at the level
/// `topic`: each word names a subcommand of the level before it.
pub open spec fn help_for(w: Seq<Seq<char>>, i: int, topic: HelpTopic) -> Fault
    decreases w.len() - i,
{
    if i < 0 || i >= w.len() {
        Fault::DisplayHelp(topic)
    } else {
        match subcommand_of(topic, w[i]) {
            Some(next) => help_for(w, i + 1, next),
            None => Fault::UnknownSubcommand(w[i]),
        }
    }
}

/// The refusal of word `t` after `--` where a subcommand of `topic` is
/// expected: a subcommand's name is out of place there, any other word is
/// no subcommand.
pub open spec fn after_separator(topic: HelpTopic, t: Seq<char>) -> Fault {
    if subcommand_of(topic, t) is Some {
        Fault::UnexpectedArgument(t)
    } else {
        Fault::UnknownSubcommand(t)
    }
}

/// The refusal `pending` if there is one, else `f`.
pub open spec fn raise(pending: Option<Fault>, f: Fault) -> Fault {
    match pending {
        Some(p) => p,
        None => f,
    }
}

/// The positional words from `i` on, at most `n` of them, of the action whose
/// help is `topic`. After `--` every word is positional.
pub open spec fn positionals(w: Seq<Seq<char>>, i: int, n: nat, topic: HelpTopic) -> Result<
    Seq<Seq<char>>,
    Fault,
>
    decreases w.len() - i,
{
    if i < 0 || i >= w.len() {
        Ok(seq![])
    } else if w[i] == "--"@ {
        raw_positionals(w, i + 1, n)
    } else if is_help(w[i]) {
        Err(Fault::DisplayHelp(topic))
    } else if attached(w[i], "--help"@) {
        Err(Fault::UnexpectedValue("--help"@))
    } else if is_flag_like(w[i]) {
        Err(Fault::UnexpectedArgument(flag_named(w[i])))
    } else if n == 0 {
        Err(Fault::UnexpectedArgument(w[i]))
    } else {
        match positionals(w, i + 1, (n - 1) as nat, topic) {
            Ok(rest) => Ok(seq![w[i]] + rest),
            Err(f) => Err(f),
        }
    }
}

/// The words from `i` on, all positional, at most `n` of them.
pub open spec fn raw_positionals(w: Seq<Seq<char>>, i: int, n: nat) -> Result<Seq<Seq<char>>, Fault>
    decreases w.len() - i,
{
    if i < 0 || i >= w.len() {
        Ok(seq![])
    } else if n == 0 {
        Err(Fault::UnexpectedArgument(w[i]))
    } else {
        match raw_positionals(w, i + 1, (n - 1) as nat) {
            Ok(rest) => Ok(seq![w[i]] + rest),
            Err(f) => Err(f),
        }
    }
}

/// The end of `outbound`'s words: the pending refusal if any, else what was read.
pub open spec fn outbound_end(
    from: Option<Seq<char>>,
    to: Option<Seq<char>>,
    pending: Option<Fault>,
) -> Result<(Option<Seq<char>>, Option<Seq<char>>), Fault> {
    match pending {
        Some(p) => Err(p),
        None => Ok((from, to)),
    }
}

/// The `--from` option and the `<TO>` argument of `outbound`, from word `i`
/// on, with the refusal `pending` not raised yet.
pub open spec fn outbound_args(
    w: Seq<Seq<char>>,
    i: int,
    from: Option<Seq<char>>,
    to: Option<Seq<char>>,
    pending: Option<Fault>,
) -> Result<(Option<Seq<char>>, Option<Seq<char>>), Fault>
    decreases w.len() - i,
{
    if i < 0 || i >= w.len() {
        outbound_end(from, to, pending)
    } else if read_option(w, i, "--from"@) is Some {
        if pending is Some {
            Err(pending->0)
        } else {
            match read_option(w, i, "--from"@) {
                Some(Some((v, next))) => if from is None {
                    outbound_args(w, next, Some(v), to, None)
                } else if next == i + 1 {
                    Err(Fault::RepeatedOption("--from"@))
                } else {
                    outbound_args(w, next, from, to, Some(Fault::RepeatedOption("--from"@)))
                },
                _ => outbound_args(w, i + 1, from, to, Some(Fault::MissingValue("--from"@))),
            }
        }
    } else if w[i] == "--"@ {
        raw_outbound(w, i + 1, from, to, pending)
    } else if is_help(w[i]) {
        Err(raise(pending, Fault::DisplayHelp(HelpTopic::Outbound)))
    } else if attached(w[i], "--help"@) {
        Err(Fault::UnexpectedValue("--help"@))
    } else if is_flag_like(w[i]) {
        Err(Fault::UnexpectedArgument(flag_named(w[i])))
    } else if to is Some {
        Err(Fault::UnexpectedArgument(w[i]))
    } else if pending is Some {
        Err(pending->0)
    } else {
        outbound_args(w, i + 1, from, Some(w[i]), None)
    }
}

/// The rest of `outbound` after `--`: every word is the `<TO>` argument.
pub open spec fn raw_outbound(
    w: Seq<Seq<char>>,
    i: int,
    from: Option<Seq<char>>,
    to: Option<Seq<char>>,
    pending: Option<Fault>,
) -> Result<(Option<Seq<char>>, Option<Seq<char>>), Fault>
    decreases w.len() - i,
{
    if i < 0 || i >= w.len() {
        outbound_end(from, to, pending)
    } else if to is Some {
        Err(Fault::UnexpectedArgument(w[i]))
    } else if pending is Some {
        Err(pending->0)
    } else {
        raw_outbound(w, i + 1, from, Some(w[i]), None)
    }
}

/// The action after `calls`, at word `i`.
pub open spec fn calls_level(w: Seq<Seq<char>>, i: int) -> Result<ActionModel, Fault> {
    if i < 0 || i >= w.len() {
        Err(Fault::DisplayHelpOnMissing(HelpTopic::Calls))
    } else if w[i] == "list"@ {
        match positionals(w, i + 1, 0, HelpTopic::List) {
            Ok(_) => Ok(ActionModel::List),
            Err(f) => Err(f),
        }
    } else if w[i] == "hangup"@ || w[i] == "hold"@ {
        match positionals(
            w,
            i + 1,
            1,
            if w[i] == "hangup"@ {
                HelpTopic::Hangup
            } else {
                HelpTopic::Hold
            },
        ) {
            Ok(p) => if p.len() < 1 {
                Err(Fault::MissingArgument("<ID>"@))
            } else if w[i] == "hangup"@ {
                Ok(ActionModel::Hangup(p[0]))
            } else {
                Ok(ActionModel::Hold(p[0]))
            },
            Err(f) => Err(f),
        }
    } else if w[i] == "transfer"@ {
        match positionals(w, i + 1, 2, HelpTopic::Transfer) {
            Ok(p) => if p.len() < 1 {
                Err(Fault::MissingArgument("<ID>"@))
            } else if p.len() < 2 {
                Err(Fault::MissingArgument("<TO>"@))
            } else {
                Ok(ActionModel::Transfer(p[0], p[1]))
            },
            Err(f) => Err(f),
        }
    } else if w[i] == "outbound"@ {
        match outbound_args(w, i + 1, None, None, None) {
            Ok((from, to)) => match (from, to) {
                (None, _) => Err(Fault::MissingArgument("--from"@)),
                (Some(_), None) => Err(Fault::MissingArgument("<TO>"@)),
                (Some(f), Some(t)) => Ok(ActionModel::Outbound(f, t)),
            },
            Err(f) => Err(f),
        }
    } else if w[i] == "help"@ {
        Err(help_for(w, i + 1, HelpTopic::Calls))
    } else if is_help(w[i]) {
        Err(Fault::DisplayHelp(HelpTopic::Calls))
    } else if w[i] == "--"@ {
        if i + 1 < w.len() {
            Err(after_separator(HelpTopic::Calls, w[i + 1]))
        } else {
            Err(Fault::DisplayHelpOnMissing(HelpTopic::Calls))
        }
    } else if attached(w[i], "--help"@) {
        Err(Fault::UnexpectedValue("--help"@))
    } else if is_flag_like(w[i]) {
        Err(Fault::UnexpectedArgument(flag_named(w[i])))
    } else {
        Err(Fault::UnknownSubcommand(w[i]))
    }
}

/// The refusal of a top level without a subcommand: its help, unless an
/// option was given or came from the environment.
pub open spec fn no_subcommand(given: bool) -> Fault {
    if given {
        Fault::MissingSubcommand
    } else {
        Fault::DisplayHelpOnMissing(HelpTopic::Top)
    }
}

/// The options before the subcommand, from word `i` on, and the action, with
/// the refusal `pending` not raised yet; `env_given` tells whether the
/// environment gave either option a value.
pub open spec fn top_level(
    w: Seq<Seq<char>>,
    i: int,
    url: Option<Seq<char>>,
    key: Option<Seq<char>>,
    pending: Option<Fault>,
    env_given: bool,
) -> Result<(Option<Seq<char>>, Option<Seq<char>>, ActionModel), Fault>
    decreases w.len() - i,
{
    if i < 0 || i >= w.len() {
        Err(raise(pending, no_subcommand(url is Some || key is Some || env_given)))
    } else if read_option(w, i, "--api-url"@) is Some {
        if pending is Some {
            Err(pending->0)
        } else {
            match read_option(w, i, "--api-url"@) {
                Some(Some((v, next))) => if url is None {
                    top_level(w, next, Some(v), key, None, env_given)
                } else if next == i + 1 {
                    Err(Fault::RepeatedOption("--api-url"@))
                } else {
                    top_level(w, next, url, key, Some(Fault::RepeatedOption("--api-url"@)), env_given)
                },
                _ => top_level(w, i + 1, url, key, Some(Fault::MissingValue("--api-url"@)), env_given),
            }
        }
    } else if read_option(w, i, "--api-key"@) is Some {
        if pending is Some {
            Err(pending->0)
        } else {
            match read_option(w, i, "--api-key"@) {
                Some(Some((v, next))) => if key is None {
                    top_level(w, next, url, Some(v), None, env_given)
                } else if next == i + 1 {
                    Err(Fault::RepeatedOption("--api-key"@))
                } else {
                    top_level(w, next, url, key, Some(Fault::RepeatedOption("--api-key"@)), env_given)
                },
                _ => top_level(w, i + 1, url, key, Some(Fault::MissingValue("--api-key"@)), env_given),
            }
        }
    } else if is_help(w[i]) {
        Err(raise(pending, Fault::DisplayHelp(HelpTopic::Top)))
    } else if is_version(w[i]) {
        Err(raise(pending, Fault::DisplayVersion))
    } else if w[i] == "--"@ {
        if i + 1 < w.len() {
            Err(after_separator(HelpTopic::Top, w[i + 1]))
        } else {
            Err(raise(pending, no_subcommand(url is Some || key is Some || env_given)))
        }
    } else if w[i] == "help"@ {
        Err(help_for(w, i + 1, HelpTopic::Top))
    } else if w[i] == "calls"@ {
        match calls_level(w, i + 1) {
            Ok(a) => match pending {
                Some(p) => Err(p),
                None => Ok((url, key, a)),
            },
            Err(f) => Err(f),
        }
    } else if attached(w[i], "--help"@) {
        Err(Fault::UnexpectedValue("--help"@))
    } else if attached(w[i], "--version"@) {
        Err(Fault::UnexpectedValue("--version"@))
    } else if is_flag_like(w[i]) {
        Err(Fault::UnexpectedArgument(flag_named(w[i])))
    } else {
        Err(Fault::UnknownSubcommand(w[i]))
    }
}

/// The command line `w` (program name first) with the environment's
/// `MANAGEMENT_API_URL` and `API_SECRET_KEY` values.
pub open spec fn parse_model(
    w: Seq<Seq<char>>,
    env_api_url: Option<Seq<char>>,
    env_api_key: Option<Seq<char>>,
) -> Result<CliModel, Fault> {
    match top_level(w, 1, None, None, None, env_api_url is Some || env_api_key is Some) {
        Err(f) => Err(f),
        Ok((url, key, action)) => {
            let api_key = if key is Some {
                key
            } else {
                env_api_key
            };
            let api_url = if url is Some {
                url->0
            } else if env_api_url is Some {
                env_api_url->0
            } else {
                "http://localhost:8081"@
            };
            match api_key {
                None => Err(Fault::MissingArgument("--api-key"@)),
                Some(k) => Ok(CliModel { api_url, api_key: k, action }),
            }
        },
    }
}

/// The word `t` gives the option `name`, its value following or attached.
pub open spec fn names_option(t: Seq<char>, name: Seq<char>) -> bool {
    t == name || attached(t, name)
}

/// No word of the command line after the program name gives the option `name`.
pub open spec fn option_absent(w: Seq<Seq<char>>, name: Seq<char>) -> bool {
    forall|j: int| 1 <= j < w.len() ==> !names_option(#[trigger] w[j], name)
}

/// Reading the top level never sets `--api-url` from words that do not give it.
proof fn lemma_url_kept(
    w: Seq<Seq<char>>,
    i: int,
    url: Option<Seq<char>>,
    key: Option<Seq<char>>,
    pending: Option<Fault>,
    env_given: bool,
)
    requires
        forall|j: int| i <= j < w.len() ==> !names_option(#[trigger] w[j], "--api-url"@),
    ensures
        top_level(w, i, url, key, pending, env_given) matches Ok((u, _, _)) ==> u == url,
    decreases w.len() - i,
{
    if 0 <= i < w.len() {
        assert(!names_option(w[i], "--api-url"@));
        match read_option(w, i, "--api-key"@) {
            Some(Some((v, next))) => {
                lemma_url_kept(w, next, url, Some(v), None, env_given);
                lemma_url_kept(w, next, url, key, Some(Fault::RepeatedOption("--api-key"@)), env_given);
            },
            Some(None) => {
                lemma_url_kept(w, i + 1, url, key, Some(Fault::MissingValue("--api-key"@)), env_given);
            },
            None => {},
        }
    }
}

/// Reading the top level never sets `--api-key` from words that do not give it.
proof fn lemma_key_kept(
    w: Seq<Seq<char>>,
    i: int,
    url: Option<Seq<char>>,
    key: Option<Seq<char>>,
    pending: Option<Fault>,
    env_given: bool,
)
    requires
        forall|j: int| i <= j < w.len() ==> !names_option(#[trigger] w[j], "--api-key"@),
    ensures
        top_level(w, i, url, key, pending, env_given) matches Ok((_, k, _)) ==> k == key,
    decreases w.len() - i,
{
    if 0 <= i < w.len() {
        assert(!names_option(w[i], "--api-key"@));
        match read_option(w, i, "--api-url"@) {
            Some(Some((v, next))) => {
                lemma_key_kept(w, next, Some(v), key, None, env_given);
                lemma_key_kept(w, next, url, key, Some(Fault::RepeatedOption("--api-url"@)), env_given);
            },
            Some(None) => {
                lemma_key_kept(w, i + 1, url, key, Some(Fault::MissingValue("--api-url"@)), env_given);
            },
            None => {},
        }
    }
}

/// An option absent from the command line takes its environment value: a
/// parsed command line without `--api-url` has the `MANAGEMENT_API_URL` value
/// as its URL (`http://localhost:8081` when that is unset), whatever else the
/// line holds; one without `--api-key` has the `API_SECRET_KEY` value as its key.
pub proof fn law_environment_fills_absent_options(
    w: Seq<Seq<char>>,
    env_api_url: Option<Seq<char>>,
    env_api_key: Option<Seq<char>>,
)
    ensures
        parse_model(w, env_api_url, env_api_key) matches Ok(m) ==> (option_absent(w, "--api-url"@)
            ==> m.api_url == match env_api_url {
            Some(u) => u,
            None => "http://localhost:8081"@,
        }),
        parse_model(w, env_api_url, env_api_key) matches Ok(m) ==> (option_absent(w, "--api-key"@)
            ==> env_api_key == Some(m.api_key)),
{
    let env_given = env_api_url is Some || env_api_key is Some;
    if option_absent(w, "--api-url"@) {
        lemma_url_kept(w, 1, None, None, None, env_given);
    }
    if option_absent(w, "--api-key"@) {
        lemma_key_kept(w, 1, None, None, None, env_given);
    }
}

/// `r` is the outcome that `m` describes.
pub open spec fn parsed_as<T: View, E: View<V = Fault>>(r: Result<T, E>, m: Result<T::V, Fault>) -> bool {
    match (r, m) {
        (Ok(v), Ok(mv)) => v@ == mv,
        (Err(e), Err(f)) => e@ == f,
        _ => false,
    }
}

/// What reading an option at one word gave.
enum OptionRead {
    NotThis,
    Missing,
    Value(String, usize),
}

pub open spec fn seq_opt(o: Option<String>) -> Option<Seq<char>> {
    match o {
        Some(s) => Some(s@),
        None => None,
    }
}

/// The refusal held back, as text.
pub open spec fn fault_opt(o: Option<CliError>) -> Option<Fault> {
    match o {
        Some(e) => Some(e@),
        None => None,
    }
}

fn flag_like(t: &str) -> (b: bool)
    ensures
        b == is_flag_like(t@),
{
    let n = t.unicode_len();
    n > 1 && t.get_char(0) == '-'
}

fn read_option_at(args: &[&str], i: usize, name: &str) -> (r: OptionRead)
    requires
        i < args@.len(),
        args@.len() < usize::MAX,
    ensures
        match read_option(words(args@), i as int, name@) {
            None => r is NotThis,
            Some(None) => r is Missing,
            Some(Some((v, next))) => r matches OptionRead::Value(s, n) && s@ == v && n == next,
        },
{
    let t = args[i];
    let n = name.unicode_len();
    let len = t.unicode_len();
    assert(words(args@)[i as int] == t@);
    if str_equal(t, name) {
        if i + 1 < args.len() && !flag_like(args[i + 1]) {
            assert(words(args@)[i + 1] == args@[i + 1]@);
            OptionRead::Value(String::from_str(args[i + 1]), i + 2)
        } else {
            if i + 1 < args.len() {
                assert(words(args@)[i + 1] == args@[i + 1]@);
            }
            OptionRead::Missing
        }
    } else if len > n && str_equal(t.substring_char(0, n), name) && t.get_char(n) == '=' {
        OptionRead::Value(String::from_str(t.substring_char(n + 1, len)), i + 1)
    } else {
        OptionRead::NotThis
    }
}

fn unexpected(t: &str) -> (e: CliError)
    ensures
        e@ == Fault::UnexpectedArgument(t@),
{
    CliError::UnexpectedArgument(String::from_str(t))
}

/// The refusal of an unknown flag, by the flag it names.
fn unknown_flag(t: &str) -> (e: CliError)
    requires
        is_flag_like(t@),
    ensures
        e@ == Fault::UnexpectedArgument(flag_named(t@)),
{
    let len = t.unicode_len();
    if t.get_char(1) == '-' {
        let mut j: usize = 2;
        while j < len && t.get_char(j) != '='
            invariant
                len == t@.len(),
                2 <= j <= len,
                name_end(t@, 2) == name_end(t@, j as int),
            decreases len - j,
        {
            j = j + 1;
        }
        CliError::UnexpectedArgument(String::from_str(t.substring_char(0, j)))
    } else {
        CliError::UnexpectedArgument(String::from_str(t.substring_char(0, 2)))
    }
}

/// Whether `t` is the flag `name` with a value attached after `=`.
fn has_attached(t: &str, name: &str) -> (b: bool)
    ensures
        b == attached(t@, name@),
{
    let n = name.unicode_len();
    let len = t.unicode_len();
    len > n && str_equal(t.substring_char(0, n), name) && t.get_char(n) == '='
}

/// The refusal of a value attached to the flag `name`.
fn value_refused(name: &str) -> (e: CliError)
    ensures
        e@ == Fault::UnexpectedValue(name@),
{
    CliError::UnexpectedValue(String::from_str(name))
}

fn named(kind: u8, name: &str) -> (e: CliError)
    requires
        kind < 3,
    ensures
        e@ == if kind == 0 {
            Fault::MissingArgument(name@)
        } else if kind == 1 {
            Fault::MissingValue(name@)
        } else {
            Fault::RepeatedOption(name@)
        },
{
    if kind == 0 {
        CliError::MissingArgument(String::from_str(name))
    } else if kind == 1 {
        CliError::MissingValue(String::from_str(name))
    } else {
        CliError::RepeatedOption(String::from_str(name))
    }
}

fn starts_cluster(t: &str, c: char) -> (b: bool)
    ensures
        b == (t@.len() >= 2 && t@[0] == '-' && t@[1] == c),
{
    t.unicode_len() >= 2 && t.get_char(0) == '-' && t.get_char(1) == c
}

fn help_word(t: &str) -> (b: bool)
    ensures
        b == is_help(t@),
{
    str_equal(t, "--help") || starts_cluster(t, 'h')
}

fn version_word(t: &str) -> (b: bool)
    ensures
        b == is_version(t@),
{
    str_equal(t, "--version") || starts_cluster(t, 'V')
}

/// The pending refusal if there is one, else `e`.
fn raise_pending(pending: Option<CliError>, e: CliError) -> (r: CliError)
    ensures
        r@ == raise(fault_opt(pending), e@),
{
    match pending {
        Some(p) => p,
        None => e,
    }
}

/// The level that `t` names below `topic`.
fn subcommand_named(topic: HelpTopic, t: &str) -> (r: Option<HelpTopic>)
    ensures
        r == subcommand_of(topic, t@),
{
    match topic {
        HelpTopic::Top => if str_equal(t, "calls") {
            Some(HelpTopic::Calls)
        } else if str_equal(t, "help") {
            Some(HelpTopic::Help)
        } else {
            None
        },
        HelpTopic::Calls => if str_equal(t, "list") {
            Some(HelpTopic::List)
        } else if str_equal(t, "hangup") {
            Some(HelpTopic::Hangup)
        } else if str_equal(t, "hold") {
            Some(HelpTopic::Hold)
        } else if str_equal(t, "transfer") {
            Some(HelpTopic::Transfer)
        } else if str_equal(t, "outbound") {
            Some(HelpTopic::Outbound)
        } else if str_equal(t, "help") {
            Some(HelpTopic::CallsHelp)
        } else {
            None
        },
        _ => None,
    }
}

/// What `help` followed by the words from `start` on shows, from `topic` down.
fn help_request(args: &[&str], start: usize, topic: HelpTopic) -> (e: CliError)
    requires
        args@.len() < usize::MAX,
    ensures
        e@ == help_for(words(args@), start as int, topic),
{
    let ghost w = words(args@);
    let mut i: usize = start;
    let mut level = topic;
    while i < args.len()
        invariant
            w == words(args@),
            args@.len() < usize::MAX,
            help_for(w, start as int, topic) == help_for(w, i as int, level),
        decreases args@.len() - i,
    {
        let t = args[i];
        assert(w[i as int] == t@);
        match subcommand_named(level, t) {
            Some(next) => {
                level = next;
                i = i + 1;
            },
            None => {
                return CliError::UnknownSubcommand(String::from_str(t));
            },
        }
    }
    CliError::DisplayHelp(level)
}

/// The refusal of `t` after `--` where a subcommand of `topic` is expected.
fn separator_error(topic: HelpTopic, t: &str) -> (e: CliError)
    ensures
        e@ == after_separator(topic, t@),
{
    match subcommand_named(topic, t) {
        Some(_) => unexpected(t),
        None => CliError::UnknownSubcommand(String::from_str(t)),
    }
}

/// The spec of the positional words from `i` on, in raw mode after `--` or not.
pub open spec fn positionals_from(
    w: Seq<Seq<char>>,
    i: int,
    n: nat,
    topic: HelpTopic,
    raw: bool,
) -> Result<Seq<Seq<char>>, Fault> {
    if raw {
        raw_positionals(w, i, n)
    } else {
        positionals(w, i, n, topic)
    }
}

/// The positional words from `start` on, at most `n` of them.
fn collect_positionals(args: &[&str], start: usize, n: usize, topic: HelpTopic) -> (r: Result<
    Vec<String>,
    CliError,
>)
    requires
        args@.len() < usize::MAX,
    ensures
        match (r, positionals(words(args@), start as int, n as nat, topic)) {
            (Ok(v), Ok(p)) => v@.map_values(|s: String| s@) == p,
            (Err(e), Err(f)) => e@ == f,
            _ => false,
        },
{
    let ghost w = words(args@);
    let mut found: Vec<String> = Vec::new();
    let mut i: usize = start;
    let mut raw = false;
    if i > args.len() {
        i = args.len();
        assert(positionals(w, start as int, n as nat, topic) == Ok::<Seq<Seq<char>>, Fault>(
            seq![],
        ));
    }
    while i < args.len()
        invariant
            w == words(args@),
            args@.len() < usize::MAX,
            i <= args@.len(),
            found.len() <= n,
            positionals(w, start as int, n as nat, topic) == (match positionals_from(
                w,
                i as int,
                (n - found.len()) as nat,
                topic,
                raw,
            ) {
                Ok(rest) => Ok(found@.map_values(|s: String| s@) + rest),
                Err(f) => Err(f),
            }),
        decreases args@.len() - i,
    {
        let t = args[i];
        assert(w[i as int] == t@);
        if !raw {
            if str_equal(t, "--") {
                raw = true;
                i = i + 1;
                continue ;
            }
            if help_word(t) {
                return Err(CliError::DisplayHelp(topic));
            }
            if has_attached(t, "--help") {
                return Err(value_refused("--help"));
            }
            if flag_like(t) {
                return Err(unknown_flag(t));
            }
        }
        if found.len() == n {
            return Err(unexpected(t));
        }
        let ghost before = found@.map_values(|s: String| s@);
        found.push(String::from_str(t));
        proof {
            assert(found@.map_values(|s: String| s@) =~= before + seq![t@]);
            match positionals_from(w, i + 1, (n - found.len()) as nat, topic, raw) {
                Ok(rest) => {
                    assert(before + (seq![t@] + rest) =~= (before + seq![t@]) + rest);
                },
                Err(_) => {},
            }
        }
        i = i + 1;
    }
    proof {
        assert(found@.map_values(|s: String| s@) + seq![] =~= found@.map_values(|s: String| s@));
    }
    Ok(found)
}

/// The spec of `outbound`'s words from `i` on, in raw mode after `--` or not.
pub open spec fn outbound_from(
    w: Seq<Seq<char>>,
    i: int,
    from: Option<Seq<char>>,
    to: Option<Seq<char>>,
    pending: Option<Fault>,
    raw: bool,
) -> Result<(Option<Seq<char>>, Option<Seq<char>>), Fault> {
    if raw {
        raw_outbound(w, i, from, to, pending)
    } else {
        outbound_args(w, i, from, to, pending)
    }
}

/// The `--from` option and the `<TO>` argument of `outbound`, from `start` on.
fn collect_outbound(args: &[&str], start: usize) -> (r: Result<
    (Option<String>, Option<String>),
    CliError,
>)
    requires
        args@.len() < usize::MAX,
    ensures
        match (r, outbound_args(words(args@), start as int, None, None, None)) {
            (Ok((f, t)), Ok((fv, tv))) => seq_opt(f) == fv && seq_opt(t) == tv,
            (Err(e), Err(fault)) => e@ == fault,
            _ => false,
        },
{
    let ghost w = words(args@);
    let mut from: Option<String> = None;
    let mut to: Option<String> = None;
    let mut pending: Option<CliError> = None;
    let mut i: usize = start;
    let mut raw = false;
    if i > args.len() {
        return Ok((None, None));
    }
    while i < args.len()
        invariant
            w == words(args@),
            args@.len() < usize::MAX,
            i <= args@.len(),
            outbound_args(w, start as int, None, None, None) == outbound_from(
                w,
                i as int,
                seq_opt(from),
                seq_opt(to),
                fault_opt(pending),
                raw,
            ),
        decreases args@.len() - i,
    {
        let t = args[i];
        assert(w[i as int] == t@);
        if raw {
            if to.is_some() {
                return Err(unexpected(t));
            }
            match pending {
                Some(p) => {
                    return Err(p);
                },
                None => {},
            }
            to = Some(String::from_str(t));
            pending = None;
            i = i + 1;
        } else {
            match read_option_at(args, i, "--from") {
                OptionRead::Missing => {
                    match pending {
                        Some(p) => {
                            return Err(p);
                        },
                        None => {},
                    }
                    pending = Some(named(1, "--from"));
                    i = i + 1;
                },
                OptionRead::Value(v, next) => {
                    match pending {
                        Some(p) => {
                            return Err(p);
                        },
                        None => {},
                    }
                    if from.is_none() {
                        from = Some(v);
                        pending = None;
                    } else if next == i + 1 {
                        return Err(named(2, "--from"));
                    } else {
                        pending = Some(named(2, "--from"));
                    }
                    i = next;
                },
                OptionRead::NotThis => {
                    if str_equal(t, "--") {
                        raw = true;
                        i = i + 1;
                    } else if help_word(t) {
                        return Err(raise_pending(pending, CliError::DisplayHelp(HelpTopic::Outbound)));
                    } else if has_attached(t, "--help") {
                        return Err(value_refused("--help"));
                    } else if flag_like(t) {
                        return Err(unknown_flag(t));
                    } else if to.is_some() {
                        return Err(unexpected(t));
                    } else {
                        match pending {
                            Some(p) => {
                                return Err(p);
                            },
                            None => {},
                        }
                        to = Some(String::from_str(t));
                        pending = None;
                        i = i + 1;
                    }
                },
            }
        }
    }
    match pending {
        Some(p) => Err(p),
        None => Ok((from, to)),
    }
}

/// The action after `calls`, at word `i`.
fn parse_calls(args: &[&str], i: usize) -> (r: Result<CallsAction, CliError>)
    requires
        args@.len() < usize::MAX,
    ensures
        parsed_as(r, calls_level(words(args@), i as int)),
{
    let ghost w = words(args@);
    if i >= args.len() {
        return Err(CliError::DisplayHelpOnMissing(HelpTopic::Calls));
    }
    let t = args[i];
    assert(w[i as int] == t@);
    if str_equal(t, "list") {
        match collect_positionals(args, i + 1, 0, HelpTopic::List) {
            Ok(_) => Ok(CallsAction::List),
            Err(e) => Err(e),
        }
    } else if str_equal(t, "hangup") || str_equal(t, "hold") {
        let topic = if str_equal(t, "hangup") {
            HelpTopic::Hangup
        } else {
            HelpTopic::Hold
        };
        match collect_positionals(args, i + 1, 1, topic) {
            Ok(p) => {
                assert(p@.map_values(|s: String| s@).len() == p@.len());
                if p.len() < 1 {
                    Err(named(0, "<ID>"))
                } else {
                    let id = p[0].clone();
                    assert(p@.map_values(|s: String| s@)[0] == p@[0]@);
                    if str_equal(t, "hangup") {
                        Ok(CallsAction::Hangup { id })
                    } else {
                        Ok(CallsAction::Hold { id })
                    }
                }
            },
            Err(e) => Err(e),
        }
    } else if str_equal(t, "transfer") {
        match collect_positionals(args, i + 1, 2, HelpTopic::Transfer) {
            Ok(p) => {
                assert(p@.map_values(|s: String| s@).len() == p@.len());
                if p.len() < 1 {
                    Err(named(0, "<ID>"))
                } else if p.len() < 2 {
                    Err(named(0, "<TO>"))
                } else {
                    assert(p@.map_values(|s: String| s@)[0] == p@[0]@);
                    assert(p@.map_values(|s: String| s@)[1] == p@[1]@);
                    Ok(CallsAction::Transfer { id: p[0].clone(), to: p[1].clone() })
                }
            },
            Err(e) => Err(e),
        }
    } else if str_equal(t, "outbound") {
        match collect_outbound(args, i + 1) {
            Ok((from, to)) => match (from, to) {
                (None, _) => Err(named(0, "--from")),
                (Some(_), None) => Err(named(0, "<TO>")),
                (Some(f), Some(t)) => Ok(CallsAction::Outbound { from: f, to: t }),
            },
            Err(e) => Err(e),
        }
    } else if str_equal(t, "help") {
        Err(help_request(args, i + 1, HelpTopic::Calls))
    } else if help_word(t) {
        Err(CliError::DisplayHelp(HelpTopic::Calls))
    } else if str_equal(t, "--") {
        if i + 1 < args.len() {
            assert(w[i + 1] == args@[i + 1]@);
            Err(separator_error(HelpTopic::Calls, args[i + 1]))
        } else {
            Err(CliError::DisplayHelpOnMissing(HelpTopic::Calls))
        }
    } else if has_attached(t, "--help") {
        Err(value_refused("--help"))
    } else if flag_like(t) {
        Err(unknown_flag(t))
    } else {
        Err(CliError::UnknownSubcommand(String::from_str(t)))
    }
}

/// The text of an optional string.
pub open spec fn str_opt(o: Option<&str>) -> Option<Seq<char>> {
    match o {
        Some(s) => Some(s@),
        None => None,
    }
}

/// The refusal of a top level without a subcommand.
fn no_subcommand_error(given: bool) -> (e: CliError)
    ensures
        e@ == no_subcommand(given),
{
    if given {
        CliError::MissingSubcommand
    } else {
        CliError::DisplayHelpOnMissing(HelpTopic::Top)
    }
}

impl Cli {
    /// Parses the command line `args` (program name first), taking the
    /// environment's `MANAGEMENT_API_URL` and `API_SECRET_KEY` values as
    /// given (`None` when unset).
    pub fn parse_with_env(args: &[&str], env_api_url: Option<&str>, env_api_key: Option<&str>) -> (r:
        Result<Cli, CliError>)
        requires
            args@.len() < usize::MAX,
        ensures
            parsed_as(r, parse_model(words(args@), str_opt(env_api_url), str_opt(env_api_key))),
            r matches Ok(cli) ==> (option_absent(words(args@), "--api-url"@) ==> cli.api_url@
                == match env_api_url {
                Some(u) => u@,
                None => "http://localhost:8081"@,
            }),
            r matches Ok(cli) ==> (option_absent(words(args@), "--api-key"@) ==> str_opt(env_api_key)
                == Some(cli.api_key@)),
    {
        let ghost w = words(args@);
        let env_given = env_api_url.is_some() || env_api_key.is_some();
        let mut url: Option<String> = None;
        let mut key: Option<String> = None;
        let mut pending: Option<CliError> = None;
        let mut i: usize = 1;
        let mut found: Option<CallsAction> = None;
        loop
            invariant_except_break
                found is None,
            invariant
                w == words(args@),
                args@.len() < usize::MAX,
                env_given == (env_api_url is Some || env_api_key is Some),
                1 <= i,
                i <= args@.len() || args@.len() == 0,
                top_level(w, 1, None, None, None, env_given) == top_level(
                    w,
                    i as int,
                    seq_opt(url),
                    seq_opt(key),
                    fault_opt(pending),
                    env_given,
                ),
            ensures
                found matches Some(act) && top_level(w, 1, None, None, None, env_given) == Ok::<
                    (Option<Seq<char>>, Option<Seq<char>>, ActionModel),
                    Fault,
                >((seq_opt(url), seq_opt(key), act@)),
            decreases args@.len() - i,
        {
            if i >= args.len() {
                let given = url.is_some() || key.is_some() || env_given;
                return Err(raise_pending(pending, no_subcommand_error(given)));
            }
            let t = args[i];
            assert(w[i as int] == t@);
            match read_option_at(args, i, "--api-url") {
                OptionRead::Missing => {
                    match pending {
                        Some(p) => {
                            return Err(p);
                        },
                        None => {},
                    }
                    pending = Some(named(1, "--api-url"));
                    i = i + 1;
                    continue ;
                },
                OptionRead::Value(v, next) => {
                    match pending {
                        Some(p) => {
                            return Err(p);
                        },
                        None => {},
                    }
                    if url.is_none() {
                        url = Some(v);
                        pending = None;
                    } else if next == i + 1 {
                        return Err(named(2, "--api-url"));
                    } else {
                        pending = Some(named(2, "--api-url"));
                    }
                    i = next;
                    continue ;
                },
                OptionRead::NotThis => {},
            }
            match read_option_at(args, i, "--api-key") {
                OptionRead::Missing => {
                    match pending {
                        Some(p) => {
                            return Err(p);
                        },
                        None => {},
                    }
                    pending = Some(named(1, "--api-key"));
                    i = i + 1;
                    continue ;
                },
                OptionRead::Value(v, next) => {
                    match pending {
                        Some(p) => {
                            return Err(p);
                        },
                        None => {},
                    }
                    if key.is_none() {
                        key = Some(v);
                        pending = None;
                    } else if next == i + 1 {
                        return Err(named(2, "--api-key"));
                    } else {
                        pending = Some(named(2, "--api-key"));
                    }
                    i = next;
                    continue ;
                },
                OptionRead::NotThis => {},
            }
            if help_word(t) {
                return Err(raise_pending(pending, CliError::DisplayHelp(HelpTopic::Top)));
            } else if version_word(t) {
                return Err(raise_pending(pending, CliError::DisplayVersion));
            } else if str_equal(t, "--") {
                if i + 1 < args.len() {
                    assert(w[i + 1] == args@[i + 1]@);
                    return Err(separator_error(HelpTopic::Top, args[i + 1]));
                }
                let given = url.is_some() || key.is_some() || env_given;
                return Err(raise_pending(pending, no_subcommand_error(given)));
            } else if str_equal(t, "help") {
                return Err(help_request(args, i + 1, HelpTopic::Top));
            } else if str_equal(t, "calls") {
                match parse_calls(args, i + 1) {
                    Ok(a) => {
                        match pending {
                            Some(p) => {
                                return Err(p);
                            },
                            None => {},
                        }
                        found = Some(a);
                        break ;
                    },
                    Err(e) => return Err(e),
                }
            } else if has_attached(t, "--help") {
                return Err(value_refused("--help"));
            } else if has_attached(t, "--version") {
                return Err(value_refused("--version"));
            } else if flag_like(t) {
                return Err(unknown_flag(t));
            } else {
                return Err(CliError::UnknownSubcommand(String::from_str(t)));
            }
        }
        let action = match found {
            Some(a) => a,
            None => return Err(CliError::MissingSubcommand),
        };
        let api_key = match key {
            Some(k) => k,
            None => match env_api_key {
                Some(k) => String::from_str(k),
                None => return Err(named(0, "--api-key")),
            },
        };
        let api_url = match url {
            Some(u) => u,
            None => match env_api_url {
                Some(u) => String::from_str(u),
                None => String::from_str("http://localhost:8081"),
            },
        };
        proof {
            law_environment_fills_absent_options(w, str_opt(env_api_url), str_opt(env_api_key));
        }
        Ok(Cli { api_url, api_key, command: Commands::Calls { action } })
    }

    /// Parses the command line `args` (program name first) with no
    /// environment values: `--api-key` must then be given.
    pub fn try_parse_from<const N: usize>(args: [&str; N]) -> (r: Result<Cli, CliError>)
        requires
            N < usize::MAX,
        ensures
            parsed_as(r, parse_model(words(args@), None, None)),
    {
        Self::parse_with_env(args.as_slice(), None, None)
    }
}

/// The body of a management API request.
#[derive(Debug)]
pub enum ManagementBody {
    /// No body.
    Empty,
    /// `{"to": to}`
    Transfer { to: String },
    /// `{"from": from, "to": to}`
    Outbound { from: String, to: String },
}

/// A request to the management API, authorized with `Bearer {api_key}`.
#[derive(Debug)]
pub struct ManagementRequest {
    pub route: ManagementRoute,
    pub url: String,
    pub api_key: String,
    pub body: ManagementBody,
}

/// Location and key of the management API.
#[derive(Debug, Clone)]
pub struct ManagementClient {
    base_url: String,
    api_key: String,
}

impl ManagementClient {
    /// The base URL of the management API.
    pub closed spec fn base_url_view(&self) -> Seq<char> {
        self.base_url@
    }

    /// The Bearer token sent with every request.
    pub closed spec fn api_key_view(&self) -> Seq<char> {
        self.api_key@
    }

    /// A client for the management API at `base_url`.
    pub fn new(base_url: String, api_key: String) -> (c: Self)
        ensures
            c.base_url_view() == base_url@,
            c.api_key_view() == api_key@,
    {
        ManagementClient { base_url, api_key }
    }

    /// The request that carries out `action`: `GET /calls` to list,
    /// `POST /calls/{id}/hangup` or `/hold` without a body,
    /// `POST /calls/{id}/transfer` with the target, and `POST /calls/outbound`
    /// with both numbers.
    pub fn request(&self, action: &CallsAction) -> (req: ManagementRequest)
        ensures
            req.url@ == self.base_url_view() + route_path(req.route),
            req.api_key@ == self.api_key_view(),
            match action {
                CallsAction::List => req.route is ListCalls && req.body is Empty,
                CallsAction::Hangup { id } => req.route matches ManagementRoute::Hangup(r) && r
                    == id && req.body is Empty,
                CallsAction::Hold { id } => req.route matches ManagementRoute::Hold(r) && r == id
                    && req.body is Empty,
                CallsAction::Transfer { id, to } => (req.route matches ManagementRoute::Transfer(r)
                    && r == id) && (req.body matches ManagementBody::Transfer { to: t } && t == to),
                CallsAction::Outbound { from, to } => req.route is Outbound && (
                req.body matches ManagementBody::Outbound { from: f, to: t } && f == from && t
                    == to),
            },
    {
        let (route, body) = match action {
            CallsAction::List => (ManagementRoute::ListCalls, ManagementBody::Empty),
            CallsAction::Hangup { id } => (ManagementRoute::Hangup(id.clone()), ManagementBody::Empty),
            CallsAction::Hold { id } => (ManagementRoute::Hold(id.clone()), ManagementBody::Empty),
            CallsAction::Transfer { id, to } => (
                ManagementRoute::Transfer(id.clone()),
                ManagementBody::Transfer { to: to.clone() },
            ),
            CallsAction::Outbound { from, to } => (
                ManagementRoute::Outbound,
                ManagementBody::Outbound { from: from.clone(), to: to.clone() },
            ),
        };
        let url = route.url(self.base_url.as_str());
        ManagementRequest { route, url, api_key: self.api_key.clone(), body }
    }
}

/// What is printed once an action succeeded, for the actions that print a
/// sentence (listing and outbound calls print the returned JSON instead).
pub open spec fn confirmation_text(a: ActionModel) -> Option<Seq<char>> {
    match a {
        ActionModel::Hangup(id) => Some("Call "@ + id + " hung up."@),
        ActionModel::Hold(id) => Some("Call "@ + id + " placed on hold."@),
        ActionModel::Transfer(id, to) => Some("Call "@ + id + " transfer initiated to "@ + to + "."@),
        _ => None,
    }
}

impl CallsAction {
    /// The sentence printed once the action succeeded, if it prints one.
    pub fn confirmation(&self) -> (m: Option<String>)
        ensures
            seq_opt(m) == confirmation_text(self@),
    {
        match self {
            CallsAction::Hangup { id } => {
                let mut m = String::from_str("Call ");
                m.append(id.as_str());
                m.append(" hung up.");
                Some(m)
            },
            CallsAction::Hold { id } => {
                let mut m = String::from_str("Call ");
                m.append(id.as_str());
                m.append(" placed on hold.");
                Some(m)
            },
            CallsAction::Transfer { id, to } => {
                let mut m = String::from_str("Call ");
                m.append(id.as_str());
                m.append(" transfer initiated to ");
                m.append(to.as_str());
                m.append(".");
                Some(m)
            },
            _ => None,
        }
    }
}

/// An environment value as the help shows it: the value, or nothing when unset.
pub open spec fn env_shown(v: Option<Seq<char>>) -> Seq<char> {
    match v {
        Some(s) => s,
        None => seq![],
    }
}

/// The help text of a level. The top level's shows the environment's
/// `MANAGEMENT_API_URL` and `API_SECRET_KEY` values.
pub open spec fn help_text(topic: HelpTopic, env_api_url: Option<Seq<char>>, env_api_key: Option<Seq<char>>) -> Seq<char> {
    match topic {
        HelpTopic::Top => "Manage SIP trunk calls\n\nUsage: sip-trunk [OPTIONS] --api-key <API_KEY> <COMMAND>\n\nCommands:\n  calls  Call-related commands\n  help   Print this message or the help of the given subcommand(s)\n\nOptions:\n      --api-url <API_URL>  [env: MANAGEMENT_API_URL="@
            + env_shown(env_api_url)
            + "] [default: http://localhost:8081]\n      --api-key <API_KEY>  [env: API_SECRET_KEY="@
            + env_shown(env_api_key)
            + "]\n  -h, --help               Print help\n  -V, --version            Print version\n"@,
        HelpTopic::Calls => "Call-related commands\n\nUsage: sip-trunk --api-key <API_KEY> calls <COMMAND>\n\nCommands:\n  list      List all active calls\n  hangup    Hang up a call\n  hold      Place a call on hold\n  transfer  Transfer a call to another number\n  outbound  Initiate an outbound call\n  help      Print this message or the help of the given subcommand(s)\n\nOptions:\n  -h, --help  Print help\n"@,
        HelpTopic::List => "List all active calls\n\nUsage: sip-trunk calls list\n\nOptions:\n  -h, --help  Print help\n"@,
        HelpTopic::Hangup => "Hang up a call\n\nUsage: sip-trunk calls hangup <ID>\n\nArguments:\n  <ID>  \n\nOptions:\n  -h, --help  Print help\n"@,
        HelpTopic::Hold => "Place a call on hold\n\nUsage: sip-trunk calls hold <ID>\n\nArguments:\n  <ID>  \n\nOptions:\n  -h, --help  Print help\n"@,
        HelpTopic::Transfer => "Transfer a call to another number\n\nUsage: sip-trunk calls transfer <ID> <TO>\n\nArguments:\n  <ID>  \n  <TO>  \n\nOptions:\n  -h, --help  Print help\n"@,
        HelpTopic::Outbound => "Initiate an outbound call\n\nUsage: sip-trunk calls outbound --from <FROM> <TO>\n\nArguments:\n  <TO>  \n\nOptions:\n      --from <FROM>  \n  -h, --help         Print help\n"@,
        HelpTopic::Help => "Print this message or the help of the given subcommand(s)\n\nUsage: sip-trunk --api-key <API_KEY> help [COMMAND]...\n\nArguments:\n  [COMMAND]...  Print help for the subcommand(s)\n"@,
        HelpTopic::CallsHelp => "Print this message or the help of the given subcommand(s)\n\nUsage: sip-trunk calls help [COMMAND]...\n\nArguments:\n  [COMMAND]...  Print help for the subcommand(s)\n"@,
    }
}

/// What a version request prints.
pub open spec fn version_text() -> Seq<char> {
    "sip-trunk 0.1.0\n"@
}

impl HelpTopic {
    /// The help text of this level, with the environment's
    /// `MANAGEMENT_API_URL` and `API_SECRET_KEY` values (`None` when unset).
    pub fn usage(&self, env_api_url: Option<&str>, env_api_key: Option<&str>) -> (u: String)
        ensures
            u@ == help_text(*self, str_opt(env_api_url), str_opt(env_api_key)),
    {
        match self {
            HelpTopic::Top => {
                let mut u = String::from_str("Manage SIP trunk calls\n\nUsage: sip-trunk [OPTIONS] --api-key <API_KEY> <COMMAND>\n\nCommands:\n  calls  Call-related commands\n  help   Print this message or the help of the given subcommand(s)\n\nOptions:\n      --api-url <API_URL>  [env: MANAGEMENT_API_URL=");
                match env_api_url {
                    Some(v) => u.append(v),
                    None => {},
                }
                u.append("] [default: http://localhost:8081]\n      --api-key <API_KEY>  [env: API_SECRET_KEY=");
                match env_api_key {
                    Some(v) => u.append(v),
                    None => {},
                }
                u.append("]\n  -h, --help               Print help\n  -V, --version            Print version\n");
                proof {
                    assert(u@ =~= help_text(*self, str_opt(env_api_url), str_opt(env_api_key)));
                }
                u
            },
            HelpTopic::Calls => String::from_str("Call-related commands\n\nUsage: sip-trunk --api-key <API_KEY> calls <COMMAND>\n\nCommands:\n  list      List all active calls\n  hangup    Hang up a call\n  hold      Place a call on hold\n  transfer  Transfer a call to another number\n  outbound  Initiate an outbound call\n  help      Print this message or the help of the given subcommand(s)\n\nOptions:\n  -h, --help  Print help\n"),
            HelpTopic::List => String::from_str("List all active calls\n\nUsage: sip-trunk calls list\n\nOptions:\n  -h, --help  Print help\n"),
            HelpTopic::Hangup => String::from_str("Hang up a call\n\nUsage: sip-trunk calls hangup <ID>\n\nArguments:\n  <ID>  \n\nOptions:\n  -h, --help  Print help\n"),
            HelpTopic::Hold => String::from_str("Place a call on hold\n\nUsage: sip-trunk calls hold <ID>\n\nArguments:\n  <ID>  \n\nOptions:\n  -h, --help  Print help\n"),
            HelpTopic::Transfer => String::from_str("Transfer a call to another number\n\nUsage: sip-trunk calls transfer <ID> <TO>\n\nArguments:\n  <ID>  \n  <TO>  \n\nOptions:\n  -h, --help  Print help\n"),
            HelpTopic::Outbound => String::from_str("Initiate an outbound call\n\nUsage: sip-trunk calls outbound --from <FROM> <TO>\n\nArguments:\n  <TO>  \n\nOptions:\n      --from <FROM>  \n  -h, --help         Print help\n"),
            HelpTopic::Help => String::from_str("Print this message or the help of the given subcommand(s)\n\nUsage: sip-trunk --api-key <API_KEY> help [COMMAND]...\n\nArguments:\n  [COMMAND]...  Print help for the subcommand(s)\n"),
            HelpTopic::CallsHelp => String::from_str("Print this message or the help of the given subcommand(s)\n\nUsage: sip-trunk calls help [COMMAND]...\n\nArguments:\n  [COMMAND]...  Print help for the subcommand(s)\n"),
        }
    }
}

/// What a version request prints.
pub fn version() -> (v: String)
    ensures
        v@ == version_text(),
{
    String::from_str("sip-trunk 0.1.0\n")
}

} // verus!
