//! Command-line options of the gateway process.
//!
//! Every option has a long name and takes one value. What the option parser
//! makes of a command line is not restated here; the settings are stated as
//! a function of what it found.

use crate::conf::{text_view, Choices, ChoicesView, Config, ConfigError, ConfigView};
use vstd::prelude::*;

verus! {

#[verifier::external_type_specification]
#[verifier::external_body]
pub struct ExOptions(getopts::Options);

#[verifier::external_type_specification]
#[verifier::external_body]
pub struct ExMatches(getopts::Matches);

#[verifier::external_type_specification]
#[verifier::external_body]
pub struct ExFail(getopts::Fail);

/// What was found for every option: for each name that was declared, the
/// occurrences of the option in the order of the command line, each with the
/// value it came with, if it came with one.
pub type Findings = Map<Seq<char>, Seq<Option<Seq<char>>>>;

/// What a set of options holds: the names that were declared, in order.
pub uninterp spec fn declared(options: getopts::Options) -> Seq<Seq<char>>;

/// What a parsed command line holds.
pub uninterp spec fn findings(matches: getopts::Matches) -> Findings;

/// What the parser finds on the command line `args` for options with the
/// names `names`; `None` where it refuses the command line.
pub uninterp spec fn parsed(names: Seq<Seq<char>>, args: Seq<Seq<char>>) -> Option<Findings>;

/// Calls `getopts::Options::new`.
///
/// Trusted: no option is declared yet.
#[verifier::external_body]
fn new_options() -> (options: getopts::Options)
    ensures
        declared(options) == Seq::<Seq<char>>::empty(),
{
    getopts::Options::new()
}

/// Calls `getopts::Options::optopt` with a long name and nothing else: the
/// option has no short name, takes one value and may be left out.
///
/// Trusted: the name is added to the names declared. The call panics on a
/// name of one character, and a later `parse` panics on an empty one; both
/// are left out.
#[verifier::external_body]
fn declare(options: &mut getopts::Options, name: &str)
    requires
        name@.len() > 1,
    ensures
        declared(*final(options)) == declared(*old(options)).push(name@),
{
    options.optopt("", name, "", "");
}

/// Calls `getopts::Options::parse`.
///
/// Trusted: whether the command line is taken, and what is found on it,
/// depends on the declared names and the arguments alone; the outcome is
/// named [`parsed`]. What is found has an entry for every declared name.
/// The call panics on options without a name, which are left out.
#[verifier::external_body]
fn parse(options: &getopts::Options, args: &Vec<String>) -> (outcome: Result<
    getopts::Matches,
    getopts::Fail,
>)
    requires
        forall|i: int|
            0 <= i < declared(*options).len() ==> (#[trigger] declared(*options)[i]).len() > 1,
    ensures
        match outcome {
            Ok(matches) => {
                &&& parsed(declared(*options), args.deep_view()) == Some(findings(matches))
                &&& forall|i: int|
                    0 <= i < declared(*options).len() ==> findings(matches).dom().contains(
                        #[trigger] declared(*options)[i],
                    )
            },
            Err(_) => parsed(declared(*options), args.deep_view()) is None,
        },
{
    options.parse(args)
}

/// Calls `getopts::Matches::opt_present`.
///
/// Trusted: the answer is whether the option occurred. The call panics on a
/// name that was not declared, which is left out.
#[verifier::external_body]
fn is_present(matches: &getopts::Matches, name: &str) -> (present: bool)
    requires
        findings(*matches).dom().contains(name@),
    ensures
        present == occurs(findings(*matches), name@),
{
    matches.opt_present(name)
}

/// Calls `getopts::Matches::opt_str`.
///
/// Trusted: the answer is the value of the option's first occurrence, if it
/// occurred and came with a value. The call panics on a name that was not
/// declared, which is left out.
#[verifier::external_body]
fn value_of(matches: &getopts::Matches, name: &str) -> (value: Option<String>)
    requires
        findings(*matches).dom().contains(name@),
    ensures
        text_view(value) == first_value(findings(*matches), name@),
{
    matches.opt_str(name)
}

/// Writes a `getopts::Fail` with its `Debug` form.
///
/// Trusted: nothing.
#[verifier::external_body]
fn account_of(fail: &getopts::Fail) -> (account: String) {
    format!("{:?}", fail)
}

/// Whether the option `name` occurred.
pub open spec fn occurs(findings: Findings, name: Seq<char>) -> bool {
    findings[name].len() > 0
}

/// The value that the first occurrence of the option `name` came with.
pub open spec fn first_value(findings: Findings, name: Seq<char>) -> Option<Seq<char>> {
    if findings[name].len() > 0 {
        findings[name][0]
    } else {
        None
    }
}

/// The names of the options, in the order of their declaration.
pub open spec fn option_names() -> Seq<Seq<char>> {
    seq![
        "sip-address"@,
        "sip-port"@,
        "http-host"@,
        "http-port"@,
        "http-proto"@,
        "http-path"@,
        "max-clients"@,
        "syslog-facility"@,
        "syslog-level"@,
        "ascii"@,
        "daemonize"@,
        "ignore-ssl-errors"@,
        "help"@,
    ]
}

/// Whether `findings` has an entry for every option.
pub open spec fn covers_options(findings: Findings) -> bool {
    forall|i: int|
        0 <= i < option_names().len() ==> findings.dom().contains(#[trigger] option_names()[i])
}

/// What the process is asked to do.
#[derive(Debug)]
pub enum Command {
    /// Run the gateway with these settings.
    Serve(Config),
    /// Print the help text and leave.
    Help,
}

/// The mathematical value of a [`Command`].
pub enum CommandView {
    Serve(ConfigView),
    Help,
}

impl View for Command {
    type V = CommandView;

    open spec fn view(&self) -> CommandView {
        match *self {
            Command::Serve(config) => CommandView::Serve(config@),
            Command::Help => CommandView::Help,
        }
    }
}

/// Why a command line gives no command.
#[derive(Debug, PartialEq, Eq)]
pub enum OptionsError {
    /// The parser refused the command line: an option that is not known, one
    /// that occurs twice, or one without its value. The text is the
    /// parser's own account of it.
    Refused(String),
    /// The value of a numeric setting is no numeral, or too large.
    Setting(ConfigError),
}

/// The mathematical value of an [`OptionsError`]: the error without the
/// parser's account.
pub enum Refusal {
    Refused,
    Setting(ConfigError),
}

impl View for OptionsError {
    type V = Refusal;

    open spec fn view(&self) -> Refusal {
        match *self {
            OptionsError::Refused(_) => Refusal::Refused,
            OptionsError::Setting(error) => Refusal::Setting(error),
        }
    }
}

/// The choices that were found on a command line.
pub open spec fn choices_of(findings: Findings) -> ChoicesView {
    ChoicesView {
        sip_address: first_value(findings, "sip-address"@),
        sip_port: first_value(findings, "sip-port"@),
        http_host: first_value(findings, "http-host"@),
        http_port: first_value(findings, "http-port"@),
        http_proto: first_value(findings, "http-proto"@),
        http_path: first_value(findings, "http-path"@),
        syslog_facility: first_value(findings, "syslog-facility"@),
        syslog_level: first_value(findings, "syslog-level"@),
        max_clients: first_value(findings, "max-clients"@),
        ascii: occurs(findings, "ascii"@),
        daemonize: occurs(findings, "daemonize"@),
        ignore_ssl_errors: occurs(findings, "ignore-ssl-errors"@),
    }
}

/// The command that comes of what was found: help if `help` occurred, and
/// else the gateway with the settings that come of the choices.
pub open spec fn command_of(findings: Findings) -> Result<CommandView, Refusal> {
    if occurs(findings, "help"@) {
        Ok(CommandView::Help)
    } else {
        match ConfigView::of_choices(choices_of(findings)) {
            Ok(config) => Ok(CommandView::Serve(config)),
            Err(error) => Err(Refusal::Setting(error)),
        }
    }
}

/// The command that comes of a command line, given what the parser made of
/// it.
pub open spec fn command_of_parsed(outcome: Option<Findings>) -> Result<CommandView, Refusal> {
    match outcome {
        Some(findings) => command_of(findings),
        None => Err(Refusal::Refused),
    }
}

/// The view of a command that may have been refused.
pub open spec fn outcome_view(outcome: Result<Command, OptionsError>) -> Result<
    CommandView,
    Refusal,
> {
    match outcome {
        Ok(command) => Ok(command@),
        Err(error) => Err(error@),
    }
}

/// Makes the command from a parsed command line.
pub fn command_from(matches: &getopts::Matches) -> (outcome: Result<Command, OptionsError>)
    requires
        covers_options(findings(*matches)),
    ensures
        outcome_view(outcome) == command_of(findings(*matches)),
{
    proof {
        let names = option_names();
        assert(names[0] == "sip-address"@ && names[1] == "sip-port"@ && names[2] == "http-host"@);
        assert(names[3] == "http-port"@ && names[4] == "http-proto"@ && names[5] == "http-path"@);
        assert(names[6] == "max-clients"@ && names[7] == "syslog-facility"@);
        assert(names[8] == "syslog-level"@ && names[9] == "ascii"@ && names[10] == "daemonize"@);
        assert(names[11] == "ignore-ssl-errors"@ && names[12] == "help"@);
    }
    if is_present(matches, "help") {
        return Ok(Command::Help);
    }
    let choices = Choices {
        sip_address: value_of(matches, "sip-address"),
        sip_port: value_of(matches, "sip-port"),
        http_host: value_of(matches, "http-host"),
        http_port: value_of(matches, "http-port"),
        http_proto: value_of(matches, "http-proto"),
        http_path: value_of(matches, "http-path"),
        syslog_facility: value_of(matches, "syslog-facility"),
        syslog_level: value_of(matches, "syslog-level"),
        max_clients: value_of(matches, "max-clients"),
        ascii: is_present(matches, "ascii"),
        daemonize: is_present(matches, "daemonize"),
        ignore_ssl_errors: is_present(matches, "ignore-ssl-errors"),
    };
    match Config::from_choices(choices) {
        Ok(config) => Ok(Command::Serve(config)),
        Err(error) => Err(OptionsError::Setting(error)),
    }
}

/// Reads the command from the arguments of the process, the program's name
/// left out.
pub fn parse_args(args: &Vec<String>) -> (outcome: Result<Command, OptionsError>)
    ensures
        outcome_view(outcome) == command_of_parsed(parsed(option_names(), args.deep_view())),
{
    proof {
        reveal_strlit("sip-address");
        reveal_strlit("sip-port");
        reveal_strlit("http-host");
        reveal_strlit("http-port");
        reveal_strlit("http-proto");
        reveal_strlit("http-path");
        reveal_strlit("max-clients");
        reveal_strlit("syslog-facility");
        reveal_strlit("syslog-level");
        reveal_strlit("ascii");
        reveal_strlit("daemonize");
        reveal_strlit("ignore-ssl-errors");
        reveal_strlit("help");
    }
    let mut options = new_options();
    declare(&mut options, "sip-address");
    declare(&mut options, "sip-port");
    declare(&mut options, "http-host");
    declare(&mut options, "http-port");
    declare(&mut options, "http-proto");
    declare(&mut options, "http-path");
    declare(&mut options, "max-clients");
    declare(&mut options, "syslog-facility");
    declare(&mut options, "syslog-level");
    declare(&mut options, "ascii");
    declare(&mut options, "daemonize");
    declare(&mut options, "ignore-ssl-errors");
    declare(&mut options, "help");
    assert(declared(options) =~= option_names());
    match parse(&options, args) {
        Ok(matches) => command_from(&matches),
        Err(fail) => Err(OptionsError::Refused(account_of(&fail))),
    }
}

} // verus!
