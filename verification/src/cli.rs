//! Command-line surface: the options the client accepts, their parse, and
//! the help text. Reading the real process arguments and printing stay with
//! the caller; the parse itself is plain text work.

use vstd::prelude::*;

use crate::text::{has_prefix, opt_string_view, str_eq, string_views};

verus! {

/// Options of one run: an optional config file path and an optional
/// positional question.
#[derive(Debug, Clone, PartialEq, Eq)]
pub struct CliOptions {
    pub config_path: Option<String>,
    pub question: Option<String>,
}

/// What a command line asks for: a run, the help text, or the version.
#[derive(Debug, Clone, PartialEq, Eq)]
pub enum CliCommand {
    Run(CliOptions),
    PrintHelp { program_name: String },
    PrintVersion,
}

/// Mathematical model of [`CliOptions`].
pub struct CliOptionsView {
    pub config_path: Option<Seq<char>>,
    pub question: Option<Seq<char>>,
}

/// Mathematical model of a [`CliCommand`].
pub enum CliCommandView {
    Run(CliOptionsView),
    PrintHelp { program_name: Seq<char> },
    PrintVersion,
}

impl View for CliOptions {
    type V = CliOptionsView;

    open spec fn view(&self) -> CliOptionsView {
        CliOptionsView {
            config_path: opt_string_view(self.config_path),
            question: opt_string_view(self.question),
        }
    }
}

impl View for CliCommand {
    type V = CliCommandView;

    open spec fn view(&self) -> CliCommandView {
        match self {
            CliCommand::Run(options) => CliCommandView::Run(options@),
            CliCommand::PrintHelp { program_name } => CliCommandView::PrintHelp {
                program_name: program_name@,
            },
            CliCommand::PrintVersion => CliCommandView::PrintVersion,
        }
    }
}

// ─── Help text ───────────────────────────────────────────────────────────

/// The help text, with the program's own name in the usage line.
pub open spec fn help_text_spec(program_name: Seq<char>) -> Seq<char> {
    "md-qa: Rust TUI client for Markdown Q&A\n\nUsage:\n  "@ + program_name
        + " [OPTIONS] [QUESTION]\n\nOptions:\n  -c, --config <PATH>  Optional config file path\n  -h, --help           Print help and exit\n  -V, --version        Print version and exit\n\nConfig:\n  --config PATH (if set) takes highest priority.\n  Otherwise MD_QA_CONFIG is used when set.\n  Otherwise ~/.md-qa/config.yaml is used when it exists.\n  If no config file is available, built-in defaults are used (port 8765).\n\nInput:\n  QUESTION: optional positional question to send.\n  If QUESTION is omitted, reads one question from stdin (first line).\n"@
}

/// Renders the help text for a program name.
pub fn help_text(program_name: &str) -> (r: String)
    ensures
        r@ == help_text_spec(program_name@),
{
    let mut s = "md-qa: Rust TUI client for Markdown Q&A\n\nUsage:\n  ".to_owned();
    s.append(program_name);
    s.append(
        " [OPTIONS] [QUESTION]\n\nOptions:\n  -c, --config <PATH>  Optional config file path\n  -h, --help           Print help and exit\n  -V, --version        Print version and exit\n\nConfig:\n  --config PATH (if set) takes highest priority.\n  Otherwise MD_QA_CONFIG is used when set.\n  Otherwise ~/.md-qa/config.yaml is used when it exists.\n  If no config file is available, built-in defaults are used (port 8765).\n\nInput:\n  QUESTION: optional positional question to send.\n  If QUESTION is omitted, reads one question from stdin (first line).\n",
    );
    proof {
        assert(s@ =~= help_text_spec(program_name@));
    }
    s
}

// ─── The parse and its failure messages ──────────────────────────────────

/// The failure for an option that needs a value and stands last.
pub open spec fn missing_value_message(arg: Seq<char>, name: Seq<char>) -> Seq<char> {
    "Error: "@ + arg + " requires a value\n\n"@ + help_text_spec(name)
}

/// The failure for `--config=` with nothing after the sign.
pub open spec fn empty_config_value_message(name: Seq<char>) -> Seq<char> {
    missing_value_message("--config"@, name)
}

/// The failure for an option outside the accepted set.
pub open spec fn unknown_option_message(arg: Seq<char>, name: Seq<char>) -> Seq<char> {
    "Error: unknown option: "@ + arg + "\n\n"@ + help_text_spec(name)
}

/// The failure for a second positional argument.
pub open spec fn unexpected_positional_message(arg: Seq<char>, name: Seq<char>) -> Seq<char> {
    "Error: unexpected positional argument: "@ + arg + "\n\n"@ + help_text_spec(name)
}

/// The parse from argument `i` on, with the state gathered so far: `-h` and
/// `-V` (and their long forms) win immediately; `-c`/`--config` takes the
/// next argument as the path; `--config=PATH` takes its tail; any other
/// `-`-argument fails; the first bare argument is the question and a second
/// one fails.
pub open spec fn parse_args(
    args: Seq<Seq<char>>,
    i: int,
    name: Seq<char>,
    config_path: Option<Seq<char>>,
    question: Option<Seq<char>>,
) -> Result<CliCommandView, Seq<char>>
    decreases args.len() - i,
{
    if i < 0 || i >= args.len() {
        Ok(CliCommandView::Run(CliOptionsView { config_path, question }))
    } else {
        let a = args[i];
        if a == "-h"@ || a == "--help"@ {
            Ok(CliCommandView::PrintHelp { program_name: name })
        } else if a == "-V"@ || a == "--version"@ {
            Ok(CliCommandView::PrintVersion)
        } else if a == "-c"@ || a == "--config"@ {
            if i + 1 < args.len() {
                parse_args(args, i + 2, name, Some(args[i + 1]), question)
            } else {
                Err(missing_value_message(a, name))
            }
        } else if "--config="@.len() <= a.len() && a.subrange(0, "--config="@.len() as int)
            == "--config="@ {
            let value = a.subrange("--config="@.len() as int, a.len() as int);
            if value.len() == 0 {
                Err(empty_config_value_message(name))
            } else {
                parse_args(args, i + 1, name, Some(value), question)
            }
        } else if a.len() > 0 && a[0] == '-' {
            Err(unknown_option_message(a, name))
        } else if question is None {
            parse_args(args, i + 1, name, config_path, Some(a))
        } else {
            Err(unexpected_positional_message(a, name))
        }
    }
}

/// The whole parse: the first argument is the program's name (`md-qa` when
/// there is none); the rest are parsed by [`parse_args`].
pub open spec fn parse_cli_spec(args: Seq<Seq<char>>) -> Result<CliCommandView, Seq<char>> {
    if args.len() == 0 {
        parse_args(args, 0, "md-qa"@, None, None)
    } else {
        parse_args(args, 1, args[0], None, None)
    }
}

/// Builds one of the parse failures: the given pieces around the help text.
fn parse_failure(head: &str, middle: &str, tail: &str, name: &str) -> (r: String)
    ensures
        r@ == head@ + middle@ + tail@ + help_text_spec(name@),
{
    let mut s = head.to_owned();
    s.append(middle);
    s.append(tail);
    let help = help_text(name);
    s.append(help.as_str());
    proof {
        assert(s@ =~= head@ + middle@ + tail@ + help_text_spec(name@));
    }
    s
}

/// Parses one command line, given as its arguments, program name first.
pub fn parse_cli_command_from(args: &Vec<String>) -> (r: Result<CliCommand, String>)
    ensures
        r matches Ok(c) ==> parse_cli_spec(string_views(args@)) matches Ok(cv) && c@ == cv,
        r matches Err(e) ==> parse_cli_spec(string_views(args@)) matches Err(ev) && e@ == ev,
        r is Ok <==> parse_cli_spec(string_views(args@)) is Ok,
{
    let ghost argsv = string_views(args@);
    let program_name: String;
    let mut i: usize;
    if args.len() == 0 {
        program_name = "md-qa".to_owned();
        i = 0;
    } else {
        program_name = args[0].clone();
        i = 1;
    }
    let mut config_path: Option<String> = None;
    let mut question: Option<String> = None;
    while i < args.len()
        invariant
            argsv == string_views(args@),
            argsv.len() == args@.len(),
            program_name@ == (if argsv.len() == 0 {
                "md-qa"@
            } else {
                argsv[0]
            }),
            parse_cli_spec(argsv) == parse_args(
                argsv,
                i as int,
                program_name@,
                opt_string_view(config_path),
                opt_string_view(question),
            ),
        decreases args.len() - i,
    {
        let arg = &args[i];
        proof {
            assert(arg@ == argsv[i as int]);
        }
        if str_eq(arg.as_str(), "-h") || str_eq(arg.as_str(), "--help") {
            return Ok(CliCommand::PrintHelp { program_name });
        } else if str_eq(arg.as_str(), "-V") || str_eq(arg.as_str(), "--version") {
            return Ok(CliCommand::PrintVersion);
        } else if str_eq(arg.as_str(), "-c") || str_eq(arg.as_str(), "--config") {
            if i + 1 < args.len() {
                config_path = Some(args[i + 1].clone());
                i += 2;
            } else {
                return Err(
                    parse_failure("Error: ", arg.as_str(), " requires a value\n\n", program_name.as_str()),
                );
            }
        } else if has_prefix(arg.as_str(), "--config=") {
            proof {
                assert("--config="@.len() == 9) by {
                    reveal_strlit("--config=");
                }
            }
            let len: usize = arg.as_str().unicode_len();
            let value = arg.as_str().substring_char(9, len);
            if value.unicode_len() == 0 {
                return Err(
                    parse_failure("Error: ", "--config", " requires a value\n\n", program_name.as_str()),
                );
            } else {
                config_path = Some(value.to_owned());
                i += 1;
            }
        } else if arg.as_str().unicode_len() > 0 && arg.as_str().get_char(0) == '-' {
            return Err(
                parse_failure("Error: unknown option: ", arg.as_str(), "\n\n", program_name.as_str()),
            );
        } else if question.is_none() {
            question = Some(arg.clone());
            i += 1;
        } else {
            return Err(
                parse_failure(
                    "Error: unexpected positional argument: ",
                    arg.as_str(),
                    "\n\n",
                    program_name.as_str(),
                ),
            );
        }
    }
    Ok(CliCommand::Run(CliOptions { config_path, question }))
}

} // verus!
