//! The command line: which options there are, and what a list of arguments
//! asks for.

use vstd::prelude::*;
use vstd::string::StringExecFns;
use crate::text::{option_view, text_eq};

verus! {

/// What a command line asks for.
#[derive(Debug, Clone)]
pub struct CliArgs {
    /// The text to translate: the plain arguments, joined by single spaces.
    pub text: String,
    pub source_lang: Option<String>,
    pub target_lang: Option<String>,
    pub help: bool,
    pub version: bool,
}

/// The content of a `CliArgs`.
pub ghost struct CliArgsView {
    pub text: Seq<char>,
    pub source_lang: Option<Seq<char>>,
    pub target_lang: Option<Seq<char>>,
    pub help: bool,
    pub version: bool,
}

impl View for CliArgs {
    type V = CliArgsView;

    open spec fn view(&self) -> CliArgsView {
        CliArgsView {
            text: self.text@,
            source_lang: option_view(self.source_lang),
            target_lang: option_view(self.target_lang),
            help: self.help,
            version: self.version,
        }
    }
}

/// What an empty command line asks for: no text, no language, no flag.
pub open spec fn no_args() -> CliArgsView {
    CliArgsView {
        text: Seq::empty(),
        source_lang: None,
        target_lang: None,
        help: false,
        version: false,
    }
}

impl CliArgs {
    /// What an empty command line asks for.
    pub fn new() -> (args: Self)
        ensures
            args@ == no_args(),
    {
        CliArgs {
            text: String::new(),
            source_lang: None,
            target_lang: None,
            help: false,
            version: false,
        }
    }
}

/// What the program does for a command line.
#[derive(Debug, Clone, Copy, PartialEq, Eq, Structural)]
pub enum CliAction {
    /// Show the help text.
    ShowHelp,
    /// Show the version.
    ShowVersion,
    /// Tell the user that there is no text to translate, and show the help text.
    MissingText,
    /// Translate the text.
    Translate,
}

/// The action that a command line asks for: help comes before the
/// version, and both before the text; without any of them the text is
/// missing.
pub open spec fn action_of(args: CliArgsView) -> CliAction {
    if args.help {
        CliAction::ShowHelp
    } else if args.version {
        CliAction::ShowVersion
    } else if args.text.len() == 0 {
        CliAction::MissingText
    } else {
        CliAction::Translate
    }
}

impl CliArgs {
    /// The action that this command line asks for.
    pub fn action(&self) -> (action: CliAction)
        ensures
            action == action_of(self@),
    {
        if self.help {
            CliAction::ShowHelp
        } else if self.version {
            CliAction::ShowVersion
        } else if self.text.as_str().is_empty() {
            CliAction::MissingText
        } else {
            CliAction::Translate
        }
    }
}

/// An option that needs a value stands last, without one.
#[derive(Debug, Clone, Copy, PartialEq, Eq, Structural)]
pub enum CliError {
    MissingSource,
    MissingTarget,
}

impl CliError {
    /// The text that tells the user of this error.
    pub fn message(&self) -> (text: &'static str)
        ensures
            text@ == match *self {
                CliError::MissingSource => "错误: --source 需要指定源语言参数"@,
                CliError::MissingTarget => "错误: --target 需要指定目标语言参数"@,
            },
    {
        match self {
            CliError::MissingSource => "错误: --source 需要指定源语言参数",
            CliError::MissingTarget => "错误: --target 需要指定目标语言参数",
        }
    }
}

/// The text after one more plain argument: the argument itself where there
/// was no text yet, else the text, a space and the argument.
pub open spec fn with_word(text: Seq<char>, word: Seq<char>) -> Seq<char> {
    if text.len() == 0 {
        word
    } else {
        text.push(' ') + word
    }
}

/// What the arguments from position `at` on ask for, on top of `so_far`.
/// `-h` and `--help`, `-v` and `--version` set their flag; `-s` and
/// `--source`, `-t` and `--target` take the next argument as the language
/// and fail where there is none; every other argument is a word of the text.
pub open spec fn parse_from(args: Seq<Seq<char>>, at: int, so_far: CliArgsView) -> Result<
    CliArgsView,
    CliError,
>
    decreases args.len() - at,
{
    if at < 0 || at >= args.len() {
        Ok(so_far)
    } else if args[at] == "-h"@ || args[at] == "--help"@ {
        parse_from(args, at + 1, CliArgsView { help: true, ..so_far })
    } else if args[at] == "-v"@ || args[at] == "--version"@ {
        parse_from(args, at + 1, CliArgsView { version: true, ..so_far })
    } else if args[at] == "-s"@ || args[at] == "--source"@ {
        if at + 1 < args.len() {
            parse_from(args, at + 2, CliArgsView { source_lang: Some(args[at + 1]), ..so_far })
        } else {
            Err(CliError::MissingSource)
        }
    } else if args[at] == "-t"@ || args[at] == "--target"@ {
        if at + 1 < args.len() {
            parse_from(args, at + 2, CliArgsView { target_lang: Some(args[at + 1]), ..so_far })
        } else {
            Err(CliError::MissingTarget)
        }
    } else {
        parse_from(args, at + 1, CliArgsView { text: with_word(so_far.text, args[at]), ..so_far })
    }
}

/// The arguments as character sequences.
pub open spec fn arg_views(args: Seq<String>) -> Seq<Seq<char>> {
    args.map_values(|arg: String| arg@)
}

/// What a command line asks for.
pub open spec fn parsed(args: Seq<Seq<char>>) -> Result<CliArgsView, CliError> {
    parse_from(args, 0, no_args())
}

/// Reads the arguments of a command line.
pub fn parse_args(args: &[String]) -> (r: Result<CliArgs, CliError>)
    ensures
        match r {
            Ok(cli_args) => parsed(arg_views(args@)) == Ok::<_, CliError>(cli_args@),
            Err(e) => parsed(arg_views(args@)) == Err::<CliArgsView, _>(e),
        },
{
    let mut cli_args = CliArgs::new();
    let mut i: usize = 0;
    let ghost all = arg_views(args@);
    while i < args.len()
        invariant
            i <= args@.len(),
            all == arg_views(args@),
            parsed(all) == parse_from(all, i as int, cli_args@),
        decreases args@.len() - i,
    {
        let arg: &str = args[i].as_str();
        assert(all[i as int] == arg@);
        if text_eq(arg, "-h") || text_eq(arg, "--help") {
            cli_args.help = true;
            i += 1;
        } else if text_eq(arg, "-v") || text_eq(arg, "--version") {
            cli_args.version = true;
            i += 1;
        } else if text_eq(arg, "-s") || text_eq(arg, "--source") {
            if i + 1 < args.len() {
                assert(all[i + 1] == args@[i + 1]@);
                cli_args.source_lang = Some(args[i + 1].clone());
                i += 2;
            } else {
                return Err(CliError::MissingSource);
            }
        } else if text_eq(arg, "-t") || text_eq(arg, "--target") {
            if i + 1 < args.len() {
                assert(all[i + 1] == args@[i + 1]@);
                cli_args.target_lang = Some(args[i + 1].clone());
                i += 2;
            } else {
                return Err(CliError::MissingTarget);
            }
        } else {
            if cli_args.text.as_str().is_empty() {
                cli_args.text = args[i].clone();
            } else {
                cli_args.text.push(' ');
                cli_args.text.append(arg);
            }
            i += 1;
        }
    }
    Ok(cli_args)
}

} // verus!
