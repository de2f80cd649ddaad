//! The command line of both programs.

use vstd::prelude::*;

use crate::text::same_text;

verus! {

/// What a program does once it has read its command line.
#[derive(Debug)]
pub enum CliAction {
    RunWithConfig(String),
    ExitAfterHelp,
}

/// What a program does, as mathematical values.
pub enum CliActionView {
    RunWithConfig(Seq<char>),
    ExitAfterHelp,
}

impl View for CliAction {
    type V = CliActionView;

    open spec fn view(&self) -> CliActionView {
        match self {
            CliAction::RunWithConfig(path) => CliActionView::RunWithConfig(path@),
            CliAction::ExitAfterHelp => CliActionView::ExitAfterHelp,
        }
    }
}

/// What a program does for its first argument `arg`: `-h` and `--help` ask
/// for help, anything else is the path of the configuration, and without an
/// argument that is `local_default` where it exists, else `example_default`.
pub fn resolve_config_arg(
    arg: Option<String>,
    local_exists: bool,
    local_default: &str,
    example_default: &str,
) -> (action: CliAction)
    ensures
        action@ == match arg {
            Some(arg) => if arg@ == "-h"@ || arg@ == "--help"@ {
                CliActionView::ExitAfterHelp
            } else {
                CliActionView::RunWithConfig(arg@)
            },
            None => if local_exists {
                CliActionView::RunWithConfig(local_default@)
            } else {
                CliActionView::RunWithConfig(example_default@)
            },
        },
{
    match arg {
        Some(arg) => {
            if same_text(arg.as_str(), "-h") || same_text(arg.as_str(), "--help") {
                CliAction::ExitAfterHelp
            } else {
                CliAction::RunWithConfig(arg)
            }
        },
        None => {
            if local_exists {
                CliAction::RunWithConfig(local_default.to_owned())
            } else {
                CliAction::RunWithConfig(example_default.to_owned())
            }
        },
    }
}

/// The help of a program, line by line.
pub fn help_text(bin_name: &str, local_default: &str, example_default: &str) -> (help: String)
    ensures
        help@ == "Usage: "@ + bin_name@ + " [CONFIG_PATH]\n\nIf CONFIG_PATH is omitted, the program tries:\n  1. ./"@
            + local_default@ + "\n  2. ./"@ + example_default@ + "\n"@,
{
    let mut help = "Usage: ".to_owned();
    help.append(bin_name);
    help.append(" [CONFIG_PATH]\n\nIf CONFIG_PATH is omitted, the program tries:\n  1. ./");
    help.append(local_default);
    help.append("\n  2. ./");
    help.append(example_default);
    help.append("\n");
    help
}

/// The first argument asks for help or is the path of the configuration, as it
/// stands.
pub proof fn law_argument_is_a_path_or_asks_for_help(
    arg: String,
    local_exists: bool,
    local_default: &str,
    example_default: &str,
    action: CliAction,
)
    requires
        call_ensures(
            resolve_config_arg,
            (Some(arg), local_exists, local_default, example_default),
            action,
        ),
    ensures
        action is ExitAfterHelp <==> arg@ == "-h"@ || arg@ == "--help"@,
        action matches CliAction::RunWithConfig(path) ==> path@ == arg@,
{
}

/// Without an argument the local configuration is taken where it exists, and
/// the example one otherwise.
pub proof fn law_local_configuration_goes_first(
    local_exists: bool,
    local_default: &str,
    example_default: &str,
    action: CliAction,
)
    requires
        call_ensures(
            resolve_config_arg,
            (None, local_exists, local_default, example_default),
            action,
        ),
    ensures
        action matches CliAction::RunWithConfig(path) && path@ == if local_exists {
            local_default@
        } else {
            example_default@
        },
{
}

/// The help names the program and the two configurations that it tries, in
/// order.
pub proof fn law_help_names_program_and_configurations(
    bin_name: &str,
    local_default: &str,
    example_default: &str,
    help: String,
)
    requires
        call_ensures(help_text, (bin_name, local_default, example_default), help),
    ensures
        help@ == "Usage: "@ + bin_name@
            + " [CONFIG_PATH]\n\nIf CONFIG_PATH is omitted, the program tries:\n  1. ./"@
            + local_default@ + "\n  2. ./"@ + example_default@ + "\n"@,
{
}

} // verus!
