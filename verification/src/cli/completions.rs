//! Where shell completions are installed.

use crate::api::ApiError;
use crate::api::ErrorView;
use crate::config::paths;
use crate::json;
use crate::output::{OutputConfig, Printed};
use crate::output;
use crate::text;
use vstd::prelude::*;

verus! {

broadcast use vstd::string::group_string_axioms;

/// A shell that completions are written for.
#[derive(Debug)]
pub enum Shell {
    Bash,
    Zsh,
    Fish,
    PowerShell,
    /// Any other, by its name.
    Other(String),
}

/// The error where there is no home directory.
pub open spec fn no_home() -> ErrorView {
    ErrorView::Other("cannot determine home directory"@)
}

/// The path of the file that holds the completions for bash.
pub open spec fn bash_path(windows: bool, home: Option<Seq<char>>) -> Result<Seq<char>, ErrorView> {
    match home {
        Some(dir) => Ok(below(windows, dir, ".bash_completion.d"@, "jira"@)),
        None => Err(no_home()),
    }
}

/// The path of the file that holds the completions for zsh.
pub open spec fn zsh_path(windows: bool, home: Option<Seq<char>>) -> Result<Seq<char>, ErrorView> {
    match home {
        Some(dir) => Ok(
            below(
                windows,
                paths::joined(dir, ".zsh"@, paths::separator(windows)),
                "completions"@,
                "_jira"@,
            ),
        ),
        None => Err(no_home()),
    }
}

/// The path of the file that holds the completions for fish. Outside Windows there has to be a
/// home directory even where `XDG_CONFIG_HOME` decides.
pub open spec fn fish_path(
    windows: bool,
    roaming: Option<Seq<char>>,
    xdg: Option<Seq<char>>,
    home: Option<Seq<char>>,
) -> Result<Seq<char>, ErrorView> {
    if windows {
        match roaming {
            Some(dir) => Ok(fish_file(windows, dir)),
            None => Err(
                ErrorView::Other("cannot determine config directory for fish completions"@),
            ),
        }
    } else {
        match home {
            None => Err(no_home()),
            Some(_) => match paths::config_home(windows, roaming, xdg, home) {
                Some(dir) => Ok(fish_file(windows, dir)),
                None => Err(no_home()),
            },
        }
    }
}

/// The file for fish below a config directory.
pub open spec fn fish_file(windows: bool, dir: Seq<char>) -> Seq<char> {
    below(
        windows,
        paths::joined(dir, "fish"@, paths::separator(windows)),
        "completions"@,
        "jira.fish"@,
    )
}

/// A file in a directory of a directory.
pub open spec fn below(windows: bool, base: Seq<char>, dir: Seq<char>, file: Seq<char>) -> Seq<char> {
    let between = paths::separator(windows);
    paths::joined(paths::joined(base, dir, between), file, between)
}

fn file_below(windows: bool, base: &str, dir: &str, file: &str) -> (result: String)
    ensures
        result@ == below(windows, base@, dir@, file@),
{
    paths::under(windows, paths::under(windows, base, dir).as_str(), file)
}

/// The view of a path or an error.
pub open spec fn path_view(result: Result<String, ApiError>) -> Result<Seq<char>, ErrorView> {
    match result {
        Ok(path) => Ok(path@),
        Err(e) => Err(e@),
    }
}

fn home_missing() -> (result: ApiError)
    ensures
        result@ == no_home(),
{
    ApiError::Other("cannot determine home directory".to_owned())
}

/// The path of the file that holds the completions for bash.
pub fn bash_completion_path(windows: bool, home: Option<&str>) -> (result: Result<String, ApiError>)
    ensures
        path_view(result) == bash_path(windows, json::opt_str_view(home)),
{
    match home {
        Some(dir) => Ok(file_below(windows, dir, ".bash_completion.d", "jira")),
        None => Err(home_missing()),
    }
}

/// The path of the file that holds the completions for zsh.
pub fn zsh_completion_path(windows: bool, home: Option<&str>) -> (result: Result<String, ApiError>)
    ensures
        path_view(result) == zsh_path(windows, json::opt_str_view(home)),
{
    match home {
        Some(dir) => {
            let base = paths::under(windows, dir, ".zsh");
            Ok(file_below(windows, base.as_str(), "completions", "_jira"))
        },
        None => Err(home_missing()),
    }
}

/// The path of the file that holds the completions for fish.
pub fn fish_completion_path(
    windows: bool,
    roaming: Option<&str>,
    xdg: Option<&str>,
    home: Option<&str>,
) -> (result: Result<String, ApiError>)
    ensures
        path_view(result) == fish_path(
            windows,
            json::opt_str_view(roaming),
            json::opt_str_view(xdg),
            json::opt_str_view(home),
        ),
{
    if windows && roaming.is_none() {
        return Err(
            ApiError::Other("cannot determine config directory for fish completions".to_owned()),
        );
    }
    if !windows && home.is_none() {
        return Err(home_missing());
    }
    match paths::config_dir(windows, roaming, xdg, home) {
        Some(dir) => {
            let base = paths::under(windows, dir.as_str(), "fish");
            Ok(file_below(windows, base.as_str(), "completions", "jira.fish"))
        },
        None => Err(home_missing()),
    }
}

/// The error for a shell that completions cannot be installed for.
pub open spec fn not_installable(shell: Shell) -> Option<ErrorView> {
    match shell {
        Shell::Bash | Shell::Zsh | Shell::Fish => None,
        Shell::PowerShell => Some(
            ErrorView::InvalidInput(
                "`jira completions powershell --install` is not supported. Redirect `jira completions powershell` into your PowerShell profile or completion path manually."@,
            ),
        ),
        Shell::Other(name) => Some(
            ErrorView::InvalidInput(
                "`jira completions "@ + name@
                    + " --install` is not supported. Redirect `jira completions "@ + name@
                    + "` into your shell completion path manually."@,
            ),
        ),
    }
}

/// Where the completions for a shell are installed.
pub open spec fn install_path_of(
    shell: Shell,
    windows: bool,
    roaming: Option<Seq<char>>,
    xdg: Option<Seq<char>>,
    home: Option<Seq<char>>,
) -> Result<Seq<char>, ErrorView> {
    match not_installable(shell) {
        Some(error) => Err(error),
        None => match shell {
            Shell::Bash => bash_path(windows, home),
            Shell::Zsh => zsh_path(windows, home),
            _ => fish_path(windows, roaming, xdg, home),
        },
    }
}

/// Where the completions for a shell are installed.
pub fn install_path(
    shell: &Shell,
    windows: bool,
    roaming: Option<&str>,
    xdg: Option<&str>,
    home: Option<&str>,
) -> (result: Result<String, ApiError>)
    ensures
        path_view(result) == install_path_of(
            *shell,
            windows,
            json::opt_str_view(roaming),
            json::opt_str_view(xdg),
            json::opt_str_view(home),
        ),
{
    match shell {
        Shell::Bash => bash_completion_path(windows, home),
        Shell::Zsh => zsh_completion_path(windows, home),
        Shell::Fish => fish_completion_path(windows, roaming, xdg, home),
        Shell::PowerShell => Err(
            ApiError::InvalidInput(
                "`jira completions powershell --install` is not supported. Redirect `jira completions powershell` into your PowerShell profile or completion path manually.".to_owned(),
            ),
        ),
        Shell::Other(name) => Err(
            ApiError::InvalidInput(
                text::cat5(
                    "`jira completions ",
                    name.as_str(),
                    " --install` is not supported. Redirect `jira completions ",
                    name.as_str(),
                    "` into your shell completion path manually.",
                ),
            ),
        ),
    }
}

/// What is said of a file of completions that was just written.
pub open spec fn note(shell: Shell, path: Seq<char>) -> Seq<char> {
    "Generated completion file at "@ + path + match shell {
        Shell::Bash =>
            ". Source it from your shell startup if ~/.bash_completion.d is not loaded automatically."@,
        Shell::Zsh =>
            ". Ensure its parent directory is in `fpath`, then run `autoload -Uz compinit && compinit`."@,
        _ => ". Fish loads this path automatically."@,
    }
}

/// Reports that the completions for a shell were installed.
pub fn installed(shell: &Shell, path: &str, out: &OutputConfig) -> (result: Vec<Printed>)
    requires
        not_installable(*shell) is None,
    ensures
        output::printed_views(result@) == output::message_view(*out, note(*shell, path@))
            + output::message_view(*out, "Completion file path: "@ + path@),
{
    let advice: &str = match shell {
        Shell::Bash => ". Source it from your shell startup if ~/.bash_completion.d is not loaded automatically.",
        Shell::Zsh => ". Ensure its parent directory is in `fpath`, then run `autoload -Uz compinit && compinit`.",
        _ => ". Fish loads this path automatically.",
    };
    let first = text::cat3("Generated completion file at ", path, advice);
    let second = text::cat2("Completion file path: ", path);
    let mut result: Vec<Printed> = Vec::new();
    output::push_message(&mut result, out, first.as_str());
    output::push_message(&mut result, out, second.as_str());
    assert(output::printed_views(result@) =~= output::message_view(*out, note(*shell, path@))
        + output::message_view(*out, "Completion file path: "@ + path@));
    result
}

/// The error where the directory of a file of completions cannot be made.
pub fn cannot_create(parent: &str, problem: &str) -> (result: ApiError)
    ensures
        result@ == ErrorView::Other("cannot create "@ + parent@ + ": "@ + problem@),
{
    ApiError::Other(text::cat4("cannot create ", parent, ": ", problem))
}

/// The error where a file of completions cannot be written.
pub fn cannot_write(path: &str, problem: &str) -> (result: ApiError)
    ensures
        result@ == ErrorView::Other("cannot write "@ + path@ + ": "@ + problem@),
{
    ApiError::Other(text::cat4("cannot write ", path, ": ", problem))
}

} // verus!
