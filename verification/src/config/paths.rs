//! Where the config file is, and how it is protected.

use crate::config::values;
use crate::json;
use crate::text;
use vstd::prelude::*;

verus! {

broadcast use vstd::string::group_string_axioms;

/// The directory that config files go to: on Windows the roaming application data; elsewhere
/// `XDG_CONFIG_HOME` unless it is empty, else `.config` in the home directory.
pub open spec fn config_home(
    windows: bool,
    roaming: Option<Seq<char>>,
    xdg: Option<Seq<char>>,
    home: Option<Seq<char>>,
) -> Option<Seq<char>> {
    if windows {
        roaming
    } else {
        match xdg {
            Some(dir) => if dir.len() > 0 {
                Some(dir)
            } else {
                home_config(home)
            },
            None => home_config(home),
        }
    }
}

/// `.config` in the home directory.
pub open spec fn home_config(home: Option<Seq<char>>) -> Option<Seq<char>> {
    match home {
        Some(h) => Some(joined(h, ".config"@, '/')),
        None => None,
    }
}

/// A path with one more part.
pub open spec fn joined(base: Seq<char>, part: Seq<char>, separator: char) -> Seq<char> {
    if base.len() == 0 || base.last() == separator {
        base + part
    } else {
        base.push(separator) + part
    }
}

fn join(base: &str, part: &str, separator: char) -> (result: String)
    ensures
        result@ == joined(base@, part@, separator),
{
    let chars = text::chars_of(base);
    let n: usize = chars.len();
    let mut result = base.to_owned();
    if n > 0 && chars[n - 1] != separator {
        result.push(separator);
    }
    result.append(part);
    result
}

/// The directory that config files go to.
pub fn config_dir(
    windows: bool,
    roaming: Option<&str>,
    xdg: Option<&str>,
    home: Option<&str>,
) -> (result: Option<String>)
    ensures
        json::opt_view(result) == config_home(
            windows,
            json::opt_str_view(roaming),
            json::opt_str_view(xdg),
            json::opt_str_view(home),
        ),
{
    if windows {
        return match roaming {
            Some(dir) => Some(dir.to_owned()),
            None => None,
        };
    }
    match xdg {
        Some(dir) => {
            if !dir.is_empty() {
                return Some(dir.to_owned());
            }
        },
        None => {},
    }
    match home {
        Some(h) => Some(join(h, ".config", '/')),
        None => None,
    }
}

/// The environment variable that is read to find the directory that config files go to.
pub fn config_dir_env_name(windows: bool) -> (result: &'static str)
    ensures
        result@ == if windows {
            "APPDATA"@
        } else {
            "XDG_CONFIG_HOME"@
        },
{
    if windows {
        "APPDATA"
    } else {
        "XDG_CONFIG_HOME"
    }
}

/// The character between the parts of a path.
pub open spec fn separator(windows: bool) -> char {
    if windows {
        '\\'
    } else {
        '/'
    }
}

/// A path with one more part.
pub fn under(windows: bool, base: &str, part: &str) -> (result: String)
    ensures
        result@ == joined(base@, part@, separator(windows)),
{
    if windows {
        join(base, part, '\\')
    } else {
        join(base, part, '/')
    }
}

/// The path of the config file, given the directory that config files go to.
pub open spec fn config_file(windows: bool, dir: Option<Seq<char>>) -> Seq<char> {
    let base = match dir {
        Some(d) => d,
        None => ".config"@,
    };
    joined(joined(base, "jira"@, separator(windows)), "config.toml"@, separator(windows))
}

/// The path of the config file, given the directory that config files go to.
pub fn config_path(windows: bool, dir: Option<&str>) -> (result: String)
    ensures
        result@ == config_file(windows, json::opt_str_view(dir)),
{
    let base: &str = match dir {
        Some(d) => d,
        None => ".config",
    };
    let inner = under(windows, base, "jira");
    under(windows, inner.as_str(), "config.toml")
}

/// The path of the config file as `jira schema` shows it.
pub fn schema_config_path(windows: bool, dir: Option<&str>) -> (result: String)
    ensures
        result@ == config_file(windows, json::opt_str_view(dir)),
{
    config_path(windows, dir)
}

/// How the path of the config file is found.
pub fn schema_config_path_description(windows: bool) -> (result: &'static str)
    ensures
        result@ == if windows {
            "Resolved at runtime to %APPDATA%\\jira\\config.toml by default."@
        } else {
            "Resolved at runtime to $XDG_CONFIG_HOME/jira/config.toml when set, otherwise ~/.config/jira/config.toml."@
        },
{
    if windows {
        "Resolved at runtime to %APPDATA%\\jira\\config.toml by default."
    } else {
        "Resolved at runtime to $XDG_CONFIG_HOME/jira/config.toml when set, otherwise ~/.config/jira/config.toml."
    }
}

/// How a config file at `path` is protected.
pub fn recommended_permissions(windows: bool, path: &str) -> (result: String)
    ensures
        result@ == if windows {
            "Store this file in your per-user AppData directory ("@ + path@
                + ") and keep it out of shared folders; Windows applies per-user ACLs there by default."@
        } else {
            "chmod 600 "@ + path@
        },
{
    if windows {
        text::cat3(
            "Store this file in your per-user AppData directory (",
            path,
            ") and keep it out of shared folders; Windows applies per-user ACLs there by default.",
        )
    } else {
        text::cat2("chmod 600 ", path)
    }
}

/// How a config file is protected, as `jira schema` shows it.
pub fn schema_recommended_permissions_example(windows: bool) -> (result: &'static str)
    ensures
        result@ == if windows {
            "Keep the file in your per-user %APPDATA% directory and out of shared folders."@
        } else {
            "chmod 600 /path/to/config.toml"@
        },
{
    if windows {
        "Keep the file in your per-user %APPDATA% directory and out of shared folders."
    } else {
        "chmod 600 /path/to/config.toml"
    }
}

/// The `dcPatInstructions` value `init --json` prints when no host is known.
///
/// Rendered by the same function the command uses, so the schema example cannot
/// drift from the URL a Data Center user is actually handed.
pub fn schema_dc_pat_url_example() -> (result: String)
    ensures
        result@ == "http://<your-host>"@ + values::PAT_PATH@,
{
    values::dc_pat_url(None)
}

} // verus!
