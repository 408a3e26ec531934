//! Settings, and where files are looked for.

use crate::dispatch::DEFAULT_SOCKET_PATH;
use crate::text;
use crate::text::{chars_of, decimal_text, joined, joined3, trim};
use vstd::prelude::*;

verus! {

/// The colours of the user interface.
#[derive(Debug, Clone, Copy, PartialEq, Eq, Structural)]
pub enum ColorScheme {
    /// As the desktop has them.
    System,
    /// Dark.
    Dark,
    /// Light.
    Light,
}

/// The settings.
#[derive(Debug)]
pub struct Config {
    /// Where the control protocol is served.
    pub socket_path: Option<String>,
    /// How many lines a terminal keeps.
    pub scrollback_lines: i64,
    /// The width of the sidebar.
    pub sidebar_width: i32,
    /// The font of the terminals.
    pub font_family: String,
    /// The size of the font.
    pub font_size: u32,
    /// The colours.
    pub color_scheme: ColorScheme,
}

impl Default for Config {
    fn default() -> (config: Self)
        ensures
            config.socket_path is None,
            config.scrollback_lines == 20_000,
            config.sidebar_width == 280,
            config.font_family@ == "Monospace"@,
            config.font_size == 12,
            config.color_scheme == ColorScheme::System,
    {
        Config {
            socket_path: None,
            scrollback_lines: 20_000,
            sidebar_width: 280,
            font_family: "Monospace".to_owned(),
            font_size: 12,
            color_scheme: ColorScheme::System,
        }
    }
}

impl Config {
    /// The font and its size in one text.
    pub fn font_description(&self) -> (description: String)
        ensures
            description@ == self.font_family@ + " "@ + text::decimal(self.font_size as nat),
    {
        joined3(self.font_family.as_str(), " ", decimal_text(self.font_size as u64).as_str())
    }
}

/// A relative path below a directory.
pub open spec fn below(directory: Seq<char>, path: Seq<char>) -> Seq<char> {
    if directory.len() == 0 {
        path
    } else if directory.last() == '/' {
        directory + path
    } else {
        directory + "/"@ + path
    }
}

/// A relative path below a directory.
pub fn path_below(directory: &str, path: &str) -> (whole: String)
    ensures
        whole@ == below(directory@, path@),
{
    let chars = chars_of(directory);
    if chars.len() == 0 {
        path.to_owned()
    } else if chars[chars.len() - 1] == '/' {
        joined(directory, path)
    } else {
        joined3(directory, "/", path)
    }
}

/// Where the settings are, given the values of `XDG_CONFIG_HOME` and `HOME`.
pub open spec fn config_place(config_home: Option<Seq<char>>, home: Option<Seq<char>>) -> Seq<
    char,
> {
    match config_home {
        Some(directory) => below(directory, "cmux/config.toml"@),
        None => match home {
            Some(directory) => below(directory, ".config/cmux/config.toml"@),
            None => "/tmp/cmux-config.toml"@,
        },
    }
}

/// Where the settings are, given the values of `XDG_CONFIG_HOME` and `HOME`.
pub fn config_path(config_home: &Option<String>, home: &Option<String>) -> (path: String)
    ensures
        path@ == config_place(text::opt_text(*config_home), text::opt_text(*home)),
{
    match config_home {
        Some(directory) => path_below(directory.as_str(), "cmux/config.toml"),
        None => match home {
            Some(directory) => path_below(directory.as_str(), ".config/cmux/config.toml"),
            None => "/tmp/cmux-config.toml".to_owned(),
        },
    }
}

/// Where the session is kept, given the values of `CMUX_LINUX_SESSION_FILE`, `XDG_STATE_HOME` and
/// `HOME`.
pub open spec fn session_place(
    file: Option<Seq<char>>,
    state_home: Option<Seq<char>>,
    home: Option<Seq<char>>,
) -> Seq<char> {
    let base = match state_home {
        Some(directory) => directory,
        None => match home {
            Some(directory) => below(directory, ".local/state"@),
            None => "/tmp"@,
        },
    };
    match file {
        Some(path) => path,
        None => below(below(base, "cmux"@), "cmux-linux-session.json"@),
    }
}

/// Where the session is kept, given the values of `CMUX_LINUX_SESSION_FILE`, `XDG_STATE_HOME` and
/// `HOME`.
pub fn configured_session_path(
    file: &Option<String>,
    state_home: &Option<String>,
    home: &Option<String>,
) -> (path: String)
    ensures
        path@ == session_place(
            text::opt_text(*file),
            text::opt_text(*state_home),
            text::opt_text(*home),
        ),
{
    if let Some(path) = file {
        return path.clone();
    }
    let base: String = match state_home {
        Some(directory) => directory.clone(),
        None => match home {
            Some(directory) => path_below(directory.as_str(), ".local/state"),
            None => "/tmp".to_owned(),
        },
    };
    path_below(path_below(base.as_str(), "cmux").as_str(), "cmux-linux-session.json")
}

/// A text that is more than white space.
pub open spec fn said(content: Option<Seq<char>>) -> Option<Seq<char>> {
    match content {
        Some(inner) => if text::trimmed(inner).len() > 0 {
            Some(inner)
        } else {
            None
        },
        None => None,
    }
}

/// Where the control protocol is served, given the values of `CMUX_SOCKET_PATH` and `CMUX_SOCKET`.
pub open spec fn socket_place(first: Option<Seq<char>>, second: Option<Seq<char>>) -> Seq<char> {
    match said(first) {
        Some(path) => path,
        None => match said(second) {
            Some(path) => path,
            None => "/tmp/cmux-linux.sock"@,
        },
    }
}

fn is_said(content: &Option<String>) -> (result: bool)
    ensures
        result == (said(text::opt_text(*content)) is Some),
{
    match content {
        Some(inner) => !trim(inner.as_str()).as_str().is_empty(),
        None => false,
    }
}

/// Where the control protocol is served, given the values of `CMUX_SOCKET_PATH` and `CMUX_SOCKET`.
pub fn configured_socket_path(first: &Option<String>, second: &Option<String>) -> (path: String)
    ensures
        path@ == socket_place(text::opt_text(*first), text::opt_text(*second)),
{
    if is_said(first) {
        if let Some(path) = first {
            return path.clone();
        }
    }
    if is_said(second) {
        if let Some(path) = second {
            return path.clone();
        }
    }
    DEFAULT_SOCKET_PATH.to_owned()
}

} // verus!
