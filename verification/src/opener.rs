//! Choosing the system command that opens a path in the file manager.
//!
//! Each platform family has its own opener: `cmd /C start` on Windows,
//! `open` on macOS, `xdg-open` elsewhere. The choice of program and
//! argument list is decided and verified here; performing the spawn is
//! the caller's business. The family is an explicit value, not a
//! compile-time flag, so every arm is checked.

use vstd::prelude::*;

verus! {

/// The platform family a path is opened on.
#[derive(Clone, Copy, Debug, PartialEq, Eq, Structural)]
pub enum OsFamily {
    /// Windows: `cmd /C start "" <path>`.
    Windows,
    /// macOS: `open <path>`.
    MacOs,
    /// Linux and other desktops with `xdg-open`.
    Linux,
}

/// A fully decided invocation: the program to run and its arguments, in
/// order.
pub struct OpenCommand {
    /// The program's name.
    pub program: String,
    /// The arguments, in the order they are passed.
    pub args: Vec<String>,
}

/// Builds the invocation that asks `os`'s file manager to open `path`.
/// On Windows the empty argument is `start`'s window-title parameter, so
/// the path is never mistaken for a title.
pub fn open_command(os: OsFamily, path: String) -> (c: OpenCommand)
    ensures
        (match os {
            OsFamily::Windows => c.program@ == "cmd"@ && c.args@.len() == 4 && c.args@[0]@
                == "/C"@ && c.args@[1]@ == "start"@ && c.args@[2]@ == ""@ && c.args@[3]@
                == path@,
            OsFamily::MacOs => c.program@ == "open"@ && c.args@.len() == 1 && c.args@[0]@
                == path@,
            OsFamily::Linux => c.program@ == "xdg-open"@ && c.args@.len() == 1 && c.args@[0]@
                == path@,
        }),
{
    match os {
        OsFamily::Windows => {
            let mut args: Vec<String> = Vec::new();
            args.push("/C".to_owned());
            args.push("start".to_owned());
            args.push("".to_owned());
            args.push(path);
            OpenCommand { program: "cmd".to_owned(), args }
        },
        OsFamily::MacOs => {
            let mut args: Vec<String> = Vec::new();
            args.push(path);
            OpenCommand { program: "open".to_owned(), args }
        },
        OsFamily::Linux => {
            let mut args: Vec<String> = Vec::new();
            args.push(path);
            OpenCommand { program: "xdg-open".to_owned(), args }
        },
    }
}

/// The note printed before an open is attempted.
pub open spec fn spec_open_attempt_message(path: Seq<char>) -> Seq<char> {
    "[Rust Command] Attempting to open path: "@ + path
}

/// Describes the open about to be attempted.
pub fn open_attempt_message(path: &str) -> (r: String)
    ensures
        r@ == spec_open_attempt_message(path@),
{
    let mut r = "[Rust Command] Attempting to open path: ".to_owned();
    r.append(path);
    r
}

/// The error reported when the opener could not be spawned on `os`.
pub open spec fn spec_open_error_message(os: OsFamily, detail: Seq<char>) -> Seq<char> {
    match os {
        OsFamily::Windows => "Failed to open path on Windows with start: "@ + detail,
        OsFamily::MacOs => "Failed to open path on macOS: "@ + detail,
        OsFamily::Linux => "Failed to open path on Linux: "@ + detail,
    }
}

/// Describes a failed attempt to spawn `os`'s opener.
pub fn open_error_message(os: OsFamily, detail: &str) -> (r: String)
    ensures
        r@ == spec_open_error_message(os, detail@),
{
    let mut r = match os {
        OsFamily::Windows => "Failed to open path on Windows with start: ".to_owned(),
        OsFamily::MacOs => "Failed to open path on macOS: ".to_owned(),
        OsFamily::Linux => "Failed to open path on Linux: ".to_owned(),
    };
    r.append(detail);
    r
}

} // verus!
