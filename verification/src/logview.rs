//! The log viewer's decisions: which log to read, with which shell command,
//! and which exit code to pass on.

use vstd::prelude::*;
use vstd::string::*;

verus! {

/// A place where the window manager's log can be read.
#[derive(Debug, Clone, Copy, PartialEq, Eq, Hash, Structural)]
pub enum Backend {
    Journald,
    Syslog,
    File,
}

/// One switch for each backend: what the user asked for, or what the build
/// supports.
#[derive(Debug, Clone, Copy, PartialEq, Eq, Hash, Structural)]
pub struct Backends {
    pub journald: bool,
    pub syslog: bool,
    pub file: bool,
}

/// Why no log can be shown.
#[derive(Debug, Clone, Copy, PartialEq, Eq, Hash, Structural)]
pub enum Refusal {
    /// The backend that was asked for is not built in.
    NotBuilt(Backend),
    /// Nothing was asked for and no backend is built in.
    NoLogging,
}

/// The backend that `asked` names, if it names one: journald before syslog
/// before the file.
pub open spec fn asked_backend(asked: Backends) -> Option<Backend> {
    if asked.journald {
        Some(Backend::Journald)
    } else if asked.syslog {
        Some(Backend::Syslog)
    } else if asked.file {
        Some(Backend::File)
    } else {
        None
    }
}

/// `backend` is among `built`.
pub open spec fn is_built(built: Backends, backend: Backend) -> bool {
    match backend {
        Backend::Journald => built.journald,
        Backend::Syslog => built.syslog,
        Backend::File => built.file,
    }
}

/// The backend to read, or why there is none. A backend that was asked for
/// is the one or none is; with nothing asked for it is the first that is
/// built in, journald before syslog before the file.
pub open spec fn chosen_backend(asked: Backends, built: Backends) -> Result<Backend, Refusal> {
    match asked_backend(asked) {
        Some(backend) => if is_built(built, backend) {
            Ok(backend)
        } else {
            Err(Refusal::NotBuilt(backend))
        },
        None => match asked_backend(built) {
            Some(backend) => Ok(backend),
            None => Err(Refusal::NoLogging),
        },
    }
}

/// Picks the backend to read.
pub fn choose_backend(asked: Backends, built: Backends) -> (choice: Result<Backend, Refusal>)
    ensures
        choice == chosen_backend(asked, built),
{
    if asked.journald {
        if built.journald {
            Ok(Backend::Journald)
        } else {
            Err(Refusal::NotBuilt(Backend::Journald))
        }
    } else if asked.syslog {
        if built.syslog {
            Ok(Backend::Syslog)
        } else {
            Err(Refusal::NotBuilt(Backend::Syslog))
        }
    } else if asked.file {
        if built.file {
            Ok(Backend::File)
        } else {
            Err(Refusal::NotBuilt(Backend::File))
        }
    } else if built.journald {
        Ok(Backend::Journald)
    } else if built.syslog {
        Ok(Backend::Syslog)
    } else if built.file {
        Ok(Backend::File)
    } else {
        Err(Refusal::NoLogging)
    }
}

/// The text with which a refusal is reported.
pub open spec fn refusal_text(refusal: Refusal) -> Seq<char> {
    match refusal {
        Refusal::NotBuilt(Backend::Journald) => "Failed to execute: leftwm was not built with journald logging"@,
        Refusal::NotBuilt(Backend::Syslog) => "Failed to execute: leftwm was not built with syslog logging"@,
        Refusal::NotBuilt(Backend::File) => "Failed to execute: leftwm was not built with file logging"@,
        Refusal::NoLogging => "Failed to execute: logging not enabled"@,
    }
}

/// Builds the text with which `refusal` is reported.
pub fn refusal_message(refusal: Refusal) -> (text: String)
    ensures
        text@ == refusal_text(refusal),
{
    match refusal {
        Refusal::NotBuilt(Backend::Journald) => String::from_str(
            "Failed to execute: leftwm was not built with journald logging",
        ),
        Refusal::NotBuilt(Backend::Syslog) => String::from_str(
            "Failed to execute: leftwm was not built with syslog logging",
        ),
        Refusal::NotBuilt(Backend::File) => String::from_str(
            "Failed to execute: leftwm was not built with file logging",
        ),
        Refusal::NoLogging => String::from_str("Failed to execute: logging not enabled"),
    }
}

/// The program that reads a plain file: `tail -f` to keep following it,
/// `cat` to print it once.
pub open spec fn reader_text(follow: bool) -> Seq<char> {
    if follow {
        "tail -f"@
    } else {
        "cat"@
    }
}

/// The shell command that shows the log of `backend`. `log_path` is the log
/// file's path and is read for `Backend::File` alone.
pub open spec fn viewer_text(backend: Backend, follow: bool, log_path: Seq<char>) -> Seq<char> {
    match backend {
        Backend::Journald => "journalctl"@ + (if follow {
            " -f"@
        } else {
            ""@
        })
            + " $(which leftwm-worker) $(which lefthk-worker) $(which leftwm-command)"@,
        Backend::Syslog => reader_text(follow) + " /var/log/syslog | grep \"left[wh][mk].*\""@,
        Backend::File => reader_text(follow) + " "@ + log_path,
    }
}

/// Builds the shell command that shows the log of `backend`.
pub fn viewer_command(backend: Backend, follow: bool, log_path: &str) -> (command: String)
    ensures
        command@ == viewer_text(backend, follow, log_path@),
{
    match backend {
        Backend::Journald => {
            let mut command = String::from_str("journalctl");
            command.append(if follow {
                " -f"
            } else {
                ""
            });
            command.append(" $(which leftwm-worker) $(which lefthk-worker) $(which leftwm-command)");
            command
        },
        Backend::Syslog => {
            let mut command = String::from_str(if follow {
                "tail -f"
            } else {
                "cat"
            });
            command.append(" /var/log/syslog | grep \"left[wh][mk].*\"");
            command
        },
        Backend::File => {
            let mut command = String::from_str(if follow {
                "tail -f"
            } else {
                "cat"
            });
            command.append(" ");
            command.append(log_path);
            command
        },
    }
}

/// The line printed before a log file is shown.
pub open spec fn banner_text(log_path: Seq<char>) -> Seq<char> {
    "output from "@ + log_path + ":"@
}

/// Builds the line printed before the log file `log_path` is shown.
pub fn file_banner(log_path: &str) -> (text: String)
    ensures
        text@ == banner_text(log_path@),
{
    let mut text = String::from_str("output from ");
    text.append(log_path);
    text.append(":");
    text
}

/// The text reported when the viewer could not be started; `cause` is the
/// text of the error.
pub open spec fn spawn_failure_text(cause: Seq<char>) -> Seq<char> {
    "Failed to execute . "@ + cause
}

/// Builds the text reported when the viewer could not be started.
pub fn spawn_failure_message(cause: &str) -> (text: String)
    ensures
        text@ == spawn_failure_text(cause@),
{
    let mut text = String::from_str("Failed to execute . ");
    text.append(cause);
    text
}

/// The exit code to leave with once the viewer has ended: the viewer's own,
/// or 0 where it has none because a signal ended it.
pub fn relay_exit_code(viewer: Option<i32>) -> (code: i32)
    ensures
        code == match viewer {
            Some(own) => own,
            None => 0,
        },
{
    match viewer {
        Some(own) => own,
        None => 0,
    }
}

/// A backend that was asked for is never replaced by another one: the
/// choice is that backend, or a refusal that names it.
pub proof fn lemma_request_is_honoured(asked: Backends, built: Backends, backend: Backend)
    requires
        asked_backend(asked) == Some(backend),
    ensures
        chosen_backend(asked, built) == Ok::<Backend, Refusal>(backend) || chosen_backend(
            asked,
            built,
        ) == Err::<Backend, Refusal>(Refusal::NotBuilt(backend)),
        chosen_backend(asked, built).is_ok() <==> is_built(built, backend),
{
}

/// Whatever is chosen is built in.
pub proof fn lemma_choice_is_built(asked: Backends, built: Backends)
    ensures
        match chosen_backend(asked, built) {
            Ok(backend) => is_built(built, backend),
            Err(_) => true,
        },
{
}

} // verus!
