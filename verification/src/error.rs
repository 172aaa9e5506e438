//! One error type for the whole crate.
//!
//! Every variant carries what a user needs to act on it: which path, which git
//! invocation, what git said. A refusal that does not say what happened is a
//! guess.

use vstd::prelude::*;

use crate::compose::{cat2, cat3, cat5};
use crate::number::{show_signed, signed};
use crate::paths::{display, displayed};
use crate::text::Text;

verus! {

/// Everything that can go wrong below the command line.
#[derive(Debug)]
pub enum Error {
    /// A filesystem operation failed on this path, and what the system said.
    Io(String, String),
    /// `git` could not be spawned at all, and what the system said.
    Spawn(String),
    /// `git` ran and exited non-zero.
    Git {
        /// The arguments passed to git, for the message. Never the environment.
        args: String,
        /// Exit status, or `None` if git was killed by a signal.
        code: Option<i32>,
        /// What git wrote to stderr, trimmed.
        stderr: String,
    },
    /// A `meta.json` could not be written or parsed, and why.
    Meta(String, String),
    /// No usable cache directory could be determined from the environment.
    NoCacheDir,
    /// The sandbox could not be built for a structural reason of our own.
    Sandbox(String),
    /// The request was refused, with the whole explanation.
    Refused(String),
}

/// The model of an [`Error`].
pub enum Fault {
    Io(Text, Text),
    Spawn(Text),
    Git { args: Text, code: Option<i32>, stderr: Text },
    Meta(Text, Text),
    NoCacheDir,
    Sandbox(Text),
    Refused(Text),
}

impl DeepView for Error {
    type V = Fault;

    open spec fn deep_view(&self) -> Fault {
        match self {
            Error::Io(path, source) => Fault::Io(path@, source@),
            Error::Spawn(source) => Fault::Spawn(source@),
            Error::Git { args, code, stderr } => Fault::Git {
                args: args@,
                code: *code,
                stderr: stderr@,
            },
            Error::Meta(path, source) => Fault::Meta(path@, source@),
            Error::NoCacheDir => Fault::NoCacheDir,
            Error::Sandbox(message) => Fault::Sandbox(message@),
            Error::Refused(message) => Fault::Refused(message@),
        }
    }
}

/// How a git exit is put into words.
pub open spec fn exit_words(code: Option<i32>) -> Text {
    match code {
        Some(code) => "exit "@ + signed(code as int),
        None => "killed by signal"@,
    }
}

/// What a fault says to the user.
pub open spec fn message_of(fault: Fault) -> Text {
    match fault {
        Fault::Io(path, source) => displayed(path) + ": "@ + source,
        Fault::Spawn(source) => "could not run git: "@ + source,
        Fault::Git { args, code, stderr } => {
            let head = "git "@ + args + " failed ("@ + exit_words(code) + ")"@;
            if stderr.len() == 0 {
                head
            } else {
                head + ": "@ + stderr
            }
        },
        Fault::Meta(path, source) => displayed(path) + ": "@ + source,
        Fault::NoCacheDir =>
            "no cache directory: set GIT_REHEARSE_CACHE_DIR, XDG_CACHE_HOME, or HOME"@,
        Fault::Sandbox(message) => message,
        Fault::Refused(message) => message,
    }
}

impl Error {
    /// What the error says to the user.
    pub fn to_string(&self) -> (message: String)
        ensures
            message@ == message_of(self.deep_view()),
    {
        match self {
            Error::Io(path, source) => cat3(&display(path), ": ", source),
            Error::Spawn(source) => cat2("could not run git: ", source),
            Error::Git { args, code, stderr } => {
                let status = match code {
                    Some(code) => cat2("exit ", &show_signed(*code)),
                    None => "killed by signal".to_owned(),
                };
                let head = cat5("git ", args, " failed (", &status, ")");
                if stderr.as_str().is_empty() {
                    head
                } else {
                    cat3(&head, ": ", stderr)
                }
            },
            Error::Meta(path, source) => cat3(&display(path), ": ", source),
            Error::NoCacheDir =>
                "no cache directory: set GIT_REHEARSE_CACHE_DIR, XDG_CACHE_HOME, or HOME".to_owned(),
            Error::Sandbox(message) => message.clone(),
            Error::Refused(message) => message.clone(),
        }
    }

    /// The filesystem error of a path.
    pub fn io(path: &str, source: &str) -> (error: Error)
        ensures
            error.deep_view() == Fault::Io(path@, source@),
    {
        Error::Io(path.to_owned(), source.to_owned())
    }

    /// An equal error.
    pub fn copy(&self) -> (error: Error)
        ensures
            error.deep_view() == self.deep_view(),
    {
        match self {
            Error::Io(path, source) => Error::Io(path.clone(), source.clone()),
            Error::Spawn(source) => Error::Spawn(source.clone()),
            Error::Git { args, code, stderr } => Error::Git {
                args: args.clone(),
                code: *code,
                stderr: stderr.clone(),
            },
            Error::Meta(path, source) => Error::Meta(path.clone(), source.clone()),
            Error::NoCacheDir => Error::NoCacheDir,
            Error::Sandbox(message) => Error::Sandbox(message.clone()),
            Error::Refused(message) => Error::Refused(message.clone()),
        }
    }
}

} // verus!
