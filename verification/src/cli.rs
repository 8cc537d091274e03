//! What the command line asks for.
use crate::failure::Failure;
use crate::file_path::FilePath;
use vstd::prelude::*;

verus! {

/// One command.
#[derive(Debug, PartialEq, Eq)]
pub enum Command {
    /// Run an app.
    Start {
        /// The executable.
        binary: FilePath,
        /// The name of the app, where it is not the file name of the executable.
        name: Option<String>,
        /// Where the app runs, where it is not the current directory.
        cwd: Option<FilePath>,
        /// The file that adds to the environment.
        env_file: Option<FilePath>,
        /// The arguments of the app.
        args: Vec<String>,
    },
    /// Stop an app.
    Stop {
        /// Its name.
        name: String,
    },
    /// Stop an app and run it again.
    Restart {
        /// Its name.
        name: String,
    },
    /// Stop an app and run it again, with a new environment or not.
    Reload {
        /// Its name.
        name: String,
        /// Whether it gets a new environment.
        update_env: bool,
    },
    /// Show what runs.
    List,
    /// Make a snapshot of what is online.
    Save,
    /// Follow the logs of an app.
    Logs {
        /// Its name.
        name: String,
    },
    /// Clear the logs of an app.
    Flush {
        /// Its name.
        name: String,
    },
    /// Stop an app and forget it.
    Delete {
        /// Its name.
        name: String,
    },
    /// Have the daemon started with the session of the user.
    Startup,
    /// Have the daemon no longer started with the session of the user.
    Unstartup,
    /// Show the version.
    Version,
    /// Be the daemon.
    Daemon,
}

/// The whole command line.
#[derive(Debug, PartialEq, Eq)]
pub struct AynurCli {
    /// The version is asked for.
    pub show_version: bool,
    /// The command, where there is one.
    pub command: Option<Command>,
}

impl AynurCli {
    /// Whether all that is asked for is the version. This needs no state directory.
    pub fn wants_version(&self) -> (r: bool)
        ensures
            r == (self.show_version || self.command == Some(Command::Version)),
    {
        self.show_version || matches!(&self.command, Some(Command::Version))
    }

    /// The command; that there is none is an error.
    pub fn into_command(self) -> (r: Result<Command, Failure>)
        ensures
            match self.command {
                Some(command) => r == Ok::<Command, Failure>(command),
                None => r is Err && r->Err_0@ == seq![
                    "missing command; run `aynur help` for usage"@,
                ],
            },
    {
        match self.command {
            Some(command) => Ok(command),
            None => Err(
                Failure::new("missing command; run `aynur help` for usage".to_owned()),
            ),
        }
    }
}

} // verus!
