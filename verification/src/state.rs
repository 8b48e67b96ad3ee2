//! The state that the shell shares with its plugins, and the decisions behind
//! `cd` and running a command.
//!
//! Nothing here touches the operating system. `exec` says what has to be
//! done; the caller does it and reports the answer to `set_cwd` or
//! `conclude`, which decide what the answer means for the shell.

use crate::error::{is_not_found, ZulaError};
use std::collections::HashMap;
use vstd::prelude::*;

verus! {

/// Holds configuration info.
pub struct Config {
    /// Alias name to the text it expands to.
    pub aliases: HashMap<String, String>,
    /// Key to the command it is bound to.
    pub hotkeys: HashMap<char, String>,
    /// Gates destructive operations.
    pub safety: bool,
}

impl Config {
    /// No aliases, no hotkeys, safety off.
    pub fn new() -> (config: Config)
        ensures
            config.aliases@ == Map::<String, String>::empty(),
            config.hotkeys@ == Map::<char, String>::empty(),
            !config.safety,
    {
        Config { aliases: HashMap::new(), hotkeys: HashMap::new(), safety: false }
    }
}

/// The core shell state object: what a plugin may read and change while it
/// is invoked.
pub struct ShellState {
    cwd: String,
    /// The lines entered so far, oldest first.
    pub history: Vec<String>,
    /// Aliases, hotkeys and the safety flag.
    pub config: Config,
}

/// What the operating system answered when asked to change directory.
pub enum DirChange {
    /// It refused: the process is where it was.
    Refused,
    /// It changed directory, and was then asked where the process is.
    Entered(Result<String, std::io::Error>),
}

/// What `exec` asks its caller to do.
pub enum Step<'a> {
    /// Ask the operating system to enter this directory, then report the
    /// answer to `set_cwd`.
    ChangeDir(&'a String),
    /// Start this program with these arguments as they stand, wait for it to
    /// end, then report to `conclude`.
    Spawn { program: &'a str, args: &'a [String] },
}

/// How an attempt to run a program went.
pub enum Run {
    /// The program could not be started.
    SpawnFailed(std::io::Error),
    /// The program started, but waiting for it failed.
    WaitFailed(std::io::Error),
    /// The program ran and ended; its exit status is of no concern here.
    Exited,
}

impl ShellState {
    /// The tracked working directory.
    pub closed spec fn spec_cwd(&self) -> Seq<char> {
        self.cwd@
    }

    /// The lines entered so far, for contracts outside this module.
    pub closed spec fn spec_history(&self) -> Seq<String> {
        self.history@
    }

    /// The configuration, for contracts outside this module.
    pub closed spec fn spec_config(&self) -> Config {
        self.config
    }

    /// This state with `dir` as the tracked working directory.
    pub closed spec fn entered(self, dir: String) -> ShellState {
        ShellState { cwd: dir, history: self.history, config: self.config }
    }

    /// The state that a reported directory change leaves behind.
    pub open spec fn after_change(self, change: DirChange) -> ShellState {
        match change {
            DirChange::Entered(Ok(dir)) => self.entered(dir),
            _ => self,
        }
    }

    /// What a reported directory change means to the one who asked for it.
    pub open spec fn change_result(change: DirChange) -> Result<(), ZulaError> {
        match change {
            DirChange::Refused => Err(ZulaError::InvalidDir),
            DirChange::Entered(Err(e)) => Err(ZulaError::Io(e)),
            DirChange::Entered(Ok(_)) => Ok(()),
        }
    }

    /// What `exec` decides for `cmd` and `args`.
    pub open spec fn planned<'a>(cmd: &'a str, args: &'a [String]) -> Result<Step<'a>, ZulaError> {
        if cmd@ == "cd"@ {
            if args@.len() == 0 {
                Err(ZulaError::CommandEmpty)
            } else {
                Ok(Step::ChangeDir(&args@[0]))
            }
        } else {
            Ok(Step::Spawn { program: cmd, args })
        }
    }

    /// Initializes the state of a new shell from what the operating system
    /// reported as the current directory.
    pub fn new(cwd: Result<String, std::io::Error>) -> (made: Result<ShellState, ZulaError>)
        ensures
            (match cwd {
                Ok(dir) => made matches Ok(state) && state.spec_cwd() == dir@
                    && state.spec_history().len() == 0
                    && state.spec_config().aliases@ == Map::<String, String>::empty()
                    && state.spec_config().hotkeys@ == Map::<char, String>::empty()
                    && !state.spec_config().safety,
                Err(e) => made matches Err(err) && err == ZulaError::Io(e),
            }),
    {
        match cwd {
            Ok(dir) => Ok(ShellState { cwd: dir, history: Vec::new(), config: Config::new() }),
            Err(e) => Err(ZulaError::Io(e)),
        }
    }

    /// Get the current working directory of the shell.
    pub fn get_cwd(&self) -> (cwd: &str)
        ensures
            cwd@ == self.spec_cwd(),
    {
        self.cwd.as_str()
    }

    /// Records what the operating system answered to a request to change
    /// directory. A refusal is `InvalidDir` and a failure to report the new
    /// directory is `Io`; the tracked directory then stays as it was.
    /// Otherwise the directory that the operating system reported becomes
    /// the tracked one.
    pub fn set_cwd(&mut self, change: DirChange) -> (done: Result<(), ZulaError>)
        ensures
            *final(self) == old(self).after_change(change),
            done == Self::change_result(change),
            (final(self).spec_cwd() == match change {
                DirChange::Entered(Ok(dir)) => dir@,
                _ => old(self).spec_cwd(),
            }),
            final(self).spec_history() == old(self).spec_history(),
            final(self).spec_config() == old(self).spec_config(),
    {
        match change {
            DirChange::Refused => Err(ZulaError::InvalidDir),
            DirChange::Entered(Err(e)) => Err(ZulaError::Io(e)),
            DirChange::Entered(Ok(dir)) => {
                self.cwd = dir;
                Ok(())
            },
        }
    }

    /// Decides how to execute a command. Does no processing such as aliases,
    /// chaining, and quoting.
    ///
    /// `cd` is the shell's own: it asks for a change to its first argument,
    /// and without one it is `CommandEmpty`. Every other name is a program
    /// to start with the arguments as they stand.
    pub fn exec<'a>(&self, cmd: &'a str, args: &'a [String]) -> (step: Result<Step<'a>, ZulaError>)
        ensures
            step == Self::planned(cmd, args),
    {
        if same_text(cmd, "cd") {
            if args.len() == 0 {
                Err(ZulaError::CommandEmpty)
            } else {
                Ok(Step::ChangeDir(&args[0]))
            }
        } else {
            Ok(Step::Spawn { program: cmd, args })
        }
    }

    /// Decides what an attempt to run `cmd` means. A program that could not
    /// be started because none of that name was found is `InvalidCmd` with
    /// the name; any other failure to start it or to wait for it is `Io`
    /// with the operating system's error.
    pub fn conclude(cmd: &str, run: Run) -> (done: Result<(), ZulaError>)
        ensures
            (match run {
                Run::SpawnFailed(e) => if crate::error::kind_is_not_found(e) {
                    done matches Err(ZulaError::InvalidCmd(name)) && name@ == cmd@
                } else {
                    done == Err::<(), ZulaError>(ZulaError::Io(e))
                },
                Run::WaitFailed(e) => done == Err::<(), ZulaError>(ZulaError::Io(e)),
                Run::Exited => done is Ok,
            }),
    {
        match run {
            Run::SpawnFailed(e) => {
                let missing = is_not_found(&e);
                Err(ZulaError::spawn_failure(cmd, missing, e))
            },
            Run::WaitFailed(e) => Err(ZulaError::Io(e)),
            Run::Exited => Ok(()),
        }
    }
}

/// Whether two strings hold the same characters.
pub(crate) fn same_text(a: &str, b: &str) -> (same: bool)
    ensures
        same == (a@ == b@),
{
    a.to_owned() == b.to_owned()
}

/// Entering a directory succeeds, and the tracked directory is then the one
/// that the operating system reported. History and configuration are as
/// they were.
pub proof fn law_entered_directory_is_tracked(state: ShellState, dir: String)
    ensures
        ShellState::change_result(DirChange::Entered(Ok(dir))) is Ok,
        state.after_change(DirChange::Entered(Ok(dir))).spec_cwd() == dir@,
        state.after_change(DirChange::Entered(Ok(dir))).spec_history() == state.spec_history(),
        state.after_change(DirChange::Entered(Ok(dir))).spec_config() == state.spec_config(),
{
}

/// A change that did not succeed is an error, `InvalidDir` where the
/// operating system refused, and leaves the whole state as it was.
pub proof fn law_failed_change_keeps_state(state: ShellState, change: DirChange)
    requires
        !(change matches DirChange::Entered(Ok(_))),
    ensures
        ShellState::change_result(change) is Err,
        change is Refused ==> ShellState::change_result(change) == Err::<(), ZulaError>(
            ZulaError::InvalidDir,
        ),
        state.after_change(change) == state,
        state.after_change(change).spec_cwd() == state.spec_cwd(),
{
}

/// `cd` without a directory is `CommandEmpty`; with one it asks for a change
/// to the first; no other command is the shell's own.
pub proof fn law_cd_is_the_only_builtin(cmd: &str, args: &[String])
    ensures
        cmd@ == "cd"@ && args@.len() == 0 ==> ShellState::planned(cmd, args) == Err::<
            Step,
            ZulaError,
        >(ZulaError::CommandEmpty),
        cmd@ == "cd"@ && args@.len() > 0 ==> ShellState::planned(cmd, args) == Ok::<
            Step,
            ZulaError,
        >(Step::ChangeDir(&args@[0])),
        cmd@ != "cd"@ ==> ShellState::planned(cmd, args) == Ok::<Step, ZulaError>(
            Step::Spawn { program: cmd, args },
        ),
{
}

} // verus!
