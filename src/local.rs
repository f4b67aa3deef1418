use vstd::prelude::*;
use vstd::string::*;

use crate::command::{exit_code_outcome, run_outcome, CommandOutput};
use crate::error::Error;
use crate::level::Level;
use crate::text::{debug_quoted, list_of, list_text, quote_debug, views};

verus! {

/// A local command as a value.
pub struct LocalCommandView {
    pub argv: Seq<Seq<char>>,
    pub command_log_level: Level,
    pub stdout_log_level: Level,
    pub stderr_log_level: Level,
    pub allow_failure: bool,
}

/// A command for a local process: its arguments, passed to the operating
/// system as they are, the severities at which it is logged, and whether a
/// non-zero exit code is an error.
pub struct LocalCommand {
    pub argv: Vec<String>,
    pub command_log_level: Level,
    pub stdout_log_level: Level,
    pub stderr_log_level: Level,
    pub allow_failure: bool,
}

impl View for LocalCommand {
    type V = LocalCommandView;

    open spec fn view(&self) -> LocalCommandView {
        LocalCommandView {
            argv: views(self.argv@),
            command_log_level: self.command_log_level,
            stdout_log_level: self.stdout_log_level,
            stderr_log_level: self.stderr_log_level,
            allow_failure: self.allow_failure,
        }
    }
}

/// The views of a sequence of string slices.
pub open spec fn str_views(items: Seq<&str>) -> Seq<Seq<char>> {
    items.map_values(|s: &str| s@)
}

/// The record logged when a local command starts.
pub open spec fn local_log_line(c: LocalCommandView) -> Seq<char> {
    "running local command: "@ + list_text(c.argv.map_values(|a: Seq<char>| debug_quoted(a)))
}

/// Copies string slices into owned strings.
pub(crate) fn owned_strings(items: &[&str]) -> (r: Vec<String>)
    ensures
        views(r@) == str_views(items@),
{
    let mut r: Vec<String> = Vec::new();
    let mut i: usize = 0;
    while i < items.len()
        invariant
            i <= items@.len(),
            views(r@) == str_views(items@.take(i as int)),
        decreases items@.len() - i,
    {
        let ghost before = views(r@);
        r.push(items[i].to_owned());
        proof {
            assert(views(r@) =~= before.push(items@[i as int]@));
            assert(str_views(items@.take(i + 1)) =~= str_views(items@.take(i as int)).push(
                items@[i as int]@,
            ));
        }
        i += 1;
    }
    proof {
        assert(items@.take(items@.len() as int) == items@);
    }
    r
}

impl LocalCommand {
    /// A command with the default settings: the command record and stdout
    /// logged at `Info`, stderr at `Error`, and a non-zero exit code an error.
    pub fn new(command: &[&str]) -> (r: LocalCommand)
        ensures
            r@ == (LocalCommandView {
                argv: str_views(command@),
                command_log_level: Level::Info,
                stdout_log_level: Level::Info,
                stderr_log_level: Level::Error,
                allow_failure: false,
            }),
    {
        LocalCommand {
            argv: owned_strings(command),
            command_log_level: Level::Info,
            stdout_log_level: Level::Info,
            stderr_log_level: Level::Error,
            allow_failure: false,
        }
    }

    /// Appends an argument.
    pub fn arg(self, arg: &str) -> (r: LocalCommand)
        ensures
            r@ == (LocalCommandView { argv: self@.argv.push(arg@), ..self@ }),
    {
        let mut s = self;
        s.argv.push(arg.to_owned());
        proof {
            assert(views(s.argv@) =~= self@.argv.push(arg@));
        }
        s
    }

    /// Appends arguments.
    pub fn args(self, args: &[&str]) -> (r: LocalCommand)
        ensures
            r@ == (LocalCommandView { argv: self@.argv + str_views(args@), ..self@ }),
    {
        let mut s = self;
        let ghost head = s@.argv;
        let mut tail = owned_strings(args);
        s.argv.append(&mut tail);
        proof {
            assert(views(s.argv@) =~= head + str_views(args@));
        }
        s
    }

    /// Accepts a non-zero exit code: running then reports it instead of failing.
    pub fn allow_failure(self) -> (r: LocalCommand)
        ensures
            r@ == (LocalCommandView { allow_failure: true, ..self@ }),
    {
        let mut s = self;
        s.allow_failure = true;
        s
    }

    /// Lowers the logs of stdout and stderr to `Trace`.
    pub fn hide_all_output(self) -> (r: LocalCommand)
        ensures
            r@ == (LocalCommandView {
                stdout_log_level: Level::Trace,
                stderr_log_level: Level::Trace,
                ..self@
            }),
    {
        self.hide_stdout().hide_stderr()
    }

    /// Lowers the log of stdout to `Trace`.
    pub fn hide_stdout(self) -> (r: LocalCommand)
        ensures
            r@ == (LocalCommandView { stdout_log_level: Level::Trace, ..self@ }),
    {
        self.stdout_log_level(Level::Trace)
    }

    /// Sets the severity of the stdout log.
    pub fn stdout_log_level(self, level: Level) -> (r: LocalCommand)
        ensures
            r@ == (LocalCommandView { stdout_log_level: level, ..self@ }),
    {
        let mut s = self;
        s.stdout_log_level = level;
        s
    }

    /// Lowers the log of stderr to `Trace`.
    pub fn hide_stderr(self) -> (r: LocalCommand)
        ensures
            r@ == (LocalCommandView { stderr_log_level: Level::Trace, ..self@ }),
    {
        self.stderr_log_level(Level::Trace)
    }

    /// Sets the severity of the stderr log.
    pub fn stderr_log_level(self, level: Level) -> (r: LocalCommand)
        ensures
            r@ == (LocalCommandView { stderr_log_level: level, ..self@ }),
    {
        let mut s = self;
        s.stderr_log_level = level;
        s
    }

    /// Lowers the record of the command itself to `Trace`.
    pub fn hide_command(self) -> (r: LocalCommand)
        ensures
            r@ == (LocalCommandView { command_log_level: Level::Trace, ..self@ }),
    {
        self.command_log_level(Level::Trace)
    }

    /// Sets the severity of the record of the command itself.
    pub fn command_log_level(self, level: Level) -> (r: LocalCommand)
        ensures
            r@ == (LocalCommandView { command_log_level: level, ..self@ }),
    {
        let mut s = self;
        s.command_log_level = level;
        s
    }

    /// The first step of running: refuses an empty command, else gives the
    /// record to log before the process is spawned.
    pub fn start(&self) -> (r: Result<String, Error>)
        ensures
            self@.argv.len() == 0 ==> r == Err::<String, Error>(Error::EmptyCommand),
            self@.argv.len() > 0 ==> (r matches Ok(line) && line@ == local_log_line(self@)),
    {
        if self.argv.len() == 0 {
            return Err(Error::EmptyCommand);
        }
        let mut shown: Vec<String> = Vec::new();
        let mut i: usize = 0;
        while i < self.argv.len()
            invariant
                i <= self.argv@.len(),
                views(shown@) == self@.argv.take(i as int).map_values(
                    |a: Seq<char>| debug_quoted(a),
                ),
            decreases self.argv@.len() - i,
        {
            let ghost before = views(shown@);
            let d = quote_debug(self.argv[i].as_str());
            shown.push(d);
            proof {
                assert(views(shown@) =~= before.push(d@));
                assert(self@.argv.take(i + 1) =~= self@.argv.take(i as int).push(
                    self@.argv[i as int],
                ));
                assert(views(shown@) =~= self@.argv.take(i + 1).map_values(
                    |a: Seq<char>| debug_quoted(a),
                ));
            }
            i += 1;
        }
        proof {
            assert(self@.argv.take(self@.argv.len() as int) == self@.argv);
        }
        let mut line = "running local command: ".to_owned();
        let list = list_of(&shown);
        line.append(list.as_str());
        Ok(line)
    }

    /// The last step of running, once the process has ended and both output
    /// streams were read to their end: the exit code must exist and, unless
    /// failure is allowed, be zero; an error of a stream is passed on.
    pub fn finish(
        &self,
        status: Option<i32>,
        stdout: Result<String, Error>,
        stderr: Result<String, Error>,
    ) -> (r: Result<CommandOutput, Error>)
        ensures
            r == run_outcome(self@.allow_failure, status, stdout, stderr),
    {
        match status {
            None => Err(Error::MissingExitCode),
            Some(code) => {
                if !self.allow_failure && code != 0 {
                    Err(Error::Failed { code })
                } else {
                    match stdout {
                        Err(e) => Err(e),
                        Ok(out) => match stderr {
                            Err(e) => Err(e),
                            Ok(err) => Ok(CommandOutput { exit_code: code, stdout: out, stderr: err }),
                        },
                    }
                }
            },
        }
    }

    /// The last step of asking for the exit code: any exit code is an answer.
    pub fn finish_exit_code(
        &self,
        status: Option<i32>,
        stdout: Result<String, Error>,
        stderr: Result<String, Error>,
    ) -> (r: Result<i32, Error>)
        ensures
            r == exit_code_outcome(status, stdout, stderr),
    {
        match status {
            None => Err(Error::MissingExitCode),
            Some(code) => match stdout {
                Err(e) => Err(e),
                Ok(_) => match stderr {
                    Err(e) => Err(e),
                    Ok(_) => Ok(code),
                },
            },
        }
    }
}

} // verus!
