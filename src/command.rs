use vstd::prelude::*;
use vstd::string::*;

use crate::error::Error;
use crate::level::Level;
use crate::text::{debug_quoted, list_of, list_text, quote_debug, views};

verus! {

/// How the transport passes an argument to the remote shell.
pub enum ArgKind {
    /// Quoted by the transport, so that the remote shell sees one word.
    Escaped(String),
    /// Passed verbatim: shell syntax in it takes effect.
    Raw(String),
}

impl ArgKind {
    pub open spec fn is_raw(&self) -> bool {
        self is Raw
    }

    pub open spec fn text(&self) -> Seq<char> {
        match self {
            ArgKind::Escaped(s) => s@,
            ArgKind::Raw(s) => s@,
        }
    }

    /// An argument that the transport quotes.
    pub fn escaped(value: &str) -> (r: ArgKind)
        ensures
            !r.is_raw(),
            r.text() == value@,
    {
        ArgKind::Escaped(value.to_owned())
    }

    /// An argument that the transport passes verbatim.
    pub fn raw(value: &str) -> (r: ArgKind)
        ensures
            r.is_raw(),
            r.text() == value@,
    {
        ArgKind::Raw(value.to_owned())
    }
}

/// An argument of a remote command, as a value.
pub struct ArgView {
    pub raw: bool,
    pub value: Seq<char>,
    /// What the logs show instead of the value, if anything.
    pub placeholder: Option<Seq<char>>,
}

impl ArgView {
    pub open spec fn escaped(value: Seq<char>) -> ArgView {
        ArgView { raw: false, value, placeholder: None }
    }

    pub open spec fn raw(value: Seq<char>) -> ArgView {
        ArgView { raw: true, value, placeholder: None }
    }
}

/// One argument of a remote command.
pub struct Arg {
    pub kind: ArgKind,
    pub display_placeholder: Option<String>,
}

impl View for Arg {
    type V = ArgView;

    open spec fn view(&self) -> ArgView {
        ArgView {
            raw: self.kind.is_raw(),
            value: self.kind.text(),
            placeholder: match self.display_placeholder {
                Some(p) => Some(p@),
                None => None,
            },
        }
    }
}

/// What the log shows for an argument: its placeholder if it has one,
/// else its quoted value, marked `Raw(..)` when it is raw.
pub open spec fn arg_display(a: ArgView) -> Seq<char> {
    match a.placeholder {
        Some(p) => p,
        None => if a.raw {
            "Raw("@ + debug_quoted(a.value) + ")"@
        } else {
            debug_quoted(a.value)
        },
    }
}

impl Arg {
    /// An escaped argument shown as itself in the log.
    pub fn escaped(value: &str) -> (r: Arg)
        ensures
            r@ == ArgView::escaped(value@),
    {
        Arg { kind: ArgKind::escaped(value), display_placeholder: None }
    }

    /// A raw argument shown as itself in the log.
    pub fn raw(value: &str) -> (r: Arg)
        ensures
            r@ == ArgView::raw(value@),
    {
        Arg { kind: ArgKind::raw(value), display_placeholder: None }
    }

    /// What the log shows for this argument.
    pub fn display(&self) -> (r: String)
        ensures
            r@ == arg_display(self@),
    {
        match &self.display_placeholder {
            Some(p) => p.clone(),
            None => match &self.kind {
                ArgKind::Escaped(s) => quote_debug(s.as_str()),
                ArgKind::Raw(s) => {
                    let mut r = "Raw(".to_owned();
                    let q = quote_debug(s.as_str());
                    r.append(q.as_str());
                    r.append(")");
                    r
                },
            },
        }
    }
}

/// The views of a sequence of arguments.
pub open spec fn arg_views(args: Seq<Arg>) -> Seq<ArgView> {
    args.map_values(|a: Arg| a@)
}

/// Escaped arguments, one for each string.
pub open spec fn escaped_args(values: Seq<&str>) -> Seq<ArgView> {
    values.map_values(|v: &str| ArgView::escaped(v@))
}

/// Raw arguments, one for each string.
pub open spec fn raw_args(values: Seq<&str>) -> Seq<ArgView> {
    values.map_values(|v: &str| ArgView::raw(v@))
}

/// A remote command as a value.
pub struct CommandView {
    pub argv: Seq<ArgView>,
    pub command_log_level: Level,
    pub stdout_log_level: Level,
    pub stderr_log_level: Level,
    pub allow_failure: bool,
}

/// A remote command: its arguments, the severities at which it is logged,
/// and whether a non-zero exit code is an error.
pub struct Command {
    pub argv: Vec<Arg>,
    pub command_log_level: Level,
    pub stdout_log_level: Level,
    pub stderr_log_level: Level,
    pub allow_failure: bool,
}

impl View for Command {
    type V = CommandView;

    open spec fn view(&self) -> CommandView {
        CommandView {
            argv: arg_views(self.argv@),
            command_log_level: self.command_log_level,
            stdout_log_level: self.stdout_log_level,
            stderr_log_level: self.stderr_log_level,
            allow_failure: self.allow_failure,
        }
    }
}

/// A new command with the default severities (command and stdout at
/// `Info`, stderr at `Error`) that fails on a non-zero exit code.
pub open spec fn fresh_command(argv: Seq<ArgView>) -> CommandView {
    CommandView {
        argv,
        command_log_level: Level::Info,
        stdout_log_level: Level::Info,
        stderr_log_level: Level::Error,
        allow_failure: false,
    }
}

/// The record logged when a command starts.
pub open spec fn command_log_line(c: CommandView) -> Seq<char> {
    "running "@ + list_text(c.argv.map_values(|a: ArgView| arg_display(a)))
}

/// What running a command yields, given how the process ended and what
/// each of its output streams gave.
pub open spec fn run_outcome(
    allow_failure: bool,
    status: Option<i32>,
    stdout: Result<String, Error>,
    stderr: Result<String, Error>,
) -> Result<CommandOutput, Error> {
    match status {
        None => Err(Error::MissingExitCode),
        Some(code) => if !allow_failure && code != 0 {
            Err(Error::Failed { code })
        } else {
            match stdout {
                Err(e) => Err(e),
                Ok(out) => match stderr {
                    Err(e) => Err(e),
                    Ok(err) => Ok(CommandOutput { exit_code: code, stdout: out, stderr: err }),
                },
            }
        },
    }
}

/// What asking for a command's exit code yields, given how the process
/// ended and what each of its output streams gave.
pub open spec fn exit_code_outcome(
    status: Option<i32>,
    stdout: Result<String, Error>,
    stderr: Result<String, Error>,
) -> Result<i32, Error> {
    match status {
        None => Err(Error::MissingExitCode),
        Some(code) => match stdout {
            Err(e) => Err(e),
            Ok(_) => match stderr {
                Err(e) => Err(e),
                Ok(_) => Ok(code),
            },
        },
    }
}

/// Builds escaped arguments.
pub(crate) fn escaped_vec(values: &[&str]) -> (r: Vec<Arg>)
    ensures
        arg_views(r@) == escaped_args(values@),
{
    let mut r: Vec<Arg> = Vec::new();
    let mut i: usize = 0;
    while i < values.len()
        invariant
            i <= values@.len(),
            arg_views(r@) == escaped_args(values@.take(i as int)),
        decreases values@.len() - i,
    {
        r.push(Arg::escaped(values[i]));
        proof {
            assert(escaped_args(values@.take(i + 1)) == escaped_args(values@.take(i as int)).push(
                ArgView::escaped(values@[i as int]@),
            ));
            assert(arg_views(r@) =~= escaped_args(values@.take(i + 1)));
        }
        i += 1;
    }
    proof {
        assert(values@.take(values@.len() as int) == values@);
    }
    r
}

/// Builds raw arguments.
pub(crate) fn raw_vec(values: &[&str]) -> (r: Vec<Arg>)
    ensures
        arg_views(r@) == raw_args(values@),
{
    let mut r: Vec<Arg> = Vec::new();
    let mut i: usize = 0;
    while i < values.len()
        invariant
            i <= values@.len(),
            arg_views(r@) == raw_args(values@.take(i as int)),
        decreases values@.len() - i,
    {
        r.push(Arg::raw(values[i]));
        proof {
            assert(raw_args(values@.take(i + 1)) == raw_args(values@.take(i as int)).push(
                ArgView::raw(values@[i as int]@),
            ));
            assert(arg_views(r@) =~= raw_args(values@.take(i + 1)));
        }
        i += 1;
    }
    proof {
        assert(values@.take(values@.len() as int) == values@);
    }
    r
}

/// Moves the arguments of `tail` to the end of `head`.
fn append_args(head: &mut Vec<Arg>, tail: Vec<Arg>)
    ensures
        arg_views(final(head)@) == arg_views(old(head)@) + arg_views(tail@),
{
    let mut tail = tail;
    let ghost head0 = arg_views(head@);
    let ghost tail0 = arg_views(tail@);
    head.append(&mut tail);
    proof {
        assert(arg_views(head@) =~= head0 + tail0);
    }
}

impl Command {
    /// A command of escaped arguments, with the default settings.
    pub fn new(argv: &[&str]) -> (r: Command)
        ensures
            r@ == fresh_command(escaped_args(argv@)),
    {
        Command {
            argv: escaped_vec(argv),
            command_log_level: Level::Info,
            stdout_log_level: Level::Info,
            stderr_log_level: Level::Error,
            allow_failure: false,
        }
    }

    /// A command of raw arguments, with the default settings.
    pub fn new_raw(argv: &[&str]) -> (r: Command)
        ensures
            r@ == fresh_command(raw_args(argv@)),
    {
        Command {
            argv: raw_vec(argv),
            command_log_level: Level::Info,
            stdout_log_level: Level::Info,
            stderr_log_level: Level::Error,
            allow_failure: false,
        }
    }

    /// Appends an escaped argument.
    pub fn arg(self, arg: &str) -> (r: Command)
        ensures
            r@ == (CommandView { argv: self@.argv.push(ArgView::escaped(arg@)), ..self@ }),
    {
        let mut s = self;
        s.argv.push(Arg::escaped(arg));
        proof {
            assert(arg_views(s.argv@) =~= self@.argv.push(ArgView::escaped(arg@)));
        }
        s
    }

    /// Appends a raw argument: the transport does not quote it.
    pub fn raw_arg(self, arg: &str) -> (r: Command)
        ensures
            r@ == (CommandView { argv: self@.argv.push(ArgView::raw(arg@)), ..self@ }),
    {
        let mut s = self;
        s.argv.push(Arg::raw(arg));
        proof {
            assert(arg_views(s.argv@) =~= self@.argv.push(ArgView::raw(arg@)));
        }
        s
    }

    /// Appends an escaped argument that the log shows as `placeholder`.
    pub fn redacted_arg(self, arg: &str, placeholder: &str) -> (r: Command)
        ensures
            r@ == (CommandView {
                argv: self@.argv.push(
                    ArgView { raw: false, value: arg@, placeholder: Some(placeholder@) },
                ),
                ..self@
            }),
    {
        let mut s = self;
        s.argv.push(
            Arg { kind: ArgKind::escaped(arg), display_placeholder: Some(placeholder.to_owned()) },
        );
        proof {
            assert(arg_views(s.argv@) =~= self@.argv.push(
                ArgView { raw: false, value: arg@, placeholder: Some(placeholder@) },
            ));
        }
        s
    }

    /// Appends escaped arguments.
    pub fn args(self, args: &[&str]) -> (r: Command)
        ensures
            r@ == (CommandView { argv: self@.argv + escaped_args(args@), ..self@ }),
    {
        let mut s = self;
        append_args(&mut s.argv, escaped_vec(args));
        s
    }

    /// Appends raw arguments.
    pub fn raw_args(self, args: &[&str]) -> (r: Command)
        ensures
            r@ == (CommandView { argv: self@.argv + raw_args(args@), ..self@ }),
    {
        let mut s = self;
        append_args(&mut s.argv, raw_vec(args));
        s
    }

    /// Puts escaped arguments in front of the command.
    pub fn prepend_args(self, args: &[&str]) -> (r: Command)
        ensures
            r@ == (CommandView { argv: escaped_args(args@) + self@.argv, ..self@ }),
    {
        let Command { argv, command_log_level, stdout_log_level, stderr_log_level, allow_failure } =
            self;
        let mut front = escaped_vec(args);
        append_args(&mut front, argv);
        Command { argv: front, command_log_level, stdout_log_level, stderr_log_level, allow_failure }
    }

    /// Runs the command as `user` through `sudo --login --user`, if a user
    /// is given.
    pub fn user(self, user: Option<&str>) -> (r: Command)
        ensures
            r@ == match user {
                Some(u) => CommandView {
                    argv: seq![
                        ArgView::escaped("sudo"@),
                        ArgView::escaped("--login"@),
                        ArgView::escaped("--user"@),
                        ArgView::escaped(u@),
                    ] + self@.argv,
                    ..self@
                },
                None => self@,
            },
    {
        match user {
            Some(u) => {
                let front: [&str; 4] = ["sudo", "--login", "--user", u];
                let r = self.prepend_args(&front);
                proof {
                    assert(escaped_args(front@) =~= seq![
                        ArgView::escaped("sudo"@),
                        ArgView::escaped("--login"@),
                        ArgView::escaped("--user"@),
                        ArgView::escaped(u@),
                    ]);
                }
                r
            },
            None => self,
        }
    }

    /// Accepts a non-zero exit code: running then reports it instead of failing.
    pub fn allow_failure(self) -> (r: Command)
        ensures
            r@ == (CommandView { allow_failure: true, ..self@ }),
    {
        let mut s = self;
        s.allow_failure = true;
        s
    }

    /// Lowers the logs of stdout and stderr to `Trace`.
    pub fn hide_all_output(self) -> (r: Command)
        ensures
            r@ == (CommandView {
                stdout_log_level: Level::Trace,
                stderr_log_level: Level::Trace,
                ..self@
            }),
    {
        self.hide_stdout().hide_stderr()
    }

    /// Lowers the log of stdout to `Trace`.
    pub fn hide_stdout(self) -> (r: Command)
        ensures
            r@ == (CommandView { stdout_log_level: Level::Trace, ..self@ }),
    {
        self.stdout_log_level(Level::Trace)
    }

    /// Sets the severity of the stdout log.
    pub fn stdout_log_level(self, level: Level) -> (r: Command)
        ensures
            r@ == (CommandView { stdout_log_level: level, ..self@ }),
    {
        let mut s = self;
        s.stdout_log_level = level;
        s
    }

    /// Lowers the log of stderr to `Trace`.
    pub fn hide_stderr(self) -> (r: Command)
        ensures
            r@ == (CommandView { stderr_log_level: Level::Trace, ..self@ }),
    {
        self.stderr_log_level(Level::Trace)
    }

    /// Sets the severity of the stderr log.
    pub fn stderr_log_level(self, level: Level) -> (r: Command)
        ensures
            r@ == (CommandView { stderr_log_level: level, ..self@ }),
    {
        let mut s = self;
        s.stderr_log_level = level;
        s
    }

    /// Lowers the record of the command itself to `Trace`.
    pub fn hide_command(self) -> (r: Command)
        ensures
            r@ == (CommandView { command_log_level: Level::Trace, ..self@ }),
    {
        self.command_log_level(Level::Trace)
    }

    /// Sets the severity of the record of the command itself.
    pub fn command_log_level(self, level: Level) -> (r: Command)
        ensures
            r@ == (CommandView { command_log_level: level, ..self@ }),
    {
        let mut s = self;
        s.command_log_level = level;
        s
    }

    /// The first step of running: refuses an empty command, else gives the
    /// record to log before the process is spawned.
    pub fn start(&self) -> (r: Result<String, Error>)
        ensures
            self@.argv.len() == 0 ==> r == Err::<String, Error>(Error::EmptyCommand),
            self@.argv.len() > 0 ==> (r matches Ok(line) && line@ == command_log_line(self@)),
    {
        if self.argv.len() == 0 {
            return Err(Error::EmptyCommand);
        }
        let mut shown: Vec<String> = Vec::new();
        let mut i: usize = 0;
        while i < self.argv.len()
            invariant
                i <= self.argv@.len(),
                views(shown@) == self@.argv.take(i as int).map_values(|a: ArgView| arg_display(a)),
            decreases self.argv@.len() - i,
        {
            let ghost before = views(shown@);
            let d = self.argv[i].display();
            shown.push(d);
            proof {
                assert(self@.argv[i as int] == self.argv@[i as int]@);
                assert(views(shown@) =~= before.push(d@));
                assert(self@.argv.take(i + 1) =~= self@.argv.take(i as int).push(self@.argv[i as int]));
                assert(views(shown@) =~= self@.argv.take(i + 1).map_values(
                    |a: ArgView| arg_display(a),
                ));
            }
            i += 1;
        }
        proof {
            assert(self@.argv.take(self@.argv.len() as int) == self@.argv);
        }
        let mut line = "running ".to_owned();
        let list = list_of(&shown);
        line.append(list.as_str());
        Ok(line)
    }

    /// The last step of running, once the process has ended and both output
    /// streams were read to their end: the exit code must exist and, unless
    /// failure is allowed, be zero; an error of a stream is passed on.
    pub fn finish(
        &self,
        status: Option<i32>,
        stdout: Result<String, Error>,
        stderr: Result<String, Error>,
    ) -> (r: Result<CommandOutput, Error>)
        ensures
            r == run_outcome(self@.allow_failure, status, stdout, stderr),
    {
        match status {
            None => Err(Error::MissingExitCode),
            Some(code) => {
                if !self.allow_failure && code != 0 {
                    Err(Error::Failed { code })
                } else {
                    match stdout {
                        Err(e) => Err(e),
                        Ok(out) => match stderr {
                            Err(e) => Err(e),
                            Ok(err) => Ok(CommandOutput { exit_code: code, stdout: out, stderr: err }),
                        },
                    }
                }
            },
        }
    }

    /// The last step of asking for the exit code: any exit code is an answer.
    pub fn finish_exit_code(
        &self,
        status: Option<i32>,
        stdout: Result<String, Error>,
        stderr: Result<String, Error>,
    ) -> (r: Result<i32, Error>)
        ensures
            r == exit_code_outcome(status, stdout, stderr),
    {
        match status {
            None => Err(Error::MissingExitCode),
            Some(code) => match stdout {
                Err(e) => Err(e),
                Ok(_) => match stderr {
                    Err(e) => Err(e),
                    Ok(_) => Ok(code),
                },
            },
        }
    }
}

/// The exit code and captured output of a finished process.
#[derive(Clone, Debug, PartialEq, Eq, Hash)]
pub struct CommandOutput {
    /// Exit code (zero typically means success).
    pub exit_code: i32,
    /// Captured stdout.
    pub stdout: String,
    /// Captured stderr.
    pub stderr: String,
}

/// Asking for the exit code of a command gives what running it with failure
/// allowed gives, reduced to the exit code; a non-zero code is never an error.
pub proof fn lemma_exit_code_is_allowed_run(
    status: Option<i32>,
    stdout: Result<String, Error>,
    stderr: Result<String, Error>,
)
    ensures
        exit_code_outcome(status, stdout, stderr) == match run_outcome(
            true,
            status,
            stdout,
            stderr,
        ) {
            Ok(o) => Ok(o.exit_code),
            Err(e) => Err::<i32, Error>(e),
        },
{
}

/// The command record does not depend on the value of a redacted argument:
/// two commands whose arguments differ only in the values of arguments that
/// carry a placeholder are logged alike, and the placeholder stands where
/// the value would.
pub proof fn lemma_redacted_values_not_logged(a: CommandView, b: CommandView)
    requires
        a.argv.len() == b.argv.len(),
        forall|i: int|
            0 <= i < a.argv.len() ==> {
                ||| a.argv[i] == b.argv[i]
                ||| (a.argv[i].placeholder is Some && a.argv[i].placeholder == b.argv[i].placeholder)
            },
    ensures
        command_log_line(a) == command_log_line(b),
        forall|i: int|
            0 <= i < a.argv.len() && a.argv[i].placeholder is Some ==> arg_display(a.argv[i])
                == a.argv[i].placeholder.unwrap(),
{
    let da = a.argv.map_values(|x: ArgView| arg_display(x));
    let db = b.argv.map_values(|x: ArgView| arg_display(x));
    assert(da =~= db);
}

} // verus!
