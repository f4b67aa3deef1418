use vstd::prelude::*;
use vstd::string::*;

use crate::command::{ArgView, Command, CommandView, fresh_command};
use crate::error::Error;
use crate::level::Level;

verus! {

/// The characters after the last newline of `s`.
pub open spec fn open_line(s: Seq<char>) -> Seq<char>
    decreases s.len(),
{
    if s.len() == 0 {
        s
    } else if s.last() == '\n' {
        Seq::empty()
    } else {
        open_line(s.drop_last()).push(s.last())
    }
}

/// The newline-terminated lines of `s`, without their newlines.
pub open spec fn closed_lines(s: Seq<char>) -> Seq<Seq<char>>
    decreases s.len(),
{
    if s.len() == 0 {
        Seq::empty()
    } else if s.last() == '\n' {
        closed_lines(s.drop_last()).push(open_line(s.drop_last()))
    } else {
        closed_lines(s.drop_last())
    }
}

/// The pieces of `s` between newlines, as splitting on `'\n'` gives them.
pub open spec fn pieces(s: Seq<char>) -> Seq<Seq<char>> {
    closed_lines(s).push(open_line(s))
}

/// The position of the first `c` in `s`, or its length if there is none.
pub open spec fn first_index(s: Seq<char>, c: char) -> int
    decreases s.len(),
{
    if s.len() == 0 {
        0
    } else if s[0] == c {
        0
    } else {
        1 + first_index(s.drop_first(), c)
    }
}

/// A line `NAME=VALUE` cut at its first `=`.
pub open spec fn entry_of(line: Seq<char>) -> (Seq<char>, Seq<char>) {
    let k = first_index(line, '=');
    (line.take(k), line.skip(k + 1))
}

/// The variables that the lines give, in order; none if a non-empty line
/// has no `=`. Empty lines are skipped.
pub open spec fn entries_of(lines: Seq<Seq<char>>) -> Option<Seq<(Seq<char>, Seq<char>)>>
    decreases lines.len(),
{
    if lines.len() == 0 {
        Some(Seq::empty())
    } else {
        match entries_of(lines.drop_last()) {
            None => None,
            Some(es) => {
                let l = lines.last();
                if l.len() == 0 {
                    Some(es)
                } else if !l.contains('=') {
                    None
                } else {
                    Some(es.push(entry_of(l)))
                }
            },
        }
    }
}

/// The value that the entries give a name: that of its last entry.
pub open spec fn lookup(es: Seq<(Seq<char>, Seq<char>)>, name: Seq<char>) -> Option<Seq<char>>
    decreases es.len(),
{
    if es.len() == 0 {
        None
    } else if es.last().0 == name {
        Some(es.last().1)
    } else {
        lookup(es.drop_last(), name)
    }
}

/// Environment variables as `env` printed them, in order. A name that occurs
/// twice has the value of its last occurrence.
pub struct EnvVars {
    pub entries: Vec<(String, String)>,
}

impl View for EnvVars {
    type V = Seq<(Seq<char>, Seq<char>)>;

    open spec fn view(&self) -> Seq<(Seq<char>, Seq<char>)> {
        self.entries@.map_values(|e: (String, String)| (e.0@, e.1@))
    }
}

impl EnvVars {
    /// The value of a variable.
    pub fn get(&self, name: &str) -> (r: Option<&String>)
        ensures
            match r {
                Some(v) => lookup(self@, name@) == Some(v@),
                None => lookup(self@, name@) is None,
            },
    {
        let wanted = name.to_owned();
        let mut i: usize = self.entries.len();
        proof {
            assert(self@.take(i as int) =~= self@);
        }
        while i > 0
            invariant
                i <= self.entries@.len(),
                wanted@ == name@,
                lookup(self@, name@) == lookup(self@.take(i as int), name@),
            decreases i,
        {
            let ghost t = self@.take(i as int);
            proof {
                assert(t.drop_last() =~= self@.take(i - 1));
                assert(t.last() == self@[i - 1]);
                assert(self@[i - 1] == (self.entries@[i - 1].0@, self.entries@[i - 1].1@));
            }
            if self.entries[i - 1].0 == wanted {
                return Some(&self.entries[i - 1].1);
            }
            i -= 1;
        }
        None
    }
}

fn line_entry(s: &str, start: usize, eq: usize, end: usize) -> (r: (String, String))
    requires
        start <= eq < end <= s@.len(),
        s@[eq as int] == '=',
        forall|j: int| start <= j < eq ==> s@[j] != '=',
    ensures
        (r.0@, r.1@) == entry_of(s@.subrange(start as int, end as int)),
{
    let ghost line = s@.subrange(start as int, end as int);
    proof {
        lemma_first_index(line, '=', eq - start);
    }
    let name = s.substring_char(start, eq).to_owned();
    let value = s.substring_char(eq + 1, end).to_owned();
    proof {
        assert(name@ =~= line.take(eq - start));
        assert(value@ =~= line.skip(eq - start + 1));
    }
    (name, value)
}

proof fn lemma_first_index(s: Seq<char>, c: char, k: int)
    requires
        0 <= k < s.len(),
        s[k] == c,
        forall|j: int| 0 <= j < k ==> s[j] != c,
    ensures
        first_index(s, c) == k,
    decreases k,
{
    if k > 0 {
        lemma_first_index(s.drop_first(), c, k - 1);
    }
}

/// Reads the output of `env`: one `NAME=VALUE` per line, cut at the first
/// `=`; empty lines are skipped and a line without `=` is an error.
pub fn parse_env(stdout: &str) -> (r: Result<EnvVars, Error>)
    ensures
        match entries_of(pieces(stdout@)) {
            Some(es) => r matches Ok(v) && v@ == es,
            None => r == Err::<EnvVars, Error>(Error::MissingEnvSeparator),
        },
{
    let ghost s = stdout@;
    let n = stdout.unicode_len();
    let mut entries: Vec<(String, String)> = Vec::new();
    let mut start: usize = 0;
    let mut eq: Option<usize> = None;
    let mut i: usize = 0;
    proof {
        assert(s.take(0) =~= Seq::<char>::empty());
    }
    while i < n
        invariant
            n == s.len(),
            s == stdout@,
            start <= i <= n,
            open_line(s.take(i as int)) == s.subrange(start as int, i as int),
            entries_of(closed_lines(s.take(i as int))) == Some(
                entries@.map_values(|e: (String, String)| (e.0@, e.1@)),
            ),
            match eq {
                None => forall|j: int| start <= j < i ==> s[j] != '=',
                Some(k) => start <= k < i && s[k as int] == '=' && forall|j: int|
                    start <= j < k ==> s[j] != '=',
            },
        decreases n - i,
    {
        let c = stdout.get_char(i);
        let ghost before = s.take(i as int);
        proof {
            assert(s.take(i + 1).drop_last() =~= before);
            assert(s.take(i + 1).last() == c);
        }
        if c == '\n' {
            let ghost line = s.subrange(start as int, i as int);
            proof {
                assert(closed_lines(s.take(i + 1)) == closed_lines(before).push(line));
                assert(closed_lines(s.take(i + 1)).drop_last() == closed_lines(before));
            }
            let ghost old_view = entries@.map_values(|e: (String, String)| (e.0@, e.1@));
            if i > start {
                match eq {
                    None => {
                        proof {
                            assert(!line.contains('=')) by {
                                if line.contains('=') {
                                    let j = choose|j: int| 0 <= j < line.len() && line[j] == '=';
                                    assert(s[start + j] == '=');
                                }
                            }
                            lemma_entries_fail_later(s, i + 1);
                        }
                        return Err(Error::MissingEnvSeparator);
                    },
                    Some(k) => {
                        let e = line_entry(stdout, start, k, i);
                        entries.push(e);
                        proof {
                            assert(line.contains('=')) by {
                                assert(line[k - start] == '=');
                            }
                            assert(entries@.map_values(|e: (String, String)| (e.0@, e.1@))
                                =~= old_view.push(entry_of(line)));
                        }
                    },
                }
            } else {
                proof {
                    assert(line.len() == 0);
                }
            }
            start = i + 1;
            eq = None;
            proof {
                assert(s.subrange(start as int, i + 1) =~= Seq::<char>::empty());
            }
        } else {
            if c == '=' && eq.is_none() {
                eq = Some(i);
            }
            proof {
                assert(closed_lines(s.take(i + 1)) == closed_lines(before));
                assert(s.subrange(start as int, i + 1) =~= s.subrange(start as int, i as int).push(
                    c,
                ));
            }
        }
        i += 1;
    }
    proof {
        assert(s.take(n as int) =~= s);
    }
    let ghost line = s.subrange(start as int, n as int);
    let ghost old_view = entries@.map_values(|e: (String, String)| (e.0@, e.1@));
    proof {
        assert(pieces(s).drop_last() == closed_lines(s));
        assert(pieces(s).last() == line);
    }
    if n > start {
        match eq {
            None => {
                proof {
                    assert(!line.contains('=')) by {
                        if line.contains('=') {
                            let j = choose|j: int| 0 <= j < line.len() && line[j] == '=';
                            assert(s[start + j] == '=');
                        }
                    }
                }
                return Err(Error::MissingEnvSeparator);
            },
            Some(k) => {
                let e = line_entry(stdout, start, k, n);
                entries.push(e);
                proof {
                    assert(line.contains('=')) by {
                        assert(line[k - start] == '=');
                    }
                    assert(entries@.map_values(|e: (String, String)| (e.0@, e.1@)) =~= old_view.push(
                        entry_of(line),
                    ));
                }
            },
        }
    }
    Ok(EnvVars { entries })
}

/// Once a prefix of the text has a line without `=`, the whole text fails.
proof fn lemma_entries_fail_later(s: Seq<char>, k: int)
    requires
        0 <= k <= s.len(),
        entries_of(closed_lines(s.take(k))) is None,
    ensures
        entries_of(pieces(s)) is None,
    decreases s.len() - k,
{
    if k == s.len() {
        assert(s.take(k) =~= s);
        assert(pieces(s).drop_last() == closed_lines(s));
    } else {
        let t = s.take(k + 1);
        assert(t.drop_last() =~= s.take(k));
        if t.last() == '\n' {
            assert(closed_lines(t).drop_last() == closed_lines(s.take(k)));
        } else {
            assert(closed_lines(t) == closed_lines(s.take(k)));
        }
        lemma_entries_fail_later(s, k + 1);
    }
}

/// The command that prints the environment of `user`, or of the session's
/// own user; neither the command nor its output is logged.
pub fn env_command(user: Option<&str>) -> (r: Command)
    ensures
        r@ == (CommandView {
            argv: match user {
                Some(u) => seq![
                    ArgView::escaped("sudo"@),
                    ArgView::escaped("--login"@),
                    ArgView::escaped("--user"@),
                    ArgView::escaped(u@),
                    ArgView::escaped("env"@),
                ],
                None => seq![ArgView::escaped("env"@)],
            },
            command_log_level: Level::Trace,
            stdout_log_level: Level::Trace,
            ..fresh_command(Seq::empty())
        }),
{
    let argv: [&str; 1] = ["env"];
    let c = Command::new(&argv).user(user).hide_command().hide_stdout();
    proof {
        assert(crate::command::escaped_args(argv@) =~= seq![ArgView::escaped("env"@)]);
        if user is Some {
            assert(seq![
                ArgView::escaped("sudo"@),
                ArgView::escaped("--login"@),
                ArgView::escaped("--user"@),
                ArgView::escaped(user.unwrap()@),
            ] + seq![ArgView::escaped("env"@)] =~= seq![
                ArgView::escaped("sudo"@),
                ArgView::escaped("--login"@),
                ArgView::escaped("--user"@),
                ArgView::escaped(user.unwrap()@),
                ArgView::escaped("env"@),
            ]);
        }
    }
    c
}

/// A variable that must be set, such as `HOME`.
pub fn required_var(vars: &EnvVars, name: &str) -> (r: Result<String, Error>)
    ensures
        match lookup(vars@, name@) {
            Some(v) => r matches Ok(s) && s@ == v,
            None => r matches Err(Error::MissingEnvVar { name: n }) && n@ == name@,
        },
{
    match vars.get(name) {
        Some(v) => Ok(v.clone()),
        None => Err(Error::MissingEnvVar { name: name.to_owned() }),
    }
}

/// The environments read so far in a session: that of the session's own user
/// and those of other users, by name.
pub struct EnvCache {
    pub current_user: Option<EnvVars>,
    pub other_users: Vec<(String, EnvVars)>,
}

/// The environment stored for `user` in a list of users' environments: that
/// of its last entry.
pub open spec fn user_lookup(others: Seq<(String, EnvVars)>, user: Seq<char>) -> Option<
    Seq<(Seq<char>, Seq<char>)>,
>
    decreases others.len(),
{
    if others.len() == 0 {
        None
    } else if others.last().0@ == user {
        Some(others.last().1@)
    } else {
        user_lookup(others.drop_last(), user)
    }
}

impl EnvCache {
    /// The environment stored for a user, or for the session's own user.
    pub open spec fn cached(&self, user: Option<Seq<char>>) -> Option<Seq<(Seq<char>, Seq<char>)>> {
        match user {
            Some(u) => user_lookup(self.other_users@, u),
            None => match self.current_user {
                Some(v) => Some(v@),
                None => None,
            },
        }
    }

    /// Nothing stored.
    pub fn new() -> (r: EnvCache)
        ensures
            forall|u: Option<Seq<char>>| r.cached(u) is None,
    {
        EnvCache { current_user: None, other_users: Vec::new() }
    }

    /// Whether the environment of `user` (or of the session's own user) is stored.
    pub fn has_user(&self, user: Option<&str>) -> (r: bool)
        ensures
            r == self.cached(
                match user {
                    Some(u) => Some(u@),
                    None => None,
                },
            ) is Some,
    {
        match user {
            Some(u) => self.position(u).is_some(),
            None => self.current_user.is_some(),
        }
    }

    fn position(&self, user: &str) -> (r: Option<usize>)
        ensures
            match r {
                Some(i) => i < self.other_users@.len() && user_lookup(self.other_users@, user@)
                    == Some(self.other_users@[i as int].1@),
                None => user_lookup(self.other_users@, user@) is None,
            },
    {
        let wanted = user.to_owned();
        let mut i: usize = self.other_users.len();
        proof {
            assert(self.other_users@.take(i as int) =~= self.other_users@);
        }
        while i > 0
            invariant
                i <= self.other_users@.len(),
                wanted@ == user@,
                user_lookup(self.other_users@, user@) == user_lookup(
                    self.other_users@.take(i as int),
                    user@,
                ),
            decreases i,
        {
            let ghost t = self.other_users@.take(i as int);
            proof {
                assert(t.drop_last() =~= self.other_users@.take(i - 1));
                assert(t.last() == self.other_users@[i - 1]);
            }
            if self.other_users[i - 1].0 == wanted {
                return Some(i - 1);
            }
            i -= 1;
        }
        None
    }

    /// The stored environment of `user` (or of the session's own user).
    pub fn get(&self, user: Option<&str>) -> (r: Option<&EnvVars>)
        ensures
            match r {
                Some(v) => self.cached(
                    match user {
                        Some(u) => Some(u@),
                        None => None,
                    },
                ) == Some(v@),
                None => self.cached(
                    match user {
                        Some(u) => Some(u@),
                        None => None,
                    },
                ) is None,
            },
    {
        match user {
            Some(u) => match self.position(u) {
                Some(i) => Some(&self.other_users[i].1),
                None => None,
            },
            None => match &self.current_user {
                Some(v) => Some(v),
                None => None,
            },
        }
    }

    /// Stores the environment of `user` (or of the session's own user),
    /// replacing what was stored for that user only.
    pub fn insert(&mut self, user: Option<&str>, vars: EnvVars)
        ensures
            forall|u: Option<Seq<char>>|
                #[trigger] final(self).cached(u) == if u == match user {
                    Some(n) => Some(n@),
                    None => None::<Seq<char>>,
                } {
                    Some(vars@)
                } else {
                    old(self).cached(u)
                },
    {
        let ghost v = vars@;
        match user {
            Some(u) => {
                self.other_users.push((u.to_owned(), vars));
                proof {
                    assert forall|w: Option<Seq<char>>| #[trigger]
                        self.cached(w) == if w == Some(u@) {
                            Some(v)
                        } else {
                            old(self).cached(w)
                        } by {
                        assert(self.other_users@.drop_last() == old(self).other_users@);
                    }
                }
            },
            None => {
                self.current_user = Some(vars);
            },
        }
    }
}

/// Whether two paths are the same path, component by component, as `Path`
/// compares them.
pub uninterp spec fn same_path(a: Seq<char>, b: Seq<char>) -> bool;

/// Relies on `PartialEq` of `std::path::Path`: equal strings are equal
/// paths, and the answer depends on the two strings alone.
#[verifier::external_body]
fn paths_equal(a: &str, b: &str) -> (r: bool)
    ensures
        r == same_path(a@, b@),
        a@ == b@ ==> r,
{
    std::path::Path::new(a) == std::path::Path::new(b)
}

/// The command that changes the login shell of `user` (or of the session's
/// own user) to `shell`, when `same` says that it is another shell than the
/// current one.
pub fn shell_change(same: bool, shell: &str, user: Option<&str>) -> (r: Option<Command>)
    ensures
        same ==> r is None,
        !same ==> (r matches Some(c) && c@ == fresh_command(
            seq![
                ArgView::escaped("chsh"@),
                ArgView::escaped("-s"@),
                ArgView::escaped(shell@),
            ] + match user {
                Some(u) => seq![ArgView::escaped(u@)],
                None => Seq::empty(),
            },
        )),
{
    if same {
        return None;
    }
    let argv: [&str; 3] = ["chsh", "-s", shell];
    let c = Command::new(&argv);
    proof {
        assert(crate::command::escaped_args(argv@) =~= seq![
            ArgView::escaped("chsh"@),
            ArgView::escaped("-s"@),
            ArgView::escaped(shell@),
        ]);
    }
    match user {
        Some(u) => {
            let r = c.arg(u);
            proof {
                assert(r@.argv =~= seq![
                    ArgView::escaped("chsh"@),
                    ArgView::escaped("-s"@),
                    ArgView::escaped(shell@),
                ] + seq![ArgView::escaped(u@)]);
            }
            Some(r)
        },
        None => {
            proof {
                assert(c@.argv =~= seq![
                    ArgView::escaped("chsh"@),
                    ArgView::escaped("-s"@),
                    ArgView::escaped(shell@),
                ] + Seq::<ArgView>::empty());
            }
            Some(c)
        },
    }
}

/// The command that sets the login shell, if `current` is not already that
/// shell as a path.
pub fn set_shell_command(current: &str, shell: &str, user: Option<&str>) -> (r: Option<Command>)
    ensures
        same_path(current@, shell@) ==> r is None,
        !same_path(current@, shell@) ==> (r matches Some(c) && c@ == fresh_command(
            seq![
                ArgView::escaped("chsh"@),
                ArgView::escaped("-s"@),
                ArgView::escaped(shell@),
            ] + match user {
                Some(u) => seq![ArgView::escaped(u@)],
                None => Seq::empty(),
            },
        )),
{
    shell_change(paths_equal(current, shell), shell, user)
}

} // verus!
