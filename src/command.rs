//! A command as a plain value: program, arguments, working directory and
//! environment overrides, with the wrappers that run it elevated or inside a
//! terminal emulator.

use vstd::prelude::*;
use crate::text::{shell_quote, shell_quoted};

verus! {

/// A program to run, its arguments in order, an optional working directory and
/// environment overrides applied in order (a later entry wins).
#[derive(Debug)]
pub struct CommandSpec {
    pub program: String,
    pub args: Vec<String>,
    pub current_dir: Option<String>,
    pub envs: Vec<(String, String)>,
}

pub struct CommandView {
    pub program: Seq<char>,
    pub args: Seq<Seq<char>>,
    pub current_dir: Option<Seq<char>>,
    pub envs: Seq<(Seq<char>, Seq<char>)>,
}

impl View for CommandSpec {
    type V = CommandView;

    open spec fn view(&self) -> CommandView {
        CommandView {
            program: self.program@,
            args: self.args.deep_view(),
            current_dir: self.current_dir.deep_view(),
            envs: self.envs.deep_view(),
        }
    }
}

/// A command of `program` with no arguments, directory or overrides.
pub open spec fn bare(program: Seq<char>) -> CommandView {
    CommandView { program, args: Seq::empty(), current_dir: None, envs: Seq::empty() }
}

/// A command of `program` with the given arguments and nothing else.
pub open spec fn with_args(program: Seq<char>, args: Seq<Seq<char>>) -> CommandView {
    CommandView { program, args, current_dir: None, envs: Seq::empty() }
}

/// Each argument as a quoted shell word, each preceded by a space.
pub open spec fn spaced_words(ws: Seq<Seq<char>>) -> Seq<char>
    decreases ws.len(),
{
    if ws.len() == 0 {
        Seq::empty()
    } else {
        spaced_words(ws.drop_last()) + seq![' '] + shell_quoted(ws.last())
    }
}

/// Each override as a quoted `NAME=value` word followed by a space.
pub open spec fn assignments(envs: Seq<(Seq<char>, Seq<char>)>) -> Seq<char>
    decreases envs.len(),
{
    if envs.len() == 0 {
        Seq::empty()
    } else {
        assignments(envs.drop_last()) + shell_quoted(envs.last().0 + seq!['='] + envs.last().1)
            + seq![' ']
    }
}

pub open spec fn cd_part(dir: Option<Seq<char>>) -> Seq<char> {
    match dir {
        Some(d) => seq!['c', 'd', ' '] + shell_quoted(d) + seq![' ', '&', '&', ' '],
        None => Seq::empty(),
    }
}

pub open spec fn env_part(envs: Seq<(Seq<char>, Seq<char>)>) -> Seq<char> {
    if envs.len() == 0 {
        Seq::empty()
    } else {
        seq!['e', 'n', 'v', ' '] + assignments(envs)
    }
}

/// The command as one line of POSIX shell that does the same when run:
/// `cd 'dir' && env 'K=v' 'program' 'arg' ...`, each part only where present.
pub open spec fn command_line(c: CommandView) -> Seq<char> {
    cd_part(c.current_dir) + env_part(c.envs) + shell_quoted(c.program) + spaced_words(c.args)
}

/// The line that hands `c` to a fresh `bash`: `bash -c '<line>'`.
pub open spec fn bash_line(c: CommandView) -> Seq<char> {
    seq!['b', 'a', 's', 'h', ' ', '-', 'c', ' '] + shell_quoted(command_line(c))
}

/// `c` re-run as root through `sudo`, without a prompt window.
pub open spec fn as_root_spec(c: CommandView) -> CommandView {
    with_args("sudo"@, seq!["--"@, "bash"@, "-c"@, command_line(c)])
}

/// `c` re-run as root through `pkexec`, which asks in a graphical prompt.
pub open spec fn as_root_gui_spec(c: CommandView) -> CommandView {
    with_args("pkexec"@, seq!["bash"@, "-c"@, command_line(c)])
}

/// The arguments that make a terminal emulator run `c`; with `keep_open` the
/// window stays after `c` exits.
pub open spec fn terminal_args(c: CommandView, keep_open: bool) -> Seq<Seq<char>> {
    if keep_open {
        seq!["--noclose"@, "-e"@, bash_line(c)]
    } else {
        seq!["-e"@, bash_line(c)]
    }
}

/// `c` run inside the terminal emulator `terminal`.
pub open spec fn in_terminal_spec(c: CommandView, terminal: Seq<char>, keep_open: bool) -> CommandView {
    with_args(terminal, terminal_args(c, keep_open))
}

/// Appends `w` to `line` as one quoted shell word.
fn push_quoted(line: &mut String, w: &str)
    ensures
        final(line)@ == old(line)@ + shell_quoted(w@),
{
    let q = shell_quote(w);
    line.append(q.as_str());
}

impl CommandSpec {
    /// A command that runs `program` with nothing else set.
    pub fn new(program: &str) -> (r: CommandSpec)
        ensures
            r@ == bare(program@),
    {
        let r = CommandSpec {
            program: String::from_str(program),
            args: Vec::new(),
            current_dir: None,
            envs: Vec::new(),
        };
        assert(r@.args =~= Seq::<Seq<char>>::empty());
        assert(r@.envs =~= Seq::<(Seq<char>, Seq<char>)>::empty());
        r
    }

    /// Appends one argument.
    pub fn arg(&mut self, a: &str)
        ensures
            final(self)@ == (CommandView { args: old(self)@.args.push(a@), ..old(self)@ }),
    {
        let ghost before = self.args.deep_view();
        self.args.push(String::from_str(a));
        assert(self.args.deep_view() =~= before.push(a@));
    }

    /// Appends the arguments of `more`, in order.
    pub fn args(&mut self, more: &Vec<String>)
        ensures
            final(self)@ == (CommandView { args: old(self)@.args + more.deep_view(), ..old(self)@ }),
    {
        let ghost start = self.args.deep_view();
        let mut i: usize = 0;
        while i < more.len()
            invariant
                i <= more.len(),
                self@ == (CommandView {
                    args: start + more.deep_view().subrange(0, i as int),
                    ..old(self)@
                }),
            decreases more.len() - i,
        {
            let ghost before = self.args.deep_view();
            self.args.push(more[i].clone());
            proof {
                assert(self.args.deep_view() =~= before.push(more[i as int]@));
                assert(more.deep_view().subrange(0, i + 1) =~= more.deep_view().subrange(
                    0,
                    i as int,
                ).push(more[i as int]@));
                assert(self.args.deep_view() =~= start + more.deep_view().subrange(0, i + 1));
            }
            i = i + 1;
        }
        assert(more.deep_view().subrange(0, i as int) =~= more.deep_view());
    }

    /// Sets the working directory.
    pub fn set_current_dir(&mut self, dir: &str)
        ensures
            final(self)@ == (CommandView { current_dir: Some(dir@), ..old(self)@ }),
    {
        self.current_dir = Some(String::from_str(dir));
    }

    /// Appends the overrides of `more`, in order.
    pub fn envs(&mut self, more: &Vec<(String, String)>)
        ensures
            final(self)@ == (CommandView { envs: old(self)@.envs + more.deep_view(), ..old(self)@ }),
    {
        let ghost start = self.envs.deep_view();
        let mut i: usize = 0;
        while i < more.len()
            invariant
                i <= more.len(),
                self@ == (CommandView {
                    envs: start + more.deep_view().subrange(0, i as int),
                    ..old(self)@
                }),
            decreases more.len() - i,
        {
            let ghost before = self.envs.deep_view();
            let pair = (more[i].0.clone(), more[i].1.clone());
            self.envs.push(pair);
            proof {
                assert(self.envs.deep_view() =~= before.push(more[i as int].deep_view()));
                assert(more.deep_view().subrange(0, i + 1) =~= more.deep_view().subrange(
                    0,
                    i as int,
                ).push(more[i as int].deep_view()));
                assert(self.envs.deep_view() =~= start + more.deep_view().subrange(0, i + 1));
            }
            i = i + 1;
        }
        assert(more.deep_view().subrange(0, i as int) =~= more.deep_view());
    }

    /// The command as one line of shell.
    pub fn command_line(&self) -> (r: String)
        ensures
            r@ == command_line(self@),
    {
        let mut line = String::new();
        proof {
            reveal_strlit("cd ");
            reveal_strlit(" && ");
            reveal_strlit("env ");
            reveal_strlit("=");
            reveal_strlit(" ");
        }
        match &self.current_dir {
            Some(d) => {
                line.append("cd ");
                push_quoted(&mut line, d.as_str());
                line.append(" && ");
            },
            None => {},
        }
        assert(line@ =~= cd_part(self@.current_dir));
        if self.envs.len() > 0 {
            line.append("env ");
            let mut i: usize = 0;
            while i < self.envs.len()
                invariant
                    i <= self.envs.len(),
                    self.envs.len() > 0,
                    line@ =~= cd_part(self@.current_dir) + seq!['e', 'n', 'v', ' '] + assignments(
                        self@.envs.subrange(0, i as int),
                    ),
                decreases self.envs.len() - i,
            {
                let ghost before = line@;
                let mut word = self.envs[i].0.clone();
                word.append("=");
                word.append(self.envs[i].1.as_str());
                push_quoted(&mut line, word.as_str());
                line.append(" ");
                proof {
                    reveal_strlit("=");
                    reveal_strlit(" ");
                    assert("="@ =~= seq!['=']);
                    assert(" "@ =~= seq![' ']);
                    let e = self@.envs[i as int];
                    assert(word@ =~= e.0 + seq!['='] + e.1);
                    let sub = self@.envs.subrange(0, i + 1);
                    assert(sub.drop_last() =~= self@.envs.subrange(0, i as int));
                    assert(sub.last() == e);
                    assert(line@ =~= before + shell_quoted(e.0 + seq!['='] + e.1) + seq![' ']);
                    assert(assignments(sub) =~= assignments(sub.drop_last()) + shell_quoted(
                        e.0 + seq!['='] + e.1,
                    ) + seq![' ']);
                }
                i = i + 1;
            }
            assert(self@.envs.subrange(0, i as int) =~= self@.envs);
        }
        assert(line@ =~= cd_part(self@.current_dir) + env_part(self@.envs));
        push_quoted(&mut line, self.program.as_str());
        let mut i: usize = 0;
        while i < self.args.len()
            invariant
                i <= self.args.len(),
                line@ =~= cd_part(self@.current_dir) + env_part(self@.envs) + shell_quoted(
                    self@.program,
                ) + spaced_words(self@.args.subrange(0, i as int)),
            decreases self.args.len() - i,
        {
            let ghost before = line@;
            line.append(" ");
            push_quoted(&mut line, self.args[i].as_str());
            proof {
                reveal_strlit(" ");
                assert(" "@ =~= seq![' ']);
                assert(line@ =~= before + seq![' '] + shell_quoted(self@.args[i as int]));
                let sub = self@.args.subrange(0, i + 1);
                assert(sub.drop_last() =~= self@.args.subrange(0, i as int));
                assert(sub.last() == self@.args[i as int]);
            }
            i = i + 1;
        }
        assert(self@.args.subrange(0, i as int) =~= self@.args);
        line
    }

    /// The line that hands this command to a fresh `bash`.
    pub fn bash_line(&self) -> (r: String)
        ensures
            r@ == bash_line(self@),
    {
        let mut r = String::from_str("bash -c ");
        proof {
            reveal_strlit("bash -c ");
        }
        let line = self.command_line();
        push_quoted(&mut r, line.as_str());
        r
    }

    /// This command re-run as root through `sudo`.
    pub fn as_root(&self) -> (r: CommandSpec)
        ensures
            r@ == as_root_spec(self@),
    {
        let mut r = CommandSpec::new("sudo");
        r.arg("--");
        r.arg("bash");
        r.arg("-c");
        let line = self.command_line();
        r.arg(line.as_str());
        assert(r@.args =~= seq!["--"@, "bash"@, "-c"@, command_line(self@)]);
        r
    }

    /// This command re-run as root through `pkexec`'s graphical prompt.
    pub fn as_root_gui(&self) -> (r: CommandSpec)
        ensures
            r@ == as_root_gui_spec(self@),
    {
        let mut r = CommandSpec::new("pkexec");
        r.arg("bash");
        r.arg("-c");
        let line = self.command_line();
        r.arg(line.as_str());
        assert(r@.args =~= seq!["bash"@, "-c"@, command_line(self@)]);
        r
    }

    /// This command run inside the terminal emulator `terminal`; with
    /// `keep_open` the window stays after the command exits.
    pub fn in_terminal_of(&self, terminal: &str, keep_open: bool) -> (r: CommandSpec)
        ensures
            r@ == in_terminal_spec(self@, terminal@, keep_open),
    {
        let mut r = CommandSpec::new(terminal);
        if keep_open {
            r.arg("--noclose");
        }
        r.arg("-e");
        let line = self.bash_line();
        r.arg(line.as_str());
        assert(r@.args =~= terminal_args(self@, keep_open));
        r
    }
}

} // verus!
