//! The command that starts the browser: program, arguments, environment and
//! standard streams, as plain data that the caller hands to the operating
//! system.

use std::path::PathBuf;
use vstd::prelude::*;

verus! {

/// `std::path::PathBuf`, carried through unread.
#[verifier::external_type_specification]
#[verifier::external_body]
pub struct ExPathBuf(PathBuf);

/// `PathBuf::clone` returns a path equal to the one it was called on.
pub assume_specification[ <PathBuf as Clone>::clone ](path: &PathBuf) -> (copy: PathBuf)
    ensures
        copy == *path,
;

/// One command-line argument: text, or a filesystem path passed as it is.
#[derive(Debug, PartialEq, Eq)]
pub enum Arg {
    Text(String),
    Path(PathBuf),
}

/// What an [`Arg`] stands for.
pub enum ArgView {
    Text(Seq<char>),
    Path(PathBuf),
}

impl View for Arg {
    type V = ArgView;

    open spec fn view(&self) -> ArgView {
        match *self {
            Arg::Text(text) => ArgView::Text(text@),
            Arg::Path(path) => ArgView::Path(path),
        }
    }
}

/// What becomes of a standard stream of the child.
#[derive(Debug, Clone, Copy, PartialEq, Eq, Structural)]
pub enum Stdio {
    /// Nothing was asked for: the operating system's default applies.
    Unset,
    /// The child writes to the stream of its parent.
    Inherit,
}

/// A command to be spawned.
///
/// Arguments are kept in the order in which they were added. A variable of
/// the environment may be bound more than once; the binding added last is the
/// one in force.
#[derive(Debug)]
pub struct Invocation {
    pub program: PathBuf,
    pub args: Vec<Arg>,
    pub envs: Vec<(String, String)>,
    pub stdout: Stdio,
    pub stderr: Stdio,
}

/// What an [`Invocation`] stands for.
pub struct InvocationView {
    pub program: PathBuf,
    pub args: Seq<ArgView>,
    pub envs: Seq<(Seq<char>, Seq<char>)>,
    pub stdout: Stdio,
    pub stderr: Stdio,
}

/// The flag that makes the browser expose its remote-control interface.
pub open spec fn marionette_flag() -> Seq<char> {
    "--marionette"@
}

/// The flag that is followed by the profile's directory.
pub open spec fn profile_flag() -> Seq<char> {
    "--profile"@
}

/// The variable that keeps the browser from handing over to a running
/// instance.
pub open spec fn no_remote_var() -> Seq<char> {
    "MOZ_NO_REMOTE"@
}

/// The variable that keeps the browser from restarting itself.
pub open spec fn no_restart_var() -> Seq<char> {
    "NO_EM_RESTART"@
}

/// The value that switches either variable on.
pub open spec fn enabled() -> Seq<char> {
    "1"@
}

/// Text arguments, in their order.
pub open spec fn text_args(texts: Seq<String>) -> Seq<ArgView> {
    texts.map_values(|text: String| ArgView::Text(text@))
}

/// The arguments that close every command line: the remote-control flag,
/// then the profile flag and the profile's directory.
pub open spec fn fixed_args(profile_dir: PathBuf) -> Seq<ArgView> {
    seq![
        ArgView::Text(marionette_flag()),
        ArgView::Text(profile_flag()),
        ArgView::Path(profile_dir),
    ]
}

/// The bindings that every command carries.
pub open spec fn fixed_envs() -> Seq<(Seq<char>, Seq<char>)> {
    seq![(no_remote_var(), enabled()), (no_restart_var(), enabled())]
}

/// The value that `name` has in the environment described by `envs`: that of
/// its last binding, if it has one.
pub open spec fn env_value(envs: Seq<(Seq<char>, Seq<char>)>, name: Seq<char>) -> Option<
    Seq<char>,
>
    decreases envs.len(),
{
    if envs.len() == 0 {
        None
    } else if envs.last().0 == name {
        Some(envs.last().1)
    } else {
        env_value(envs.drop_last(), name)
    }
}

impl View for Invocation {
    type V = InvocationView;

    open spec fn view(&self) -> InvocationView {
        InvocationView {
            program: self.program,
            args: self.args@.map_values(|arg: Arg| arg@),
            envs: self.envs@.map_values(|binding: (String, String)| (binding.0@, binding.1@)),
            stdout: self.stdout,
            stderr: self.stderr,
        }
    }
}

impl Invocation {
    /// A command that runs `program` with no argument, no binding and both
    /// streams unset.
    pub fn new(program: PathBuf) -> (command: Invocation)
        ensures
            command@ == (InvocationView {
                program,
                args: Seq::empty(),
                envs: Seq::empty(),
                stdout: Stdio::Unset,
                stderr: Stdio::Unset,
            }),
    {
        let command = Invocation {
            program,
            args: Vec::new(),
            envs: Vec::new(),
            stdout: Stdio::Unset,
            stderr: Stdio::Unset,
        };
        assert(command@.args =~= Seq::empty());
        assert(command@.envs =~= Seq::empty());
        command
    }

    /// Adds one text argument behind those already there.
    pub fn arg(&mut self, text: &str)
        ensures
            final(self)@ == (InvocationView {
                args: old(self)@.args.push(ArgView::Text(text@)),
                ..old(self)@
            }),
    {
        self.args.push(Arg::Text(text.to_owned()));
        assert(self@.args =~= old(self)@.args.push(ArgView::Text(text@)));
    }

    /// Adds one path argument behind those already there.
    pub fn arg_path(&mut self, path: PathBuf)
        ensures
            final(self)@ == (InvocationView {
                args: old(self)@.args.push(ArgView::Path(path)),
                ..old(self)@
            }),
    {
        self.args.push(Arg::Path(path));
        assert(self@.args =~= old(self)@.args.push(ArgView::Path(path)));
    }

    /// Adds text arguments, in their order, behind those already there.
    pub fn args(&mut self, texts: &Vec<String>)
        ensures
            final(self)@ == (InvocationView {
                args: old(self)@.args + text_args(texts@),
                ..old(self)@
            }),
    {
        let mut i: usize = 0;
        while i < texts.len()
            invariant
                i <= texts.len(),
                self@ == (InvocationView {
                    args: old(self)@.args + text_args(texts@.take(i as int)),
                    ..old(self)@
                }),
            decreases texts.len() - i,
        {
            let ghost before = self@;
            self.args.push(Arg::Text(texts[i].clone()));
            assert(self@.args =~= before.args.push(ArgView::Text(texts@[i as int]@)));
            assert(texts@.take(i + 1) =~= texts@.take(i as int).push(texts@[i as int]));
            assert(self@.args =~= old(self)@.args + text_args(texts@.take(i + 1)));
            i += 1;
        }
        assert(texts@.take(i as int) =~= texts@);
    }

    /// Binds `name` to `value`, overriding any earlier binding of `name`.
    pub fn env(&mut self, name: &str, value: &str)
        ensures
            final(self)@ == (InvocationView {
                envs: old(self)@.envs.push((name@, value@)),
                ..old(self)@
            }),
            env_value(final(self)@.envs, name@) == Some(value@),
    {
        self.envs.push((name.to_owned(), value.to_owned()));
        assert(self@.envs =~= old(self)@.envs.push((name@, value@)));
    }

    /// Says what becomes of the child's standard output.
    pub fn stdout(&mut self, mode: Stdio)
        ensures
            final(self)@ == (InvocationView { stdout: mode, ..old(self)@ }),
    {
        self.stdout = mode;
    }

    /// Says what becomes of the child's standard error.
    pub fn stderr(&mut self, mode: Stdio)
        ensures
            final(self)@ == (InvocationView { stderr: mode, ..old(self)@ }),
    {
        self.stderr = mode;
    }

    /// The value that `name` has in the command's environment.
    pub fn env_value(&self, name: &str) -> (value: Option<String>)
        ensures
            match value {
                Some(text) => env_value(self@.envs, name@) == Some(text@),
                None => env_value(self@.envs, name@) is None,
            },
    {
        let wanted = name.to_owned();
        let mut i: usize = self.envs.len();
        assert(self@.envs.take(i as int) =~= self@.envs);
        while i > 0
            invariant
                i <= self.envs.len(),
                wanted@ == name@,
                env_value(self@.envs, name@) == env_value(self@.envs.take(i as int), name@),
            decreases i,
        {
            let ghost prefix = self@.envs.take(i as int);
            i -= 1;
            assert(prefix.last() == self@.envs[i as int]);
            assert(prefix.drop_last() =~= self@.envs.take(i as int));
            if self.envs[i].0 == wanted {
                return Some(self.envs[i].1.clone());
            }
        }
        None
    }
}

/// Whatever a command's environment held before, once the fixed bindings are
/// added both variables are bound to the enabled value.
pub proof fn lemma_fixed_envs_in_force(envs: Seq<(Seq<char>, Seq<char>)>)
    ensures
        env_value(envs + fixed_envs(), no_remote_var()) == Some(enabled()),
        env_value(envs + fixed_envs(), no_restart_var()) == Some(enabled()),
{
    reveal_strlit("MOZ_NO_REMOTE");
    reveal_strlit("NO_EM_RESTART");
    let all = envs + fixed_envs();
    assert(all.last() == (no_restart_var(), enabled()));
    assert(all.drop_last().last() == (no_remote_var(), enabled()));
    assert(no_remote_var()[0] != no_restart_var()[0]);
    reveal_with_fuel(env_value, 3);
}

/// Whatever arguments a command held before, once `texts` and the fixed
/// arguments are added the command line ends with the fixed arguments, the
/// texts stand directly before them in their order, and what was there before
/// stays in front.
pub proof fn lemma_fixed_args_last(before: Seq<ArgView>, texts: Seq<String>, profile_dir: PathBuf)
    ensures
        ({
            let all = before + text_args(texts) + fixed_args(profile_dir);
            &&& all.len() == before.len() + texts.len() + 3
            &&& all[all.len() - 3] == ArgView::Text(marionette_flag())
            &&& all[all.len() - 2] == ArgView::Text(profile_flag())
            &&& all[all.len() - 1] == ArgView::Path(profile_dir)
            &&& all.take(before.len() as int) == before
            &&& forall|i: int|
                0 <= i < texts.len() ==> #[trigger] all[before.len() + i] == ArgView::Text(
                    texts[i]@,
                )
        }),
{
    let all = before + text_args(texts) + fixed_args(profile_dir);
    assert(all.take(before.len() as int) =~= before);
}

} // verus!
