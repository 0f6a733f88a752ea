//! What a session starts: program, arguments, environment and working
//! directory, made explicit so that constructing a session reads no ambient
//! state; and the native command built from it.

use portable_pty::CommandBuilder;
use vstd::prelude::*;
use vstd::string::*;

verus! {

#[verifier::external_type_specification]
#[verifier::external_body]
pub struct ExCommandBuilder(CommandBuilder);

/// The argument vector a native command holds, program first.
pub uninterp spec fn argv_of(c: CommandBuilder) -> Seq<Seq<char>>;

/// Code point of `c`, with ASCII capitals folded to lower case.
pub open spec fn ascii_fold(c: char) -> u32 {
    let x = c as u32;
    if 65 <= x && x <= 90 {
        (x + 32) as u32
    } else {
        x
    }
}

/// Every character of `s` is ASCII.
pub open spec fn is_ascii_text(s: Seq<char>) -> bool {
    forall|i: int| 0 <= i < s.len() ==> (s[i] as u32) < 128
}

/// `a` and `b` are equal once ASCII capitals are folded to lower case.
pub open spec fn same_ignoring_ascii_case(a: Seq<char>, b: Seq<char>) -> bool {
    a.len() == b.len() && forall|i: int| 0 <= i < a.len() ==> ascii_fold(a[i]) == ascii_fold(b[i])
}

/// Two environment keys that no platform treats as one: both ASCII, and
/// different even ignoring case.
pub open spec fn keys_apart(a: Seq<char>, b: Seq<char>) -> bool {
    is_ascii_text(a) && is_ascii_text(b) && !same_ignoring_ascii_case(a, b)
}

/// Every two different keys of `env` are told apart on every platform.
pub open spec fn env_keys_apart(env: Seq<(String, String)>) -> bool {
    forall|i: int, j: int|
        0 <= i < env.len() && 0 <= j < env.len() && env[i].0@ != env[j].0@ ==> keys_apart(
            #[trigger] env[i].0@,
            #[trigger] env[j].0@,
        )
}

/// What a native command reports for the environment variable `key`.
pub uninterp spec fn env_of(c: CommandBuilder, key: Seq<char>) -> Option<Seq<char>>;

/// The working directory a native command is set to, if any.
pub uninterp spec fn cwd_of(c: CommandBuilder) -> Option<Seq<char>>;

/// Relies on `CommandBuilder::new`: a builder whose argument vector is the
/// program alone and that has no working directory set.
#[verifier::external_body]
fn command_new(program: &str) -> (r: CommandBuilder)
    ensures
        argv_of(r) == seq![program@],
        cwd_of(r) is None,
{
    CommandBuilder::new(program)
}

/// Relies on `CommandBuilder::arg`: appends one argument. It panics on a
/// builder with an empty argument vector, which `requires` leaves out.
#[verifier::external_body]
fn command_arg(c: &mut CommandBuilder, arg: &str)
    requires
        argv_of(*old(c)).len() > 0,
    ensures
        argv_of(*final(c)) == argv_of(*old(c)).push(arg@),
        cwd_of(*final(c)) == cwd_of(*old(c)),
        forall|k: Seq<char>| #[trigger] env_of(*final(c), k) == env_of(*old(c), k),
{
    c.arg(arg)
}

/// Relies on `CommandBuilder::env`: sets one variable, which `get_env` then
/// reports; the argument vector and the working directory are untouched. A
/// variable under another key keeps its value where the two keys are told
/// apart on every platform (Windows folds keys to lower case).
#[verifier::external_body]
fn command_env(c: &mut CommandBuilder, key: &str, value: &str)
    ensures
        env_of(*final(c), key@) == Some(value@),
        forall|k: Seq<char>| keys_apart(k, key@) ==> #[trigger] env_of(*final(c), k) == env_of(
            *old(c),
            k,
        ),
        argv_of(*final(c)) == argv_of(*old(c)),
        cwd_of(*final(c)) == cwd_of(*old(c)),
{
    c.env(key, value)
}

/// Relies on `CommandBuilder::cwd`: sets the working directory; the argument
/// vector and the environment are untouched.
#[verifier::external_body]
fn command_cwd(c: &mut CommandBuilder, dir: &str)
    ensures
        cwd_of(*final(c)) == Some(dir@),
        argv_of(*final(c)) == argv_of(*old(c)),
        forall|k: Seq<char>| #[trigger] env_of(*final(c), k) == env_of(*old(c), k),
{
    c.cwd(dir)
}

/// Program, arguments, environment and working directory of a child.
pub struct LaunchPlan {
    pub program: String,
    pub args: Vec<String>,
    pub env: Vec<(String, String)>,
    pub cwd: Option<String>,
}

/// The texts of a sequence of strings.
pub open spec fn texts(v: Seq<String>) -> Seq<Seq<char>> {
    v.map_values(|s: String| s@)
}

/// The value of the last entry under `key`, if any.
pub open spec fn last_value(env: Seq<(String, String)>, key: Seq<char>) -> Option<Seq<char>>
    decreases env.len(),
{
    if env.len() == 0 {
        None
    } else if env.last().0@ == key {
        Some(env.last().1@)
    } else {
        last_value(env.drop_last(), key)
    }
}

/// The text of an optional string.
pub open spec fn opt_text(s: Option<String>) -> Option<Seq<char>> {
    match s {
        Some(t) => Some(t@),
        None => None,
    }
}

/// A key with a last entry has an entry.
proof fn lemma_last_value_has_entry(env: Seq<(String, String)>, key: Seq<char>)
    requires
        last_value(env, key) is Some,
    ensures
        exists|j: int| 0 <= j < env.len() && #[trigger] env[j].0@ == key,
    decreases env.len(),
{
    if env.last().0@ == key {
        assert(env[env.len() - 1].0@ == key);
    } else {
        lemma_last_value_has_entry(env.drop_last(), key);
        let j = choose|j: int| 0 <= j < env.drop_last().len() && #[trigger] env.drop_last()[j].0@ == key;
        assert(env[j].0@ == key);
    }
}

impl LaunchPlan {
    /// The argument vector the plan starts, program first.
    pub open spec fn argv(&self) -> Seq<Seq<char>> {
        seq![self.program@] + texts(self.args@)
    }

    /// A plan that runs `command` with `args` passed verbatim, with the
    /// environment `env` and, where one is given, the working directory `cwd`.
    pub fn new(command: &str, args: &[&str], env: Vec<(String, String)>, cwd: Option<String>) -> (r:
        LaunchPlan)
        ensures
            r.program@ == command@,
            r.args@.len() == args@.len(),
            forall|i: int| 0 <= i < args@.len() ==> #[trigger] r.args@[i]@ == args@[i]@,
            r.env@ == env@,
            r.cwd == cwd,
    {
        let mut owned: Vec<String> = Vec::new();
        let mut i: usize = 0;
        while i < args.len()
            invariant
                i <= args@.len(),
                owned@.len() == i,
                forall|j: int| 0 <= j < i ==> #[trigger] owned@[j]@ == args@[j]@,
            decreases args@.len() - i,
        {
            owned.push(String::from_str(args[i]));
            i = i + 1;
        }
        LaunchPlan { program: String::from_str(command), args: owned, env, cwd }
    }

    /// The native command for this plan: its argument vector is the plan's,
    /// its working directory is the plan's (none set where the plan has
    /// none), and, where the plan's keys are told apart on every platform,
    /// each variable of the plan has the value of its last entry.
    pub fn to_command(&self) -> (r: CommandBuilder)
        ensures
            argv_of(r) == self.argv(),
            cwd_of(r) == opt_text(self.cwd),
            env_keys_apart(self.env@) ==> forall|k: Seq<char>| #[trigger] last_value(self.env@, k)
                is Some ==> env_of(r, k) == last_value(self.env@, k),
    {
        let mut c = command_new(self.program.as_str());
        let mut i: usize = 0;
        while i < self.args.len()
            invariant
                i <= self.args@.len(),
                argv_of(c) == seq![self.program@] + texts(self.args@.take(i as int)),
                cwd_of(c) is None,
            decreases self.args@.len() - i,
        {
            command_arg(&mut c, self.args[i].as_str());
            assert(self.args@.take(i + 1) =~= self.args@.take(i as int).push(self.args@[i as int]));
            assert(texts(self.args@.take(i + 1)) =~= texts(self.args@.take(i as int)).push(
                self.args@[i as int]@,
            ));
            i = i + 1;
        }
        assert(self.args@.take(i as int) =~= self.args@);
        let mut k: usize = 0;
        while k < self.env.len()
            invariant
                k <= self.env@.len(),
                argv_of(c) == self.argv(),
                cwd_of(c) is None,
                env_keys_apart(self.env@) ==> forall|n: Seq<char>| #[trigger] last_value(
                    self.env@.take(k as int),
                    n,
                ) is Some ==> env_of(c, n) == last_value(self.env@.take(k as int), n),
            decreases self.env@.len() - k,
        {
            let (key, value) = &self.env[k];
            let ghost before = c;
            command_env(&mut c, key.as_str(), value.as_str());
            proof {
                let prev = self.env@.take(k as int);
                let next = self.env@.take(k + 1);
                assert(next.drop_last() =~= prev);
                assert(next.last() == self.env@[k as int]);
                if env_keys_apart(self.env@) {
                    assert forall|n: Seq<char>| #[trigger] last_value(next, n) is Some implies env_of(
                        c,
                        n,
                    ) == last_value(next, n) by {
                        if n != key@ {
                            assert(last_value(next, n) == last_value(prev, n));
                            lemma_last_value_has_entry(prev, n);
                            let j = choose|j: int| 0 <= j < prev.len() && #[trigger] prev[j].0@ == n;
                            assert(self.env@[j].0@ == n);
                            assert(keys_apart(self.env@[j].0@, self.env@[k as int].0@));
                            assert(env_of(c, n) == env_of(before, n));
                        }
                    }
                }
            }
            k = k + 1;
        }
        assert(self.env@.take(k as int) =~= self.env@);
        match &self.cwd {
            Some(dir) => command_cwd(&mut c, dir.as_str()),
            None => {},
        }
        c
    }
}

/// Flag that selects a profile of the interactive CLI.
pub const PROFILE_FLAG: &'static str = "--profile";

/// Arguments that start the interactive CLI: none, or the profile flag
/// followed by `profile` when one is given.
pub fn cli_args(profile: Option<&str>) -> (r: Vec<String>)
    ensures
        profile is None ==> r@.len() == 0,
        profile matches Some(p) ==> texts(r@) == seq!["--profile"@, p@],
{
    let mut r: Vec<String> = Vec::new();
    match profile {
        Some(p) => {
            r.push(String::from_str(PROFILE_FLAG));
            r.push(String::from_str(p));
            assert(texts(r@) =~= seq![PROFILE_FLAG@, p@]);
        },
        None => {},
    }
    r
}

} // verus!
