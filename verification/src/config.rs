//! Shell launch configuration.
//!
//! The file format this is read from, and the reading and writing itself,
//! are the caller's collaborators; the engine only needs the descriptor: the
//! command to run as the interactive shell, its arguments, and any
//! environment overrides, as name and value pairs. `effective_args` decides
//! what is actually passed to the shell when the descriptor names no
//! arguments of its own.

use vstd::prelude::*;
use vstd::string::StrSliceExecFns;

verus! {

/// How the shell child is to be launched.
#[derive(Clone, Debug)]
pub struct ShellConfig {
    pub command: String,
    pub args: Vec<String>,
    pub env: Option<Vec<(String, String)>>,
}

/// Whether `p` occurs in `s` starting at position `k`.
pub open spec fn occurs_at(s: Seq<char>, p: Seq<char>, k: int) -> bool {
    0 <= k && k + p.len() <= s.len() && s.subrange(k, k + p.len() as int) == p
}

/// The command names one of the login-capable shells: `zsh` or `bash`
/// occurs in it.
pub open spec fn names_login_shell(c: Seq<char>) -> bool {
    (exists|k: int| occurs_at(c, seq!['z', 's', 'h'], k)) || (exists|k: int|
        occurs_at(c, seq!['b', 'a', 's', 'h'], k))
}

/// Whether the characters `p` stand in `s` at exactly position `k`.
fn matches_at(s: &str, p: &Vec<char>, k: usize) -> (r: bool)
    requires
        k + p@.len() <= s@.len(),
        s@.len() <= usize::MAX,
    ensures
        r == occurs_at(s@, p@, k as int),
{
    let m = p.len();
    let mut i: usize = 0;
    while i < m
        invariant
            i <= m,
            m == p@.len(),
            k + m <= s@.len(),
            s@.len() <= usize::MAX,
            forall|j: int| 0 <= j < i ==> s@[k + j] == p@[j],
        decreases m - i,
    {
        if s.get_char(k + i) != p[i] {
            proof {
                assert(s@.subrange(k as int, k as int + m as int)[i as int] == s@[k + i]);
            }
            return false;
        }
        i += 1;
    }
    proof {
        assert(s@.subrange(k as int, k as int + m as int) =~= p@);
    }
    true
}

/// Whether the characters `p` occur anywhere in `s`.
fn str_contains(s: &str, p: &Vec<char>) -> (r: bool)
    ensures
        r == exists|k: int| occurs_at(s@, p@, k),
{
    let n = s.unicode_len();
    let m = p.len();
    if m > n {
        proof {
            assert(forall|k: int| !occurs_at(s@, p@, k));
        }
        return false;
    }
    if m == 0 {
        proof {
            assert(s@.subrange(0, 0) =~= p@);
            assert(occurs_at(s@, p@, 0));
        }
        return true;
    }
    let mut k: usize = 0;
    while k <= n - m
        invariant
            1 <= m <= n,
            n == s@.len(),
            m == p@.len(),
            k <= n - m + 1,
            forall|q: int| 0 <= q < k ==> !occurs_at(s@, p@, q),
        decreases n - m + 1 - k,
    {
        if matches_at(s, p, k) {
            return true;
        }
        k += 1;
    }
    proof {
        assert forall|q: int| !occurs_at(s@, p@, q) by {
            if occurs_at(s@, p@, q) {
                assert(0 <= q <= n - m);
            }
        }
    }
    false
}

impl ShellConfig {
    /// A descriptor for the given command with no arguments and no
    /// environment overrides.
    pub fn for_command(command: String) -> (c: ShellConfig)
        ensures
            c.command == command,
            c.args@.len() == 0,
            c.env is None,
    {
        ShellConfig { command, args: Vec::new(), env: None }
    }

    /// The arguments the shell is launched with: the configured ones where
    /// any are given; otherwise an interactive login shell for the shells
    /// known to take one (`-i -l` when the command names zsh or bash), and a
    /// plain interactive shell (`-i`) for everything else.
    pub fn effective_args(&self) -> (r: Vec<String>)
        ensures
            self.args@.len() > 0 ==> r@ == self.args@,
            self.args@.len() == 0 && names_login_shell(self.command@) ==> r@.len() == 2
                && r@[0]@ == seq!['-', 'i'] && r@[1]@ == seq!['-', 'l'],
            self.args@.len() == 0 && !names_login_shell(self.command@) ==> r@.len() == 1
                && r@[0]@ == seq!['-', 'i'],
    {
        if self.args.len() > 0 {
            let mut r: Vec<String> = Vec::new();
            let mut i: usize = 0;
            while i < self.args.len()
                invariant
                    i <= self.args@.len(),
                    r@ == self.args@.take(i as int),
                decreases self.args@.len() - i,
            {
                r.push(self.args[i].clone());
                proof {
                    assert(self.args@.take(i as int + 1) =~= self.args@.take(i as int).push(
                        self.args@[i as int],
                    ));
                }
                i += 1;
            }
            proof {
                assert(self.args@.take(self.args@.len() as int) =~= self.args@);
            }
            r
        } else {
            proof {
                reveal_strlit("-i");
                reveal_strlit("-l");
                assert("-i"@ =~= seq!['-', 'i']);
                assert("-l"@ =~= seq!['-', 'l']);
            }
            let cmd = self.command.as_str();
            let login = str_contains(cmd, &vec!['z', 's', 'h']) || str_contains(
                cmd,
                &vec!['b', 'a', 's', 'h'],
            );
            let mut r: Vec<String> = Vec::new();
            r.push("-i".to_owned());
            if login {
                r.push("-l".to_owned());
            }
            r
        }
    }
}

} // verus!
