//! The command-line surface: which command runs and with which optional
//! positional arguments.

use vstd::prelude::*;

verus! {

/// Option flags of a run.  None are defined yet; the struct keeps the
/// surface stable for when they are.
#[derive(Debug, Clone, Copy)]
pub struct ArgFlags {}

/// The parsed command line: a command and its optional positional
/// arguments.
#[derive(Debug)]
pub struct Args {
    pub command: String,
    pub owner: Option<String>,
    pub repo: Option<String>,
    pub release: Option<String>,
    pub asset: Option<String>,
    pub install: Option<String>,
    pub flags: ArgFlags,
}

impl Default for Args {
    /// With no arguments at all, the interactive session opens.
    fn default() -> (r: Self)
        ensures
            r.command@ == "tui"@,
            r.owner is None,
            r.repo is None,
            r.release is None,
            r.asset is None,
            r.install is None,
    {
        Args {
            command: "tui".to_owned(),
            owner: None,
            repo: None,
            release: None,
            asset: None,
            install: None,
            flags: ArgFlags {  },
        }
    }
}

/// Does the text contain this character?
pub open spec fn has_char(s: Seq<char>, c: char) -> bool {
    exists|i: int| 0 <= i < s.len() && s[i] == c
}

/// Split a combined `owner/repository` argument at its first slash.
/// Returns `None` exactly when the text holds no slash (the argument is
/// then an owner alone); otherwise the part before the first slash and
/// the part after it.
pub fn split_owner_repo(text: &Vec<char>) -> (r: Option<(Vec<char>, Vec<char>)>)
    ensures
        (r is Some) == has_char(text@, '/'),
        r matches Some((owner, repo)) ==> owner@ + seq!['/'] + repo@ == text@ && !has_char(
            owner@,
            '/',
        ),
{
    let mut i: usize = 0;
    while i < text.len()
        invariant
            i <= text@.len(),
            forall|j: int| 0 <= j < i ==> text@[j] != '/',
        decreases text@.len() - i,
    {
        let c = text[i];
        if c == '/' {
            let mut owner: Vec<char> = Vec::new();
            proof {
                assert(owner@ =~= text@.take(0));
            }
            let mut j: usize = 0;
            while j < i
                invariant
                    j <= i,
                    i < text@.len(),
                    owner@ == text@.take(j as int),
                decreases i - j,
            {
                owner.push(text[j]);
                proof {
                    assert(owner@ =~= text@.take(j + 1 as int));
                }
                j += 1;
            }
            let mut repo: Vec<char> = Vec::new();
            proof {
                assert(repo@ =~= text@.subrange(i + 1 as int, i + 1 as int));
            }
            let mut k: usize = i + 1;
            while k < text.len()
                invariant
                    i + 1 <= k <= text@.len(),
                    i < text@.len(),
                    repo@ == text@.subrange(i + 1 as int, k as int),
                decreases text@.len() - k,
            {
                repo.push(text[k]);
                proof {
                    assert(repo@ =~= text@.subrange(i + 1 as int, k + 1 as int));
                }
                k += 1;
            }
            proof {
                assert(owner@ + seq!['/'] + repo@ =~= text@);
                assert(forall|j: int| 0 <= j < owner@.len() ==> owner@[j] == text@[j]);
                assert(has_char(text@, '/')) by {
                    assert(0 <= i < text@.len() && text@[i as int] == '/');
                }
            }
            return Some((owner, repo));
        }
        i += 1;
    }
    None
}

#[allow(unused_variables)]
pub fn foo(x: &str, y: usize, z: bool) {
}

} // verus!
