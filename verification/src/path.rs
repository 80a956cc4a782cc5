//! Expansion of a root-path specification into a concrete directory path.
//!
//! A specification is `~`, `~/...`, the literal token `$HOME`, an absolute
//! path, or anything else (kept as given). Resolution never fails and never
//! re-tokenizes the value: a path containing spaces stays one intact string.

use crate::views::opt_chars;
use vstd::prelude::*;

verus! {

/// What `resolve` returns: `None` or the empty string give the current
/// working directory; `~`, `~/` and `$HOME` give the home directory; `~/rest`
/// puts the home directory in place of the `~`; everything else (absolute
/// paths included) passes through unchanged.
pub open spec fn resolve_spec(spec: Option<Seq<char>>, cwd: Seq<char>, home: Seq<char>) -> Seq<
    char,
> {
    match spec {
        Option::None => cwd,
        Option::Some(p) => if p.len() == 0 {
            cwd
        } else if p == seq!['~'] {
            home
        } else if p == seq!['~', '/'] {
            home
        } else if p.len() >= 2 && p[0] == '~' && p[1] == '/' {
            home + p.skip(1)
        } else if p == seq!['$', 'H', 'O', 'M', 'E'] {
            home
        } else {
            p
        },
    }
}

/// Expand a root-path specification against the given working and home
/// directories.
pub fn resolve(spec: &Option<String>, cwd: &String, home: &String) -> (r: String)
    ensures
        r@ == resolve_spec(opt_chars(*spec), cwd@, home@),
{
    match spec {
        Option::None => cwd.clone(),
        Option::Some(p) => {
            let s = p.as_str();
            let n = s.unicode_len();
            if n == 0 {
                cwd.clone()
            } else if n == 1 && s.get_char(0) == '~' {
                proof {
                    assert(p@ =~= seq!['~']);
                }
                home.clone()
            } else if n == 2 && s.get_char(0) == '~' && s.get_char(1) == '/' {
                proof {
                    assert(p@ =~= seq!['~', '/']);
                }
                home.clone()
            } else if n >= 2 && s.get_char(0) == '~' && s.get_char(1) == '/' {
                let mut r = home.clone();
                r.append(s.substring_char(1, n));
                proof {
                    assert(p@.subrange(1, n as int) =~= p@.skip(1));
                }
                r
            } else if n == 5 && s.get_char(0) == '$' && s.get_char(1) == 'H' && s.get_char(2)
                == 'O' && s.get_char(3) == 'M' && s.get_char(4) == 'E' {
                proof {
                    assert(p@ =~= seq!['$', 'H', 'O', 'M', 'E']);
                }
                home.clone()
            } else {
                p.clone()
            }
        },
    }
}

/// The path resolver's laws: no specification gives the working directory,
/// `~/` and the `$HOME` token give the home directory, and a specification
/// that is neither empty nor a `~` form nor the `$HOME` token — spaces or not
/// — comes back as the one intact value it went in as.
pub proof fn lemma_resolve_laws(cwd: Seq<char>, home: Seq<char>, p: Seq<char>)
    ensures
        resolve_spec(Option::None, cwd, home) == cwd,
        resolve_spec(Option::Some(seq!['~', '/']), cwd, home) == home,
        resolve_spec(Option::Some(seq!['$', 'H', 'O', 'M', 'E']), cwd, home) == home,
        p.len() > 0 && p[0] != '~' && p != seq!['$', 'H', 'O', 'M', 'E'] ==> resolve_spec(
            Option::Some(p),
            cwd,
            home,
        ) == p,
{
}

} // verus!
