//! Project-file scaffolding helpers: filling a fresh configuration template
//! with the project's name.

use vstd::prelude::*;

verus! {

/// `s` with every occurrence of `pat` replaced by `rep`, scanning left to
/// right without overlap; `s` unchanged when `pat` is empty.
pub open spec fn replace_chars(s: Seq<char>, pat: Seq<char>, rep: Seq<char>) -> Seq<char>
    decreases s.len(),
{
    if pat.len() == 0 || s.len() < pat.len() {
        s
    } else if s.take(pat.len() as int) == pat {
        rep + replace_chars(s.skip(pat.len() as int), pat, rep)
    } else {
        seq![s[0]] + replace_chars(s.skip(1), pat, rep)
    }
}

/// The placeholder a template carries where the project's file name belongs.
pub fn placeholder() -> (r: &'static str)
    ensures
        r@ == "{file_name}"@,
        r@.len() == 11,
{
    proof {
        reveal_strlit("{file_name}");
    }
    "{file_name}"
}

/// Fill a configuration template: every `{file_name}` placeholder becomes
/// the project's name.
pub fn modified_template(template: &str, project_name: &str) -> (r: String)
    ensures
        r@ == replace_chars(template@, "{file_name}"@, project_name@),
{
    let pat = placeholder();
    let n = template.unicode_len();
    let mut out = String::new();
    let mut i: usize = 0;
    proof {
        assert(template@.skip(0) =~= template@);
        assert(out@ + replace_chars(template@, pat@, project_name@) =~= replace_chars(
            template@,
            pat@,
            project_name@,
        ));
    }
    while i < n
        invariant
            n == template@.len(),
            i <= n,
            pat@ == "{file_name}"@,
            pat@.len() == 11,
            out@ + replace_chars(template@.skip(i as int), pat@, project_name@) == replace_chars(
                template@,
                pat@,
                project_name@,
            ),
        decreases n - i,
    {
        if n - i >= 11 {
            let seg = template.substring_char(i, i + 11);
            if crate::text::str_eq(seg, pat) {
                let ghost rest = template@.skip(i as int);
                proof {
                    assert(rest.take(11) =~= template@.subrange(i as int, i as int + 11));
                    assert(rest.skip(11) =~= template@.skip(i as int + 11));
                }
                out.append(project_name);
                i = i + 11;
                continue ;
            }
        }
        let c = template.substring_char(i, i + 1);
        let ghost rest = template@.skip(i as int);
        proof {
            assert(rest.len() >= 1);
            if rest.len() >= 11 {
                assert(rest.take(11) =~= template@.subrange(i as int, i as int + 11));
            }
            assert(seq![rest[0]] =~= template@.subrange(i as int, i as int + 1));
            assert(rest.skip(1) =~= template@.skip(i as int + 1));
        }
        out.append(c);
        i = i + 1;
    }
    proof {
        assert(template@.skip(n as int) =~= Seq::<char>::empty());
    }
    out
}

} // verus!
