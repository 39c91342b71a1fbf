//! Comment stripping for TypeScript sources: removes line and block
//! comments while preserving string literals and line structure.

use vstd::prelude::*;
use vstd::string::*;

use crate::text::{chars_of, lines_of, spec_lines, string_from_chars};

verus! {

/// Index of the first `*/` at or after `i`, or `-1`.
pub open spec fn find_star_slash(s: Seq<char>, i: int) -> int
    decreases s.len() - i when 0 <= i
{
    if i + 1 >= s.len() {
        -1
    } else if s[i] == '*' && s[i + 1] == '/' {
        i
    } else {
        find_star_slash(s, i + 1)
    }
}

proof fn lemma_find_star_slash_bounds(s: Seq<char>, i: int)
    requires
        0 <= i,
    ensures
        find_star_slash(s, i) == -1 || (i <= find_star_slash(s, i) && find_star_slash(s, i) + 1
            < s.len()),
    decreases s.len() - i,
{
    if i + 1 < s.len() && !(s[i] == '*' && s[i + 1] == '/') {
        lemma_find_star_slash_bounds(s, i + 1);
    }
}

proof fn lemma_find_star_slash_at(s: Seq<char>, i: int, k: int)
    requires
        0 <= i <= k,
        k + 1 < s.len(),
        s[k] == '*' && s[k + 1] == '/',
        forall|j: int| #![trigger s[j]] i <= j < k ==> !(s[j] == '*' && s[j + 1] == '/'),
    ensures
        find_star_slash(s, i) == k,
    decreases k - i,
{
    if i < k {
        lemma_find_star_slash_at(s, i + 1, k);
    }
}

proof fn lemma_find_star_slash_none(s: Seq<char>, i: int)
    requires
        0 <= i,
        forall|j: int| #![trigger s[j]] i <= j && j + 1 < s.len() ==> !(s[j] == '*' && s[j + 1]
            == '/'),
    ensures
        find_star_slash(s, i) == -1,
    decreases s.len() - i,
{
    if i + 1 < s.len() {
        lemma_find_star_slash_none(s, i + 1);
    }
}

/// One step of the comment-stripping machine, from position `i` in state
/// (`in_string`, `string_char`, `escaped`): string delimiters toggle string
/// mode, `//` outside a string drops the rest of the line, `/* ... */`
/// outside a string becomes a single space (an unterminated block comment
/// becomes a literal `/* */`), and everything else is kept.
pub open spec fn spec_strip_from(
    s: Seq<char>,
    i: int,
    in_string: bool,
    string_char: char,
    escaped: bool,
) -> Seq<char>
    decreases s.len() - i when 0 <= i
    via spec_strip_from_decreases
{
    if i >= s.len() {
        Seq::empty()
    } else {
        let c = s[i];
        if !escaped && !in_string && (c == '"' || c == '\'') {
            seq![c] + spec_strip_from(s, i + 1, true, c, escaped)
        } else if in_string && c == string_char && !escaped {
            seq![c] + spec_strip_from(s, i + 1, false, string_char, escaped)
        } else if in_string {
            seq![c] + spec_strip_from(s, i + 1, true, string_char, c == '\\' && !escaped)
        } else if c == '/' && i + 1 < s.len() && s[i + 1] == '/' {
            Seq::empty()
        } else if c == '/' && i + 1 < s.len() && s[i + 1] == '*' {
            let e = find_star_slash(s, i + 2);
            if e >= 0 {
                seq![' '] + spec_strip_from(s, e + 2, in_string, string_char, escaped)
            } else {
                "/* */"@
            }
        } else {
            seq![c] + spec_strip_from(s, i + 1, in_string, string_char, false)
        }
    }
}

#[via_fn]
proof fn spec_strip_from_decreases(
    s: Seq<char>,
    i: int,
    in_string: bool,
    string_char: char,
    escaped: bool,
) {
    if 0 <= i < s.len() {
        lemma_find_star_slash_bounds(s, i + 2);
    }
}

/// What comment stripping leaves of a single line.
pub open spec fn spec_strip_line(l: Seq<char>) -> Seq<char> {
    spec_strip_from(l, 0, false, '"', false)
}

/// Strips comments from a single line while preserving string literals.
pub fn strip_line_comments(line: &str) -> (r: String)
    ensures
        r@ == spec_strip_line(line@),
{
    let v = chars_of(line);
    let n = v.len();
    let mut out: Vec<char> = Vec::new();
    let mut in_string: bool = false;
    let mut string_char: char = '"';
    let mut escaped: bool = false;
    let mut i: usize = 0;
    loop
        invariant_except_break
            n == v@.len(),
            v@ == line@,
            i <= n,
            spec_strip_line(line@) == out@ + spec_strip_from(
                v@,
                i as int,
                in_string,
                string_char,
                escaped,
            ),
        ensures
            out@ == spec_strip_line(line@),
        decreases n - i,
    {
        if i >= n {
            proof {
                assert(out@ =~= out@ + spec_strip_from(v@, i as int, in_string, string_char, escaped));
            }
            break;
        }
        let ghost pre_out = out@;
        let ghost pre_state = spec_strip_from(v@, i as int, in_string, string_char, escaped);
        let c = v[i];
        if !escaped && !in_string && (c == '"' || c == '\'') {
            out.push(c);
            in_string = true;
            string_char = c;
            i = i + 1;
            proof {
                assert(pre_out + pre_state =~= out@ + spec_strip_from(
                    v@,
                    i as int,
                    in_string,
                    string_char,
                    escaped,
                ));
            }
        } else if in_string && c == string_char && !escaped {
            out.push(c);
            in_string = false;
            i = i + 1;
            proof {
                assert(pre_out + pre_state =~= out@ + spec_strip_from(
                    v@,
                    i as int,
                    in_string,
                    string_char,
                    escaped,
                ));
            }
        } else if in_string {
            let next_escaped: bool = c == '\\' && !escaped;
            out.push(c);
            escaped = next_escaped;
            i = i + 1;
            proof {
                assert(pre_out + pre_state =~= out@ + spec_strip_from(
                    v@,
                    i as int,
                    in_string,
                    string_char,
                    escaped,
                ));
            }
        } else if c == '/' && i + 1 < n && v[i + 1] == '/' {
            proof {
                assert(pre_state =~= Seq::<char>::empty());
                assert(out@ =~= spec_strip_line(line@));
            }
            break;
        } else if c == '/' && i + 1 < n && v[i + 1] == '*' {
            let mut j: usize = i + 2;
            let mut found: bool = false;
            while j < n - 1 && !found
                invariant
                    n == v@.len(),
                    2 <= n,
                    i + 2 <= j <= n,
                    found ==> j + 1 < n && v@[j as int] == '*' && v@[j + 1] == '/',
                    forall|k: int| #![trigger v@[k]]
                        i + 2 <= k < j ==> !(v@[k] == '*' && v@[k + 1] == '/'),
                decreases n - j + (if found {
                    0int
                } else {
                    1int
                }),
            {
                if v[j] == '*' && v[j + 1] == '/' {
                    found = true;
                } else {
                    j = j + 1;
                }
            }
            if found {
                proof {
                    lemma_find_star_slash_at(v@, i + 2, j as int);
                }
                out.push(' ');
                i = j + 2;
                proof {
                    assert(pre_out + pre_state =~= out@ + spec_strip_from(
                        v@,
                        i as int,
                        in_string,
                        string_char,
                        escaped,
                    ));
                }
            } else {
                proof {
                    lemma_find_star_slash_none(v@, i + 2);
                }
                out.push('/');
                out.push('*');
                out.push(' ');
                out.push('*');
                out.push('/');
                proof {
                    reveal_strlit("/* */");
                    assert(pre_out + pre_state =~= out@);
                    assert(out@ =~= spec_strip_line(line@));
                }
                break;
            }
        } else {
            out.push(c);
            escaped = false;
            i = i + 1;
            proof {
                assert(pre_out + pre_state =~= out@ + spec_strip_from(
                    v@,
                    i as int,
                    in_string,
                    string_char,
                    escaped,
                ));
            }
        }
    }
    string_from_chars(&out)
}

/// The lines of `content`, each stripped of comments, joined by `'\n'`.
pub open spec fn spec_join_nl(ls: Seq<Seq<char>>) -> Seq<char>
    decreases ls.len(),
{
    if ls.len() == 0 {
        Seq::empty()
    } else if ls.len() == 1 {
        ls[0]
    } else {
        ls[0] + seq!['\n'] + spec_join_nl(ls.drop_first())
    }
}

proof fn lemma_join_nl_push(ls: Seq<Seq<char>>, l: Seq<char>)
    ensures
        ls.len() == 0 ==> spec_join_nl(ls.push(l)) == l,
        ls.len() > 0 ==> spec_join_nl(ls.push(l)) =~= spec_join_nl(ls) + seq!['\n'] + l,
    decreases ls.len(),
{
    if ls.len() == 0 {
        assert(ls.push(l)[0] == l);
    } else if ls.len() == 1 {
        assert(ls.push(l).drop_first() =~= seq![l]);
        assert(spec_join_nl(seq![l]) == l);
    } else {
        assert(ls.push(l).drop_first() =~= ls.drop_first().push(l));
        lemma_join_nl_push(ls.drop_first(), l);
    }
}

/// What comment stripping leaves of a whole file.
pub open spec fn spec_strip_comments(content: Seq<char>) -> Seq<char> {
    spec_join_nl(spec_lines(content).map_values(|l: Seq<char>| spec_strip_line(l)))
}

/// Strips comments from every line of `content`, preserving line structure.
pub fn strip_comments_and_normalize(content: &str) -> (r: String)
    ensures
        r@ == spec_strip_comments(content@),
{
    let ls = lines_of(content);
    let total = ls.len();
    let ghost mapped = spec_lines(content@).map_values(|l: Seq<char>| spec_strip_line(l));
    let mut out = String::new();
    let mut i: usize = 0;
    while i < total
        invariant
            total == ls@.len(),
            ls.deep_view() == spec_lines(content@),
            mapped == spec_lines(content@).map_values(|l: Seq<char>| spec_strip_line(l)),
            i <= total,
            i == 0 ==> out@ == Seq::<char>::empty(),
            0 < i < total ==> out@ == spec_join_nl(mapped.subrange(0, i as int)) + seq!['\n'],
            i == total && total > 0 ==> out@ == spec_join_nl(mapped.subrange(0, i as int)),
        decreases total - i,
    {
        let cleaned = strip_line_comments(ls[i].as_str());
        proof {
            assert(ls.deep_view()[i as int] == ls@[i as int]@);
            assert(cleaned@ == mapped[i as int]);
            assert(mapped.subrange(0, i + 1) =~= mapped.subrange(0, i as int).push(
                mapped[i as int],
            ));
            lemma_join_nl_push(mapped.subrange(0, i as int), mapped[i as int]);
        }
        out.append(cleaned.as_str());
        if i < total - 1 {
            out.append("\n");
            proof {
                reveal_strlit("\n");
                assert(out@ =~= spec_join_nl(mapped.subrange(0, i + 1)) + seq!['\n']);
            }
        } else {
            proof {
                assert(out@ =~= spec_join_nl(mapped.subrange(0, i + 1)));
            }
        }
        i = i + 1;
    }
    proof {
        if total == 0 {
            assert(spec_lines(content@).len() == 0);
            assert(mapped.len() == 0);
            assert(out@ =~= spec_join_nl(mapped));
        } else {
            assert(mapped.subrange(0, total as int) =~= mapped);
        }
    }
    out
}

} // verus!
