//! A small glob matcher used to select release assets by name.
//!
//! The pattern is matched against the **entire** name: it is anchored at both
//! ends, never a substring. Two wildcards are supported:
//!
//! - `*` matches any sequence of characters (including none);
//! - `?` matches exactly one character.
//!
//! Every other character, including `.`, `-` and `_`, matches literally.
use vstd::prelude::*;
use crate::text::chars_of;

verus! {

/// A single pattern character `p` accepts the text character `c`: `?` accepts
/// any character, anything else (other than `*`) only itself.
pub open spec fn char_fits(p: char, c: char) -> bool {
    p == '?' || p == c
}

/// The meaning of a glob: `pattern` matches the whole of `text`.
pub open spec fn glob_matches(pattern: Seq<char>, text: Seq<char>) -> bool
    decreases pattern.len(), text.len(),
{
    if pattern.len() == 0 {
        text.len() == 0
    } else if pattern[0] == '*' {
        glob_matches(pattern.drop_first(), text) || (text.len() > 0 && glob_matches(
            pattern,
            text.drop_first(),
        ))
    } else {
        text.len() > 0 && char_fits(pattern[0], text[0]) && glob_matches(
            pattern.drop_first(),
            text.drop_first(),
        )
    }
}

/// `pattern[i..]` matches `text[j..]`.
pub open spec fn glob_at(pattern: Seq<char>, text: Seq<char>, i: int, j: int) -> bool {
    glob_matches(pattern.skip(i), text.skip(j))
}

/// `pattern[i..i + n]` holds no `*` and accepts `text[j..j + n]` character by character.
pub open spec fn literal_run(pattern: Seq<char>, text: Seq<char>, i: int, j: int, n: int) -> bool {
    &&& 0 <= n
    &&& 0 <= i
    &&& i + n <= pattern.len()
    &&& 0 <= j
    &&& j + n <= text.len()
    &&& forall|d: int| 0 <= d < n ==> #[trigger] literal_fits(pattern[i + d], text[j + d])
}

/// A non-wildcard-`*` pattern character accepts the text character.
pub open spec fn literal_fits(p: char, c: char) -> bool {
    p != '*' && char_fits(p, c)
}

/// No `*` occurs in `pattern[i..i + n]`.
pub open spec fn star_free(pattern: Seq<char>, i: int, n: int) -> bool {
    &&& 0 <= n
    &&& 0 <= i
    &&& i + n <= pattern.len()
    &&& forall|d: int| 0 <= d < n ==> #[trigger] pattern[i + d] != '*'
}

/// One step of the definition, read on suffixes.
proof fn lemma_unfold(pattern: Seq<char>, text: Seq<char>, i: int, j: int)
    requires
        0 <= i <= pattern.len(),
        0 <= j <= text.len(),
    ensures
        i == pattern.len() ==> (glob_at(pattern, text, i, j) <==> j == text.len()),
        i < pattern.len() && pattern[i] == '*' ==> (glob_at(pattern, text, i, j) <==> (glob_at(
            pattern,
            text,
            i + 1,
            j,
        ) || (j < text.len() && glob_at(pattern, text, i, j + 1)))),
        i < pattern.len() && pattern[i] != '*' ==> (glob_at(pattern, text, i, j) <==> (j
            < text.len() && char_fits(pattern[i], text[j]) && glob_at(
            pattern,
            text,
            i + 1,
            j + 1,
        ))),
{
    if i < pattern.len() {
        assert(pattern.skip(i).drop_first() =~= pattern.skip(i + 1));
        assert(pattern.skip(i)[0] == pattern[i]);
    }
    if j < text.len() {
        assert(text.skip(j).drop_first() =~= text.skip(j + 1));
        assert(text.skip(j)[0] == text[j]);
    }
}

/// A `*` that matches from a later text position also matches from an earlier one.
proof fn lemma_star_earlier(pattern: Seq<char>, text: Seq<char>, i: int, j: int, k: int)
    requires
        0 <= i < pattern.len(),
        pattern[i] == '*',
        0 <= j <= k <= text.len(),
        glob_at(pattern, text, i, k),
    ensures
        glob_at(pattern, text, i, j),
    decreases k - j,
{
    if j < k {
        lemma_star_earlier(pattern, text, i, j + 1, k);
        lemma_unfold(pattern, text, i, j);
    }
}

/// A `*` matching from `j` means the rest of the pattern matches from some `k >= j`.
proof fn lemma_star_witness(pattern: Seq<char>, text: Seq<char>, i: int, j: int) -> (k: int)
    requires
        0 <= i < pattern.len(),
        pattern[i] == '*',
        0 <= j <= text.len(),
        glob_at(pattern, text, i, j),
    ensures
        j <= k <= text.len(),
        glob_at(pattern, text, i + 1, k),
    decreases text.len() - j,
{
    lemma_unfold(pattern, text, i, j);
    if glob_at(pattern, text, i + 1, j) {
        j
    } else {
        lemma_star_witness(pattern, text, i, j + 1)
    }
}

proof fn lemma_run_is_star_free(pattern: Seq<char>, text: Seq<char>, i: int, j: int, n: int)
    requires
        literal_run(pattern, text, i, j, n),
    ensures
        star_free(pattern, i, n),
{
    assert forall|d: int| 0 <= d < n implies #[trigger] pattern[i + d] != '*' by {
        assert(literal_fits(pattern[i + d], text[j + d]));
    }
}

/// Matching across a run of literal characters that the text accepts.
proof fn lemma_literal_run(pattern: Seq<char>, text: Seq<char>, i: int, j: int, n: int)
    requires
        literal_run(pattern, text, i, j, n),
    ensures
        glob_at(pattern, text, i, j) <==> glob_at(pattern, text, i + n, j + n),
    decreases n,
{
    if n > 0 {
        assert(literal_fits(pattern[i + 0], text[j + 0]));
        lemma_unfold(pattern, text, i, j);
        let i2 = i + 1;
        let j2 = j + 1;
        assert forall|d: int| 0 <= d < n - 1 implies #[trigger] literal_fits(
            pattern[i2 + d],
            text[j2 + d],
        ) by {
            let e = d + 1;
            assert(literal_fits(pattern[i + e], text[j + e]));
            assert(i + e == i2 + d);
            assert(j + e == j2 + d);
        }
        lemma_literal_run(pattern, text, i2, j2, n - 1);
    }
}

/// A star-free run of `n` pattern characters consumes exactly `n` text characters.
proof fn lemma_star_free_consumes(pattern: Seq<char>, text: Seq<char>, i: int, j: int, n: int)
    requires
        star_free(pattern, i, n),
        0 <= j <= text.len(),
        glob_at(pattern, text, i, j),
    ensures
        literal_run(pattern, text, i, j, n),
        glob_at(pattern, text, i + n, j + n),
    decreases n,
{
    if n > 0 {
        assert(pattern[i + 0] != '*');
        lemma_unfold(pattern, text, i, j);
        assert forall|d: int| 0 <= d < n - 1 implies #[trigger] pattern[(i + 1) + d] != '*' by {
            assert(pattern[i + (d + 1)] != '*');
        }
        lemma_star_free_consumes(pattern, text, i + 1, j + 1, n - 1);
        assert forall|d: int| 0 <= d < n implies #[trigger] literal_fits(pattern[i + d], text[j + d])
            by {
            if d > 0 {
                let i2 = i + 1;
                let j2 = j + 1;
                let e = d - 1;
                assert(literal_fits(pattern[i2 + e], text[j2 + e]));
                assert(i2 + e == i + d);
                assert(j2 + e == j + d);
            }
        }
    }
}

/// Two stars separated by a run that the text accepts at `s`: the first star matching from `s`
/// is the same as the second star matching right after the run.
proof fn lemma_star_to_star(pattern: Seq<char>, text: Seq<char>, sp: int, q: int, s: int)
    requires
        0 <= sp < q < pattern.len(),
        pattern[sp] == '*',
        pattern[q] == '*',
        literal_run(pattern, text, sp + 1, s, q - sp - 1),
    ensures
        glob_at(pattern, text, sp, s) <==> glob_at(pattern, text, q, s + (q - sp - 1)),
{
    let n = q - sp - 1;
    lemma_run_is_star_free(pattern, text, sp + 1, s, n);
    lemma_literal_run(pattern, text, sp + 1, s, n);
    lemma_unfold(pattern, text, sp, s);
    if glob_at(pattern, text, sp, s) {
        let k = lemma_star_witness(pattern, text, sp, s);
        lemma_star_free_consumes(pattern, text, sp + 1, k, n);
        lemma_star_earlier(pattern, text, q, s + n, k + n);
    }
}

/// A star followed by a run that the text accepts up to its end.
proof fn lemma_star_to_end(pattern: Seq<char>, text: Seq<char>, sp: int, p: int, s: int)
    requires
        0 <= sp < p <= pattern.len(),
        pattern[sp] == '*',
        s + (p - sp - 1) == text.len(),
        literal_run(pattern, text, sp + 1, s, p - sp - 1),
    ensures
        glob_at(pattern, text, sp, s) <==> glob_at(pattern, text, p, text.len() as int),
{
    let n = p - sp - 1;
    lemma_run_is_star_free(pattern, text, sp + 1, s, n);
    lemma_literal_run(pattern, text, sp + 1, s, n);
    lemma_unfold(pattern, text, sp, s);
    if glob_at(pattern, text, sp, s) {
        let k = lemma_star_witness(pattern, text, sp, s);
        lemma_star_free_consumes(pattern, text, sp + 1, k, n);
    }
}

/// Return `true` if `text` matches the glob `pattern` (`*` and `?` wildcards),
/// the pattern covering the whole of the text.
pub fn matches(pattern: &str, text: &str) -> (res: bool)
    ensures
        res == glob_matches(pattern@, text@),
{
    let pc = chars_of(pattern);
    let tc = chars_of(text);
    let ghost pat = pc@;
    let ghost txt = tc@;
    let ghost plen = pat.len() as int;
    let ghost tlen = txt.len() as int;
    proof {
        assert(pat.skip(0) =~= pat);
        assert(txt.skip(0) =~= txt);
    }

    let mut p: usize = 0;
    let mut t: usize = 0;
    // The most recent `*` in the pattern, and the text position its run of
    // literal characters currently starts at: if the rest fails, the `*`
    // swallows one more character and the run is tried again. A `*` is always
    // a wildcard, also where the text holds a `*` at that point.
    let mut star: Option<usize> = None;
    let mut star_t: usize = 0;

    while t < tc.len()
        invariant
            pat == pc@,
            txt == tc@,
            pat == pattern@,
            txt == text@,
            plen == pc.len(),
            tlen == tc.len(),
            p <= plen,
            star_t <= t <= tlen,
            match star {
                None => glob_matches(pat, txt) == glob_at(pat, txt, p as int, t as int),
                Some(sp) => {
                    &&& sp < p
                    &&& pat[sp as int] == '*'
                    &&& t - star_t == p - sp - 1
                    &&& literal_run(pat, txt, sp + 1, star_t as int, p - sp - 1)
                    &&& glob_matches(pat, txt) == glob_at(pat, txt, sp as int, star_t as int)
                },
            },
        decreases tlen - star_t, plen - p,
    {
        if p < pc.len() && pc[p] == '*' {
            proof {
                if let Some(sp) = star {
                    lemma_star_to_star(pat, txt, sp as int, p as int, star_t as int);
                }
            }
            star = Some(p);
            star_t = t;
            p = p + 1;
        } else if p < pc.len() && (pc[p] == '?' || pc[p] == tc[t]) {
            proof {
                lemma_unfold(pat, txt, p as int, t as int);
                if let Some(sp) = star {
                    let n = p - sp - 1;
                    let i0 = sp + 1;
                    assert forall|d: int| 0 <= d < n + 1 implies #[trigger] literal_fits(
                        pat[i0 + d],
                        txt[star_t + d],
                    ) by {
                        if d < n {
                            assert(literal_fits(pat[i0 + d], txt[star_t + d]));
                        }
                    }
                }
            }
            p = p + 1;
            t = t + 1;
        } else if let Some(sp) = star {
            proof {
                let n = p - sp - 1;
                lemma_literal_run(pat, txt, sp + 1, star_t as int, n as int);
                lemma_unfold(pat, txt, p as int, t as int);
                lemma_unfold(pat, txt, sp as int, star_t as int);
            }
            // Backtrack: let the last `*` consume one more character of the text.
            p = sp + 1;
            star_t = star_t + 1;
            t = star_t;
        } else {
            proof {
                lemma_unfold(pat, txt, p as int, t as int);
            }
            return false;
        }
    }

    proof {
        if let Some(sp) = star {
            lemma_star_to_end(pat, txt, sp as int, p as int, star_t as int);
        }
    }

    // Any trailing `*`s in the pattern can match the empty remainder.
    while p < pc.len() && pc[p] == '*'
        invariant
            pat == pc@,
            p <= plen,
            plen == pc.len(),
            tlen == txt.len(),
            glob_matches(pat, txt) == glob_at(pat, txt, p as int, tlen),
        decreases plen - p,
    {
        proof {
            lemma_unfold(pat, txt, p as int, tlen);
        }
        p = p + 1;
    }
    proof {
        lemma_unfold(pat, txt, p as int, tlen);
    }
    p == pc.len()
}

/// A lone `*` matches every name, the empty one included.
pub proof fn law_star_matches_everything(text: Seq<char>)
    ensures
        glob_matches(seq!['*'], text),
    decreases text.len(),
{
    reveal_with_fuel(glob_matches, 2);
    let p = seq!['*'];
    assert(p.len() == 1 && p[0] == '*');
    assert(p.drop_first() =~= Seq::<char>::empty());
    if text.len() > 0 {
        law_star_matches_everything(text.drop_first());
    }
}

/// A lone `?` matches exactly the names of one character.
pub proof fn law_question_mark_matches_one_character(text: Seq<char>)
    ensures
        glob_matches(seq!['?'], text) <==> text.len() == 1,
{
    reveal_with_fuel(glob_matches, 2);
    let p = seq!['?'];
    assert(p.len() == 1 && p[0] == '?');
    assert(p.drop_first() =~= Seq::<char>::empty());
    if text.len() > 0 {
        assert(text.drop_first().len() == text.len() - 1);
    }
}

/// A pattern without wildcards matches exactly one name: itself. So an exact
/// asset name never selects a longer sidecar such as a checksum file.
pub proof fn law_literal_pattern_matches_only_itself(pattern: Seq<char>, text: Seq<char>)
    requires
        forall|i: int| 0 <= i < pattern.len() ==> #[trigger] pattern[i] != '*' && pattern[i] != '?',
    ensures
        glob_matches(pattern, text) <==> pattern == text,
    decreases pattern.len(),
{
    if pattern.len() > 0 {
        assert(pattern[0] != '*' && pattern[0] != '?');
        if text.len() > 0 {
            assert forall|i: int| 0 <= i < pattern.drop_first().len() implies #[trigger] pattern.drop_first()[i] != '*'
                && pattern.drop_first()[i] != '?' by {
                assert(pattern[i + 1] != '*' && pattern[i + 1] != '?');
            }
            law_literal_pattern_matches_only_itself(pattern.drop_first(), text.drop_first());
            if pattern[0] == text[0] && pattern.drop_first() == text.drop_first() {
                assert forall|i: int| 0 <= i < pattern.len() implies pattern[i] == text[i] by {
                    if i > 0 {
                        assert(pattern.drop_first()[i - 1] == text.drop_first()[i - 1]);
                    }
                }
                assert(pattern =~= text);
            }
            if pattern == text {
                assert(pattern.drop_first() =~= text.drop_first());
            }
        }
    } else {
        if text.len() == 0 {
            assert(pattern =~= text);
        }
    }
}

/// Appending a `*` to a pattern keeps every name it matched and also accepts
/// every extension of those names (the way to opt in to sidecar files).
pub proof fn law_trailing_star_accepts_extensions(pattern: Seq<char>, text: Seq<char>, suffix: Seq<char>)
    requires
        glob_matches(pattern, text),
    ensures
        glob_matches(pattern.push('*'), text + suffix),
    decreases pattern.len(), text.len(),
{
    if pattern.len() == 0 {
        assert(pattern.push('*') =~= seq!['*']);
        assert(text + suffix =~= suffix);
        law_star_matches_everything(suffix);
    } else {
        assert(pattern.push('*').drop_first() =~= pattern.drop_first().push('*'));
        assert(pattern.push('*')[0] == pattern[0]);
        if text.len() > 0 {
            assert((text + suffix).drop_first() =~= text.drop_first() + suffix);
            assert((text + suffix)[0] == text[0]);
        }
        if pattern[0] == '*' {
            if glob_matches(pattern.drop_first(), text) {
                law_trailing_star_accepts_extensions(pattern.drop_first(), text, suffix);
            } else {
                law_trailing_star_accepts_extensions(pattern, text.drop_first(), suffix);
            }
        } else {
            law_trailing_star_accepts_extensions(pattern.drop_first(), text.drop_first(), suffix);
        }
    }
}

} // verus!
