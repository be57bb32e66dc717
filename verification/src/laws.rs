//! The library's laws.  Word-level laws of the squeezer: the output of
//! `squeeze_fit_remove_quoted` is, word for word, the cleaned input when it
//! is under budget, exactly the budgeted head and tail words when it is
//! over budget, and idempotent on under-budget input.  Line-level laws of
//! the aggregation: every bundle's URL and summary lines correspond one to
//! one to that contributor's records.  And the shape of a single-record
//! contributor's rendered section.

use vstd::prelude::*;
use crate::aggregate::{
    aggregate_spec, aligned, lemma_aggregate_alignment, summaries_for, urls_for, BundleView,
    ItemView,
};
use crate::squeeze::{
    clean_line, clean_words_of, cleaned_body, find_char_from, find_space_from, head_tail,
    is_space_char, join_seqs, kept_lines, kept_words, lemma_find_char_from,
    lemma_find_space_from, lines_from, squeeze_remove_quoted_spec, spec_lines, spec_words,
    words_from,
};

verus! {

/// A well-formed word: non-empty and free of separator characters.
pub open spec fn wf_word(w: Seq<char>) -> bool {
    w.len() > 0 && forall|k: int| 0 <= k < w.len() ==> !is_space_char(#[trigger] w[k])
}

/// Every element is a well-formed word.
pub open spec fn all_wf(ws: Seq<Seq<char>>) -> bool {
    forall|i: int| 0 <= i < ws.len() ==> wf_word(#[trigger] ws[i])
}

/// Offset lemma for separator search: searching in `a + t` past `a` is
/// searching in `t`.
proof fn lemma_find_space_offset(a: Seq<char>, t: Seq<char>, k: int)
    requires
        0 <= k <= t.len(),
    ensures
        find_space_from(a + t, a.len() + k) == a.len() + find_space_from(t, k),
    decreases t.len() - k,
{
    let s = a + t;
    if k < t.len() {
        assert(s[a.len() + k] == t[k]);
        if !is_space_char(t[k]) {
            lemma_find_space_offset(a, t, k + 1);
        }
    }
}

/// Offset lemma for word splitting: the words of `a + t` from a position
/// past `a` are the words of `t`.
proof fn lemma_words_offset(a: Seq<char>, t: Seq<char>, k: int)
    requires
        0 <= k <= t.len(),
    ensures
        words_from(a + t, a.len() + k) == words_from(t, k),
    decreases t.len() - k,
{
    let s = a + t;
    if k >= t.len() {
    } else {
        assert(s[a.len() + k] == t[k]);
        if is_space_char(t[k]) {
            lemma_words_offset(a, t, k + 1);
        } else {
            lemma_find_space_offset(a, t, k);
            let j = find_space_from(t, k);
            lemma_find_space_from(t, k);
            assert(s.subrange(a.len() + k, a.len() + j) =~= t.subrange(k, j));
            lemma_words_offset(a, t, j);
            assert(words_from(s, a.len() + k) =~= words_from(t, k));
        }
    }
}

/// Searching before a separator boundary never runs past it.
proof fn lemma_find_space_prefix(a: Seq<char>, t: Seq<char>, pos: int)
    requires
        0 <= pos <= a.len(),
        t.len() > 0,
        is_space_char(t[0]),
    ensures
        find_space_from(a + t, pos) == if find_space_from(a, pos) < a.len() {
            find_space_from(a, pos)
        } else {
            a.len() as int
        },
    decreases a.len() - pos,
{
    let s = a + t;
    if pos < a.len() {
        assert(s[pos] == a[pos]);
        if !is_space_char(a[pos]) {
            lemma_find_space_prefix(a, t, pos + 1);
        }
    } else {
        assert(s[pos] == t[0]);
    }
}

/// Splitting at a separator: the words of `a + [sp] + b` are the words of
/// `a` (from `pos`) followed by the words of `b`.
proof fn lemma_words_split(a: Seq<char>, sp: char, b: Seq<char>, pos: int)
    requires
        0 <= pos <= a.len(),
        is_space_char(sp),
    ensures
        words_from(a + seq![sp] + b, pos) == words_from(a, pos) + words_from(b, 0),
    decreases a.len() - pos,
{
    let t = seq![sp] + b;
    let s = a + seq![sp] + b;
    assert(s =~= a + t);
    if pos == a.len() {
        assert(s[pos] == t[0]);
        assert(is_space_char(s[pos]));
        // words_from(s, a.len()) == words_from(s, a.len() + 1)
        let a2 = a + seq![sp];
        assert(s =~= a2 + b);
        lemma_words_offset(a2, b, 0);
        assert(words_from(s, a.len() as int + 1) == words_from(b, 0));
        assert(words_from(a, pos) =~= Seq::<Seq<char>>::empty());
        assert(words_from(s, pos) =~= words_from(a, pos) + words_from(b, 0));
    } else {
        assert(s[pos] == a[pos]);
        if is_space_char(a[pos]) {
            lemma_words_split(a, sp, b, pos + 1);
        } else {
            lemma_find_space_prefix(a, t, pos);
            let ja = find_space_from(a, pos);
            lemma_find_space_from(a, pos);
            if ja < a.len() {
                // the first word lies inside `a`
                assert(find_space_from(s, pos) == ja);
                assert(s.subrange(pos, ja) =~= a.subrange(pos, ja));
                lemma_words_split(a, sp, b, ja);
                assert(words_from(s, pos) =~= words_from(a, pos) + words_from(b, 0));
            } else {
                // the word runs to the end of `a`
                assert(find_space_from(s, pos) == a.len());
                assert(s.subrange(pos, a.len() as int) =~= a.subrange(pos, a.len() as int));
                let a2 = a + seq![sp];
                assert(s =~= a2 + b);
                assert(s[a.len() as int] == t[0]);
                lemma_words_offset(a2, b, 0);
                assert(words_from(s, a.len() as int) == words_from(s, a.len() as int + 1));
                assert(words_from(a, ja) =~= Seq::<Seq<char>>::empty());
                assert(words_from(a, pos) =~= seq![a.subrange(pos, ja)]);
                assert(words_from(s, pos) =~= words_from(a, pos) + words_from(b, 0));
            }
        }
    }
}

/// A single well-formed word splits into itself.
proof fn lemma_words_single(w: Seq<char>)
    requires
        wf_word(w),
    ensures
        words_from(w, 0) == seq![w],
{
    lemma_find_space_from(w, 0);
    let j = find_space_from(w, 0);
    assert(j == w.len());
    assert(w.subrange(0, j) =~= w);
    assert(words_from(w, j) =~= Seq::<Seq<char>>::empty());
    assert(words_from(w, 0) =~= seq![w]);
}

/// Splitting inverts joining: the words of well-formed words joined by
/// single spaces are exactly those words.
pub proof fn lemma_words_of_join(ws: Seq<Seq<char>>)
    requires
        all_wf(ws),
    ensures
        words_from(join_seqs(ws, seq![' ']), 0) == ws,
    decreases ws.len(),
{
    if ws.len() == 0 {
        assert(words_from(join_seqs(ws, seq![' ']), 0) =~= ws);
    } else if ws.len() == 1 {
        lemma_words_single(ws[0]);
        assert(words_from(join_seqs(ws, seq![' ']), 0) =~= ws);
    } else {
        let rest = ws.drop_first();
        assert(all_wf(rest)) by {
            assert(forall|i: int| 0 <= i < rest.len() ==> rest[i] == ws[i + 1]);
        }
        lemma_words_of_join(rest);
        let tail_join = join_seqs(rest, seq![' ']);
        assert(join_seqs(ws, seq![' ']) == ws[0] + seq![' '] + tail_join);
        lemma_words_split(ws[0], ' ', tail_join, 0);
        lemma_words_single(ws[0]);
        assert(words_from(join_seqs(ws, seq![' ']), 0) =~= ws);
    }
}

/// The words produced by splitting are well-formed.
proof fn lemma_words_from_wf(s: Seq<char>, pos: int)
    requires
        0 <= pos <= s.len(),
    ensures
        all_wf(words_from(s, pos)),
    decreases s.len() - pos,
{
    if pos < s.len() {
        if is_space_char(s[pos]) {
            lemma_words_from_wf(s, pos + 1);
        } else {
            let j = find_space_from(s, pos);
            lemma_find_space_from(s, pos);
            lemma_words_from_wf(s, j);
            let w = s.subrange(pos, j);
            assert(wf_word(w)) by {
                assert(forall|k: int| 0 <= k < w.len() ==> w[k] == s[pos + k]);
            }
            let out = words_from(s, pos);
            assert(forall|i: int| 0 <= i < out.len() ==> wf_word(#[trigger] out[i])) by {
                assert(forall|i: int|
                    1 <= i < out.len() ==> out[i] == words_from(s, j)[i - 1]);
            }
        }
    }
}

/// Filtering overlong words keeps well-formedness.
proof fn lemma_kept_words_wf(ws: Seq<Seq<char>>)
    requires
        all_wf(ws),
    ensures
        all_wf(kept_words(ws)),
    decreases ws.len(),
{
    if ws.len() > 0 {
        let rest = ws.drop_first();
        assert(all_wf(rest)) by {
            assert(forall|i: int| 0 <= i < rest.len() ==> rest[i] == ws[i + 1]);
        }
        lemma_kept_words_wf(rest);
        let out = kept_words(ws);
        if ws[0].len() < crate::squeeze::LONG_WORD_LIMIT {
            assert(forall|i: int| 0 <= i < out.len() ==> wf_word(#[trigger] out[i])) by {
                assert(forall|i: int| 1 <= i < out.len() ==> out[i] == kept_words(rest)[i - 1]);
            }
        }
    }
}

/// All surviving words of all surviving lines are well-formed.
proof fn lemma_clean_words_wf(ls: Seq<Seq<char>>)
    ensures
        all_wf(clean_words_of(ls)),
    decreases ls.len(),
{
    if ls.len() > 0 {
        lemma_words_from_wf(ls[0], 0);
        lemma_kept_words_wf(words_from(ls[0], 0));
        lemma_clean_words_wf(ls.drop_first());
        let head = kept_words(words_from(ls[0], 0));
        let rest = clean_words_of(ls.drop_first());
        let out = clean_words_of(ls);
        assert(forall|i: int| 0 <= i < out.len() ==> wf_word(#[trigger] out[i])) by {
            assert(forall|i: int| 0 <= i < head.len() ==> out[i] == head[i]);
            assert(forall|i: int|
                head.len() <= i < out.len() ==> out[i] == rest[i - head.len()]);
        }
    }
}

/// The words of the cleaned under-budget body are exactly the surviving
/// words of the surviving lines.
proof fn lemma_cleaned_body_words(ls: Seq<Seq<char>>)
    ensures
        words_from(cleaned_body(ls), 0) == clean_words_of(ls),
    decreases ls.len(),
{
    if ls.len() == 0 {
        assert(words_from(cleaned_body(ls), 0) =~= clean_words_of(ls));
    } else {
        let rest = ls.drop_first();
        lemma_cleaned_body_words(rest);
        let line_words = kept_words(words_from(ls[0], 0));
        lemma_words_from_wf(ls[0], 0);
        lemma_kept_words_wf(words_from(ls[0], 0));
        lemma_words_of_join(line_words);
        lemma_words_split(clean_line(ls[0]), '\n', cleaned_body(rest), 0);
        assert(words_from(cleaned_body(ls), 0) =~= clean_words_of(ls));
    }
}

/// Law: under the word budget, the output of `squeeze_fit_remove_quoted`
/// equals, word for word, the input with fenced blocks and overlong words
/// removed; nothing else changes the words.
pub proof fn lemma_squeeze_under_budget(s: Seq<char>, max_words: int, split_pct: int)
    requires
        clean_words_of(kept_lines(spec_lines(s), false)).len() <= max_words,
    ensures
        spec_words(squeeze_remove_quoted_spec(s, max_words, split_pct)) == clean_words_of(
            kept_lines(spec_lines(s), false),
        ),
{
    let kl = kept_lines(spec_lines(s), false);
    lemma_cleaned_body_words(kl);
}

/// Law: over the word budget, the output's words are exactly the first
/// `floor(max_words * split_pct / 100)` surviving words and the last
/// remaining budgeted words, and the output's word count is exactly
/// `max_words`.
pub proof fn lemma_squeeze_over_budget(s: Seq<char>, max_words: int, split_pct: int)
    requires
        0 <= split_pct <= 100,
        0 <= max_words,
        clean_words_of(kept_lines(spec_lines(s), false)).len() > max_words,
    ensures
        spec_words(squeeze_remove_quoted_spec(s, max_words, split_pct)) == head_tail(
            clean_words_of(kept_lines(spec_lines(s), false)),
            max_words,
            split_pct,
        ),
        spec_words(squeeze_remove_quoted_spec(s, max_words, split_pct)).len() == max_words,
{
    let kl = kept_lines(spec_lines(s), false);
    let ws = clean_words_of(kl);
    let h = (max_words * split_pct) / 100;
    let t = max_words - h;
    assert(0 <= max_words * split_pct <= max_words * 100) by (nonlinear_arith)
        requires
            0 <= split_pct <= 100,
            0 <= max_words,
    ;
    assert((max_words * 100) / 100 == max_words);
    vstd::arithmetic::div_mod::lemma_div_is_ordered(max_words * split_pct, max_words * 100, 100);
    vstd::arithmetic::div_mod::lemma_div_pos_is_pos(max_words * split_pct, 100);
    assert(0 <= h <= max_words);
    let picked = head_tail(ws, max_words, split_pct);
    lemma_clean_words_wf(kl);
    assert(all_wf(picked)) by {
        assert(forall|i: int| 0 <= i < h ==> picked[i] == ws[i]);
        assert(forall|i: int|
            h <= i < picked.len() ==> picked[i] == ws[ws.len() - t + (i - h)]);
    }
    lemma_words_of_join(picked);
    assert(picked.len() == max_words);
}

/// A newline-free character sequence.
pub open spec fn nl_free(w: Seq<char>) -> bool {
    forall|k: int| 0 <= k < w.len() ==> #[trigger] w[k] != '\n'
}

/// A line-safe entry: non-empty and free of newlines, so that it occupies
/// exactly one line of a newline-joined string.
pub open spec fn line_safe(w: Seq<char>) -> bool {
    w.len() > 0 && nl_free(w)
}

/// Every element is line-safe.
pub open spec fn all_line_safe(ws: Seq<Seq<char>>) -> bool {
    forall|i: int| 0 <= i < ws.len() ==> line_safe(#[trigger] ws[i])
}

/// Offset lemma for newline search.
proof fn lemma_find_nl_offset(a: Seq<char>, t: Seq<char>, k: int)
    requires
        0 <= k <= t.len(),
    ensures
        find_char_from(a + t, a.len() + k, '\n') == a.len() + find_char_from(t, k, '\n'),
    decreases t.len() - k,
{
    let s = a + t;
    if k < t.len() {
        assert(s[a.len() + k] == t[k]);
        if t[k] != '\n' {
            lemma_find_nl_offset(a, t, k + 1);
        }
    }
}

/// Offset lemma for line splitting: the lines of `a + t` from a position
/// past `a` are the lines of `t`.
proof fn lemma_lines_offset(a: Seq<char>, t: Seq<char>, k: int)
    requires
        0 <= k <= t.len(),
    ensures
        lines_from(a + t, a.len() + k) == lines_from(t, k),
    decreases t.len() - k,
{
    let s = a + t;
    if k >= t.len() {
    } else {
        lemma_find_nl_offset(a, t, k);
        let j = find_char_from(t, k, '\n');
        lemma_find_char_from(t, k, '\n');
        assert(s.subrange(a.len() + k, a.len() + j) =~= t.subrange(k, j));
        if j + 1 <= t.len() {
            lemma_lines_offset(a, t, j + 1);
        } else {
            lemma_lines_offset(a, t, t.len() as int);
        }
        assert(lines_from(s, a.len() + k) =~= lines_from(t, k));
    }
}

/// Splitting at a newline: a newline-free first segment occupies exactly
/// one line, and the rest follows.
proof fn lemma_lines_split(w: Seq<char>, b: Seq<char>)
    requires
        nl_free(w),
    ensures
        lines_from(w + seq!['\n'] + b, 0) == seq![w] + lines_from(b, 0),
{
    let s = w + seq!['\n'] + b;
    lemma_find_char_from(s, 0, '\n');
    let j = find_char_from(s, 0, '\n');
    assert(s[w.len() as int] == '\n');
    assert(j == w.len()) by {
        if j < w.len() {
            assert(s[j] == w[j]);
        }
        if j > w.len() {
            assert(s[w.len() as int] != '\n');
        }
    }
    assert(s.subrange(0, j) =~= w);
    let a2 = w + seq!['\n'];
    assert(s =~= a2 + b);
    lemma_lines_offset(a2, b, 0);
    assert(lines_from(s, w.len() as int + 1) == lines_from(b, 0));
    assert(lines_from(s, 0) =~= seq![w] + lines_from(b, 0));
}

/// Splitting inverts joining for lines: the lines of line-safe entries
/// joined by newlines are exactly those entries.
pub proof fn lemma_lines_of_join(ws: Seq<Seq<char>>)
    requires
        all_line_safe(ws),
        ws.len() > 0,
    ensures
        lines_from(join_seqs(ws, seq!['\n']), 0) == ws,
    decreases ws.len(),
{
    if ws.len() == 1 {
        let w = ws[0];
        lemma_find_char_from(w, 0, '\n');
        let j = find_char_from(w, 0, '\n');
        assert(j == w.len());
        assert(w.subrange(0, j) =~= w);
        assert(lines_from(w, w.len() as int) =~= Seq::<Seq<char>>::empty());
        assert(lines_from(join_seqs(ws, seq!['\n']), 0) =~= ws);
    } else {
        let rest = ws.drop_first();
        assert(all_line_safe(rest)) by {
            assert(forall|i: int| 0 <= i < rest.len() ==> rest[i] == ws[i + 1]);
        }
        lemma_lines_of_join(rest);
        assert(join_seqs(ws, seq!['\n']) == ws[0] + seq!['\n'] + join_seqs(rest, seq!['\n']));
        lemma_lines_split(ws[0], join_seqs(rest, seq!['\n']));
        assert(lines_from(join_seqs(ws, seq!['\n']), 0) =~= ws);
    }
}

proof fn lemma_nl_free_concat(x: Seq<char>, y: Seq<char>)
    requires
        nl_free(x),
        nl_free(y),
    ensures
        nl_free(x + y),
{
    assert forall|k: int| 0 <= k < (x + y).len() implies #[trigger] (x + y)[k] != '\n' by {
        if k < x.len() {
            assert((x + y)[k] == x[k]);
        } else {
            assert((x + y)[k] == y[k - x.len()]);
        }
    }
}

/// A join of well-formed words by single spaces contains no newline.
proof fn lemma_join_nl_free(ws: Seq<Seq<char>>)
    requires
        all_wf(ws),
    ensures
        nl_free(join_seqs(ws, seq![' '])),
    decreases ws.len(),
{
    if ws.len() == 0 {
    } else if ws.len() == 1 {
        assert(nl_free(ws[0]));
    } else {
        let rest = ws.drop_first();
        assert(all_wf(rest)) by {
            assert(forall|i: int| 0 <= i < rest.len() ==> rest[i] == ws[i + 1]);
        }
        lemma_join_nl_free(rest);
        assert(nl_free(ws[0]));
        assert(nl_free(seq![' ']));
        lemma_nl_free_concat(ws[0], seq![' ']);
        lemma_nl_free_concat(ws[0] + seq![' '], join_seqs(rest, seq![' ']));
        assert(join_seqs(ws, seq![' ']) == ws[0] + seq![' '] + join_seqs(rest, seq![' ']));
    }
}

/// The lines of the cleaned body are exactly the cleaned surviving lines.
proof fn lemma_lines_of_cleaned_body(ls: Seq<Seq<char>>)
    ensures
        lines_from(cleaned_body(ls), 0) == ls.map_values(|l: Seq<char>| clean_line(l)),
    decreases ls.len(),
{
    let mapped = ls.map_values(|l: Seq<char>| clean_line(l));
    if ls.len() == 0 {
        assert(lines_from(cleaned_body(ls), 0) =~= mapped);
    } else {
        let rest = ls.drop_first();
        lemma_lines_of_cleaned_body(rest);
        lemma_words_from_wf(ls[0], 0);
        lemma_kept_words_wf(words_from(ls[0], 0));
        lemma_join_nl_free(kept_words(words_from(ls[0], 0)));
        lemma_lines_split(clean_line(ls[0]), cleaned_body(rest));
        assert(lines_from(cleaned_body(ls), 0) =~= mapped) by {
            assert(rest.map_values(|l: Seq<char>| clean_line(l)) =~= mapped.drop_first());
        }
    }
}

/// A word produced from a text without a `c`-triple has no `c`-triple.
proof fn lemma_words_from_no_triple(s: Seq<char>, pos: int, c: char)
    requires
        0 <= pos <= s.len(),
        !crate::squeeze::has_triple(s, c),
    ensures
        forall|i: int|
            0 <= i < words_from(s, pos).len() ==> !crate::squeeze::has_triple(
                #[trigger] words_from(s, pos)[i],
                c,
            ),
    decreases s.len() - pos,
{
    if pos < s.len() {
        if is_space_char(s[pos]) {
            lemma_words_from_no_triple(s, pos + 1, c);
            let out = words_from(s, pos);
            assert forall|i: int| 0 <= i < out.len() implies !crate::squeeze::has_triple(
                #[trigger] out[i],
                c,
            ) by {
                assert(out[i] == words_from(s, pos + 1)[i]);
            }
        } else {
            let j = find_space_from(s, pos);
            lemma_find_space_from(s, pos);
            lemma_words_from_no_triple(s, j, c);
            let w = s.subrange(pos, j);
            assert(!crate::squeeze::has_triple(w, c)) by {
                if crate::squeeze::has_triple(w, c) {
                    let i = choose|i: int|
                        0 <= i && i + 3 <= w.len() && #[trigger] w[i] == c && w[i + 1] == c && w[i
                            + 2] == c;
                    assert(w[i] == s[pos + i]);
                    assert(w[i + 1] == s[pos + i + 1]);
                    assert(w[i + 2] == s[pos + i + 2]);
                    assert(crate::squeeze::has_triple(s, c));
                }
            }
            let out = words_from(s, pos);
            assert forall|i: int| 0 <= i < out.len() implies !crate::squeeze::has_triple(
                #[trigger] out[i],
                c,
            ) by {
                if i == 0 {
                    assert(out[0] == w);
                } else {
                    assert(out[i] == words_from(s, j)[i - 1]);
                }
            }
        }
    }
}

/// Filtering keeps triple-freedom.
proof fn lemma_kept_words_no_triple(ws: Seq<Seq<char>>, c: char)
    requires
        forall|i: int| 0 <= i < ws.len() ==> !crate::squeeze::has_triple(#[trigger] ws[i], c),
    ensures
        forall|i: int|
            0 <= i < kept_words(ws).len() ==> !crate::squeeze::has_triple(
                #[trigger] kept_words(ws)[i],
                c,
            ),
    decreases ws.len(),
{
    if ws.len() > 0 {
        let rest = ws.drop_first();
        assert(forall|i: int|
            0 <= i < rest.len() ==> !crate::squeeze::has_triple(#[trigger] rest[i], c)) by {
            assert(forall|i: int| 0 <= i < rest.len() ==> rest[i] == ws[i + 1]);
        }
        lemma_kept_words_no_triple(rest, c);
        let out = kept_words(ws);
        assert forall|i: int| 0 <= i < out.len() implies !crate::squeeze::has_triple(
            #[trigger] out[i],
            c,
        ) by {
            if ws[0].len() < crate::squeeze::LONG_WORD_LIMIT {
                if i == 0 {
                    assert(out[0] == ws[0]);
                } else {
                    assert(out[i] == kept_words(rest)[i - 1]);
                }
            } else {
                assert(out[i] == kept_words(rest)[i]);
            }
        }
    }
}

/// Joining triple-free, space-free words with single spaces creates no
/// `c`-triple, for a non-space `c`.
proof fn lemma_join_no_triple(ws: Seq<Seq<char>>, c: char)
    requires
        all_wf(ws),
        !is_space_char(c),
        forall|i: int| 0 <= i < ws.len() ==> !crate::squeeze::has_triple(#[trigger] ws[i], c),
    ensures
        !crate::squeeze::has_triple(join_seqs(ws, seq![' ']), c),
    decreases ws.len(),
{
    let s = join_seqs(ws, seq![' ']);
    if ws.len() == 0 {
        assert(!crate::squeeze::has_triple(s, c));
    } else if ws.len() == 1 {
        assert(s == ws[0]);
    } else {
        let rest = ws.drop_first();
        assert(all_wf(rest)) by {
            assert(forall|i: int| 0 <= i < rest.len() ==> rest[i] == ws[i + 1]);
        }
        assert(forall|i: int|
            0 <= i < rest.len() ==> !crate::squeeze::has_triple(#[trigger] rest[i], c)) by {
            assert(forall|i: int| 0 <= i < rest.len() ==> rest[i] == ws[i + 1]);
        }
        lemma_join_no_triple(rest, c);
        let w0 = ws[0];
        let tail = join_seqs(rest, seq![' ']);
        assert(s == w0 + seq![' '] + tail);
        if crate::squeeze::has_triple(s, c) {
            let i = choose|i: int|
                0 <= i && i + 3 <= s.len() && #[trigger] s[i] == c && s[i + 1] == c && s[i + 2]
                    == c;
            let m = w0.len() as int;
            // the separator sits at index m and is not `c`
            assert(s[m] == ' ');
            if i + 3 <= m {
                assert(s[i] == w0[i]);
                assert(s[i + 1] == w0[i + 1]);
                assert(s[i + 2] == w0[i + 2]);
                assert(crate::squeeze::has_triple(w0, c));
            } else if i >= m + 1 {
                assert(s[i] == tail[i - m - 1]);
                assert(s[i + 1] == tail[i - m]);
                assert(s[i + 2] == tail[i - m + 1]);
                assert(crate::squeeze::has_triple(tail, c));
            } else {
                // one of the three positions is the separator
                assert(i <= m < i + 3);
            }
        }
    }
}

/// Cleaning a non-marker line cannot turn it into a marker line.
proof fn lemma_clean_line_not_fence(l: Seq<char>)
    requires
        !crate::squeeze::is_fence_line(l),
    ensures
        !crate::squeeze::is_fence_line(clean_line(l)),
{
    lemma_words_from_wf(l, 0);
    lemma_kept_words_wf(words_from(l, 0));
    lemma_words_from_no_triple(l, 0, '`');
    lemma_words_from_no_triple(l, 0, '"');
    lemma_kept_words_no_triple(words_from(l, 0), '`');
    lemma_kept_words_no_triple(words_from(l, 0), '"');
    lemma_join_no_triple(kept_words(words_from(l, 0)), '`');
    lemma_join_no_triple(kept_words(words_from(l, 0)), '"');
}

/// The surviving lines of fence filtering are not marker lines.
proof fn lemma_kept_lines_not_fence(ls: Seq<Seq<char>>, inside: bool)
    ensures
        forall|i: int|
            0 <= i < kept_lines(ls, inside).len() ==> !crate::squeeze::is_fence_line(
                #[trigger] kept_lines(ls, inside)[i],
            ),
    decreases ls.len(),
{
    if ls.len() > 0 {
        if crate::squeeze::is_fence_line(ls[0]) {
            lemma_kept_lines_not_fence(ls.drop_first(), !inside);
            let out = kept_lines(ls, inside);
            assert forall|i: int| 0 <= i < out.len() implies !crate::squeeze::is_fence_line(
                #[trigger] out[i],
            ) by {
                assert(out[i] == kept_lines(ls.drop_first(), !inside)[i]);
            }
        } else {
            lemma_kept_lines_not_fence(ls.drop_first(), inside);
            if inside {
                let out = kept_lines(ls, inside);
                assert forall|i: int| 0 <= i < out.len() implies !crate::squeeze::is_fence_line(
                    #[trigger] out[i],
                ) by {
                    assert(out[i] == kept_lines(ls.drop_first(), inside)[i]);
                }
            }
            if !inside {
                let out = kept_lines(ls, inside);
                assert forall|i: int| 0 <= i < out.len() implies !crate::squeeze::is_fence_line(
                    #[trigger] out[i],
                ) by {
                    if i == 0 {
                        assert(out[0] == ls[0]);
                    } else {
                        assert(out[i] == kept_lines(ls.drop_first(), inside)[i - 1]);
                    }
                }
            }
        }
    }
}

/// Every kept word is short.
proof fn lemma_kept_words_short(ws: Seq<Seq<char>>)
    ensures
        forall|i: int|
            0 <= i < kept_words(ws).len() ==> (#[trigger] kept_words(ws)[i]).len()
                < crate::squeeze::LONG_WORD_LIMIT,
    decreases ws.len(),
{
    if ws.len() > 0 {
        lemma_kept_words_short(ws.drop_first());
        let out = kept_words(ws);
        assert forall|i: int| 0 <= i < out.len() implies (#[trigger] out[i]).len()
            < crate::squeeze::LONG_WORD_LIMIT by {
            if ws[0].len() < crate::squeeze::LONG_WORD_LIMIT {
                if i == 0 {
                    assert(out[0] == ws[0]);
                } else {
                    assert(out[i] == kept_words(ws.drop_first())[i - 1]);
                }
            } else {
                assert(out[i] == kept_words(ws.drop_first())[i]);
            }
        }
    }
}

/// Filtering short words is the identity.
proof fn lemma_kept_words_noop(ws: Seq<Seq<char>>)
    requires
        forall|i: int|
            0 <= i < ws.len() ==> (#[trigger] ws[i]).len() < crate::squeeze::LONG_WORD_LIMIT,
    ensures
        kept_words(ws) == ws,
    decreases ws.len(),
{
    if ws.len() == 0 {
        assert(kept_words(ws) =~= ws);
    } else {
        let rest = ws.drop_first();
        assert(forall|i: int|
            0 <= i < rest.len() ==> (#[trigger] rest[i]).len()
                < crate::squeeze::LONG_WORD_LIMIT) by {
            assert(forall|i: int| 0 <= i < rest.len() ==> rest[i] == ws[i + 1]);
        }
        lemma_kept_words_noop(rest);
        assert(kept_words(ws) =~= ws);
    }
}

/// Cleaning a line twice is cleaning it once.
proof fn lemma_clean_line_idempotent(l: Seq<char>)
    ensures
        clean_line(clean_line(l)) == clean_line(l),
        kept_words(words_from(clean_line(l), 0)) == kept_words(words_from(l, 0)),
{
    let ws = kept_words(words_from(l, 0));
    lemma_words_from_wf(l, 0);
    lemma_kept_words_wf(words_from(l, 0));
    lemma_words_of_join(ws);
    // the cleaned line's words are exactly the kept words, all short
    lemma_kept_words_short(words_from(l, 0));
    lemma_kept_words_noop(ws);
}

/// The cleaned body of the cleaned lines is the cleaned body itself, and
/// the surviving words are unchanged.
proof fn lemma_cleaned_body_stable(ls: Seq<Seq<char>>)
    ensures
        cleaned_body(ls.map_values(|l: Seq<char>| clean_line(l))) == cleaned_body(ls),
        clean_words_of(ls.map_values(|l: Seq<char>| clean_line(l))) == clean_words_of(ls),
    decreases ls.len(),
{
    let mapped = ls.map_values(|l: Seq<char>| clean_line(l));
    if ls.len() == 0 {
        assert(mapped =~= Seq::<Seq<char>>::empty());
    } else {
        let rest = ls.drop_first();
        lemma_cleaned_body_stable(rest);
        lemma_clean_line_idempotent(ls[0]);
        assert(mapped.drop_first() =~= rest.map_values(|l: Seq<char>| clean_line(l)));
        assert(cleaned_body(mapped) =~= cleaned_body(ls));
        assert(clean_words_of(mapped) =~= clean_words_of(ls));
    }
}

/// Filtering fences on already-fence-free lines keeps every line.
proof fn lemma_kept_lines_noop(ls: Seq<Seq<char>>)
    requires
        forall|i: int| 0 <= i < ls.len() ==> !crate::squeeze::is_fence_line(#[trigger] ls[i]),
    ensures
        kept_lines(ls, false) == ls,
    decreases ls.len(),
{
    if ls.len() == 0 {
        assert(kept_lines(ls, false) =~= ls);
    } else {
        let rest = ls.drop_first();
        assert(forall|i: int|
            0 <= i < rest.len() ==> !crate::squeeze::is_fence_line(#[trigger] rest[i])) by {
            assert(forall|i: int| 0 <= i < rest.len() ==> rest[i] == ls[i + 1]);
        }
        lemma_kept_lines_noop(rest);
        assert(kept_lines(ls, false) =~= ls);
    }
}

/// Law: on input under the word budget, squeezing is idempotent: squeezing
/// the output again returns it unchanged.
pub proof fn lemma_squeeze_idempotent_under_budget(s: Seq<char>, max_words: int, split_pct: int)
    requires
        clean_words_of(kept_lines(spec_lines(s), false)).len() <= max_words,
    ensures
        squeeze_remove_quoted_spec(
            squeeze_remove_quoted_spec(s, max_words, split_pct),
            max_words,
            split_pct,
        ) == squeeze_remove_quoted_spec(s, max_words, split_pct),
{
    let kl = kept_lines(spec_lines(s), false);
    let o = cleaned_body(kl);
    assert(squeeze_remove_quoted_spec(s, max_words, split_pct) == o);
    let mapped = kl.map_values(|l: Seq<char>| clean_line(l));
    lemma_lines_of_cleaned_body(kl);
    assert(spec_lines(o) == mapped);
    lemma_kept_lines_not_fence(spec_lines(s), false);
    assert(forall|i: int|
        0 <= i < mapped.len() ==> !crate::squeeze::is_fence_line(#[trigger] mapped[i])) by {
        assert forall|i: int| 0 <= i < mapped.len() implies !crate::squeeze::is_fence_line(
            #[trigger] mapped[i],
        ) by {
            assert(mapped[i] == clean_line(kl[i]));
            lemma_clean_line_not_fence(kl[i]);
        }
    }
    lemma_kept_lines_noop(mapped);
    lemma_cleaned_body_stable(kl);
    assert(kept_lines(spec_lines(o), false) == mapped);
    assert(clean_words_of(mapped) == clean_words_of(kl));
    assert(cleaned_body(mapped) == o);
}

/// All records carry a line-safe locator and a line-safe summary.
pub open spec fn records_line_safe(rs: Seq<ItemView>) -> bool {
    forall|i: int|
        0 <= i < rs.len() ==> line_safe((#[trigger] rs[i]).source_url) && line_safe(rs[i].summary)
}

proof fn lemma_for_key_line_safe(rs: Seq<ItemView>, key: Seq<char>)
    requires
        records_line_safe(rs),
    ensures
        all_line_safe(urls_for(rs, key)),
        all_line_safe(summaries_for(rs, key)),
    decreases rs.len(),
{
    if rs.len() > 0 {
        assert(records_line_safe(rs.drop_last())) by {
            assert(forall|i: int|
                0 <= i < rs.len() - 1 ==> rs.drop_last()[i] == rs[i]);
        }
        lemma_for_key_line_safe(rs.drop_last(), key);
        let us = urls_for(rs, key);
        let ss = summaries_for(rs, key);
        assert(forall|i: int| 0 <= i < us.len() ==> line_safe(#[trigger] us[i])) by {
            assert(forall|i: int|
                0 <= i < urls_for(rs.drop_last(), key).len() ==> us[i] == urls_for(
                    rs.drop_last(),
                    key,
                )[i]);
        }
        assert(forall|i: int| 0 <= i < ss.len() ==> line_safe(#[trigger] ss[i])) by {
            assert(forall|i: int|
                0 <= i < summaries_for(rs.drop_last(), key).len() ==> ss[i] == summaries_for(
                    rs.drop_last(),
                    key,
                )[i]);
        }
    }
}

/// Law: the rendered section of a contributor with exactly one analyzed
/// commit and one analyzed issue is the "found 1 commits" line over the
/// commit's locator, the "found 1 issues" line over the issue's locator,
/// and the correlated summary, newline-joined, in that order.
pub proof fn lemma_one_commit_one_issue_section(c: ItemView, i: ItemView, corr: Seq<char>)
    requires
        c.contributor == i.contributor,
        line_safe(c.source_url),
        line_safe(i.source_url),
    ensures
        aggregate_spec(seq![c]).len() == 1,
        aggregate_spec(seq![i]).len() == 1,
        aggregate_spec(seq![c])[0].urls_joined == c.source_url,
        aggregate_spec(seq![i])[0].urls_joined == i.source_url,
        spec_lines(c.source_url).len() == 1,
        spec_lines(i.source_url).len() == 1,
        crate::report::user_section_spec(
            c.contributor,
            Some(aggregate_spec(seq![c])[0]),
            Some(aggregate_spec(seq![i])[0]),
            None,
            crate::report::CorrOutView::Summary(corr),
        ) == crate::report::commits_section_spec(c.contributor, c.source_url) + seq!['\n']
            + crate::report::issues_section_spec(c.contributor, i.source_url) + seq!['\n'] + corr,
        crate::report::commits_section_spec(c.contributor, c.source_url) == c.contributor
            + " found 1 commits:\n"@ + c.source_url,
        crate::report::issues_section_spec(c.contributor, i.source_url) == c.contributor
            + " found 1 issues:\n"@ + i.source_url,
{
    assert(seq![c].drop_last() =~= Seq::<ItemView>::empty());
    assert(seq![i].drop_last() =~= Seq::<ItemView>::empty());
    assert(aggregate_spec(Seq::<ItemView>::empty()) =~= Seq::<BundleView>::empty());
    assert(aggregate_spec(seq![c]) =~= Seq::<BundleView>::empty().push(
        BundleView { contributor: c.contributor, urls_joined: c.source_url, summaries_joined: c.summary },
    ));
    assert(aggregate_spec(seq![i]) =~= Seq::<BundleView>::empty().push(
        BundleView { contributor: i.contributor, urls_joined: i.source_url, summaries_joined: i.summary },
    ));
    lemma_lines_of_join(seq![c.source_url]);
    lemma_lines_of_join(seq![i.source_url]);
    assert(join_seqs(seq![c.source_url], seq!['\n']) == c.source_url);
    assert(join_seqs(seq![i.source_url], seq!['\n']) == i.source_url);
    let cs = crate::report::commits_section_spec(c.contributor, c.source_url);
    let is_ = crate::report::issues_section_spec(c.contributor, i.source_url);
    let parts = seq![cs] + seq![is_] + Seq::<Seq<char>>::empty() + seq![corr];
    assert(parts =~= seq![cs, is_, corr]);
    assert(join_seqs(seq![corr], seq!['\n']) == corr);
    assert(join_seqs(seq![is_, corr], seq!['\n']) == is_ + seq!['\n'] + corr) by {
        assert(seq![is_, corr].drop_first() =~= seq![corr]);
    }
    assert(join_seqs(seq![cs, is_, corr], seq!['\n']) == cs + seq!['\n'] + (is_ + seq!['\n']
        + corr)) by {
        assert(seq![cs, is_, corr].drop_first() =~= seq![is_, corr]);
    }
    assert(cs + seq!['\n'] + (is_ + seq!['\n'] + corr) =~= cs + seq!['\n'] + is_ + seq!['\n']
        + corr);
    assert(crate::report::dec_digits(1) == seq!['1']);
    reveal_strlit(" found ");
    reveal_strlit("1");
    reveal_strlit(" commits:\n");
    reveal_strlit(" issues:\n");
    reveal_strlit(" found 1 commits:\n");
    reveal_strlit(" found 1 issues:\n");
    assert(" found "@ + seq!['1'] + " commits:\n"@ =~= " found 1 commits:\n"@);
    assert(" found "@ + seq!['1'] + " issues:\n"@ =~= " found 1 issues:\n"@);
    assert(cs =~= c.contributor + " found 1 commits:\n"@ + c.source_url);
    assert(is_ =~= c.contributor + " found 1 issues:\n"@ + i.source_url);
}

/// Law: for records whose locators and summaries are single lines, every
/// bundle's URL lines and summary lines are exactly that contributor's
/// records, line for line and in the same number — the "found N records"
/// count equals the number of that contributor's records.
pub proof fn lemma_bundle_line_alignment(rs: Seq<ItemView>)
    requires
        records_line_safe(rs),
    ensures
        forall|j: int|
            0 <= j < aggregate_spec(rs).len() ==> {
                let b = #[trigger] aggregate_spec(rs)[j];
                &&& spec_lines(b.urls_joined) == urls_for(rs, b.contributor)
                &&& spec_lines(b.summaries_joined) == summaries_for(rs, b.contributor)
                &&& spec_lines(b.urls_joined).len() == spec_lines(b.summaries_joined).len()
            },
{
    lemma_aggregate_alignment(rs);
    let bs = aggregate_spec(rs);
    assert forall|j: int| 0 <= j < bs.len() implies {
        let b = #[trigger] bs[j];
        &&& spec_lines(b.urls_joined) == urls_for(rs, b.contributor)
        &&& spec_lines(b.summaries_joined) == summaries_for(rs, b.contributor)
        &&& spec_lines(b.urls_joined).len() == spec_lines(b.summaries_joined).len()
    } by {
        let b = bs[j];
        lemma_for_key_line_safe(rs, b.contributor);
        lemma_lines_of_join(urls_for(rs, b.contributor));
        lemma_lines_of_join(summaries_for(rs, b.contributor));
    }
}

} // verus!
