//! Word-budgeted text reduction: fenced blocks are dropped, overlong words are
//! dropped, and text over the word budget keeps a head slice and a tail slice.

use vstd::prelude::*;
use vstd::string::StrSliceExecFns;
use vstd::string::StringExecFns;

verus! {

/// Characters the squeezer treats as word separators.
pub open spec fn is_space_char(c: char) -> bool {
    c == ' ' || c == '\t' || c == '\r' || c == '\n'
}

/// Index of the first occurrence of `target` at or after `pos`, or `s.len()`
/// if there is none.
pub open spec fn find_char_from(s: Seq<char>, pos: int, target: char) -> int
    decreases s.len() - pos,
    when 0 <= pos <= s.len()
{
    if pos >= s.len() {
        s.len() as int
    } else if s[pos] == target {
        pos
    } else {
        find_char_from(s, pos + 1, target)
    }
}

/// Index of the first word separator at or after `pos`, or `s.len()` if there
/// is none.
pub open spec fn find_space_from(s: Seq<char>, pos: int) -> int
    decreases s.len() - pos,
    when 0 <= pos <= s.len()
{
    if pos >= s.len() {
        s.len() as int
    } else if is_space_char(s[pos]) {
        pos
    } else {
        find_space_from(s, pos + 1)
    }
}

pub proof fn lemma_find_char_from(s: Seq<char>, pos: int, target: char)
    requires
        0 <= pos <= s.len(),
    ensures
        pos <= find_char_from(s, pos, target) <= s.len(),
        forall|k: int| pos <= k < find_char_from(s, pos, target) ==> s[k] != target,
        find_char_from(s, pos, target) < s.len() ==> s[find_char_from(s, pos, target)] == target,
    decreases s.len() - pos,
{
    if pos < s.len() && s[pos] != target {
        lemma_find_char_from(s, pos + 1, target);
    }
}

pub proof fn lemma_find_space_from(s: Seq<char>, pos: int)
    requires
        0 <= pos <= s.len(),
    ensures
        pos <= find_space_from(s, pos) <= s.len(),
        forall|k: int| pos <= k < find_space_from(s, pos) ==> !is_space_char(s[k]),
        find_space_from(s, pos) < s.len() ==> is_space_char(s[find_space_from(s, pos)]),
    decreases s.len() - pos,
{
    if pos < s.len() && !is_space_char(s[pos]) {
        lemma_find_space_from(s, pos + 1);
    }
}

/// The newline-separated segments of `s` starting at `pos`.  A final segment
/// without a trailing newline counts; a trailing newline does not open an
/// empty extra segment.
pub open spec fn lines_from(s: Seq<char>, pos: int) -> Seq<Seq<char>>
    decreases s.len() - pos,
    when 0 <= pos <= s.len()
    via lines_from_decreases
{
    if pos >= s.len() {
        Seq::empty()
    } else {
        let j = find_char_from(s, pos, '\n');
        let next = if j + 1 <= s.len() { j + 1 } else { s.len() as int };
        seq![s.subrange(pos, j)] + lines_from(s, next)
    }
}

#[via_fn]
proof fn lines_from_decreases(s: Seq<char>, pos: int) {
    if 0 <= pos < s.len() {
        lemma_find_char_from(s, pos, '\n');
    }
}

/// The lines of a whole text.
pub open spec fn spec_lines(s: Seq<char>) -> Seq<Seq<char>> {
    lines_from(s, 0)
}

/// The whitespace-separated words of `s` starting at `pos`, in order.
pub open spec fn words_from(s: Seq<char>, pos: int) -> Seq<Seq<char>>
    decreases s.len() - pos,
    when 0 <= pos <= s.len()
    via words_from_decreases
{
    if pos >= s.len() {
        Seq::empty()
    } else if is_space_char(s[pos]) {
        words_from(s, pos + 1)
    } else {
        let j = find_space_from(s, pos);
        seq![s.subrange(pos, j)] + words_from(s, j)
    }
}

#[via_fn]
proof fn words_from_decreases(s: Seq<char>, pos: int) {
    if 0 <= pos < s.len() && !is_space_char(s[pos]) {
        lemma_find_space_from(s, pos);
    }
}

/// The words of a whole text.
pub open spec fn spec_words(s: Seq<char>) -> Seq<Seq<char>> {
    words_from(s, 0)
}

/// The views of a vector of owned strings.
pub open spec fn views_of(v: Seq<String>) -> Seq<Seq<char>> {
    v.map_values(|w: String| w@)
}

/// Splits a text into its newline-separated lines.
pub fn split_lines(s: &str) -> (lines: Vec<String>)
    ensures
        views_of(lines@) == spec_lines(s@),
{
    let n = s.unicode_len();
    let mut lines: Vec<String> = Vec::new();
    let mut pos: usize = 0;
    while pos < n
        invariant
            n == s@.len(),
            pos <= n,
            spec_lines(s@) == views_of(lines@) + lines_from(s@, pos as int),
        decreases n - pos,
    {
        let mut j: usize = pos;
        while j < n && !(s.get_char(j) == '\n')
            invariant
                n == s@.len(),
                pos <= j <= n,
                find_char_from(s@, pos as int, '\n') == find_char_from(s@, j as int, '\n'),
            decreases n - j,
        {
            j = j + 1;
        }
        proof {
            lemma_find_char_from(s@, j as int, '\n');
        }
        assert(find_char_from(s@, pos as int, '\n') == j as int);
        let line = s.substring_char(pos, j).to_owned();
        let ghost old_lines = lines@;
        lines.push(line);
        proof {
            assert(views_of(lines@) =~= views_of(old_lines).push(line@));
            assert(views_of(lines@) + lines_from(s@, if j + 1 <= s@.len() { j as int + 1 } else { s@.len() as int })
                =~= views_of(old_lines) + lines_from(s@, pos as int));
        }
        if j < n {
            pos = j + 1;
        } else {
            pos = n;
        }
    }
    proof {
        assert(spec_lines(s@) =~= views_of(lines@));
    }
    lines
}

/// Whether a character is a word separator.
pub fn is_space_char_exec(c: char) -> (r: bool)
    ensures
        r == is_space_char(c),
{
    c == ' ' || c == '\t' || c == '\r' || c == '\n'
}

/// Splits a text into its whitespace-separated words.
pub fn split_words(s: &str) -> (words: Vec<String>)
    ensures
        views_of(words@) == spec_words(s@),
{
    let n = s.unicode_len();
    let mut words: Vec<String> = Vec::new();
    let mut pos: usize = 0;
    while pos < n
        invariant
            n == s@.len(),
            pos <= n,
            spec_words(s@) == views_of(words@) + words_from(s@, pos as int),
        decreases n - pos,
    {
        let c = s.get_char(pos);
        if is_space_char_exec(c) {
            pos = pos + 1;
        } else {
            let mut j: usize = pos + 1;
            while j < n && !is_space_char_exec(s.get_char(j))
                invariant
                    n == s@.len(),
                    pos < j <= n,
                    !is_space_char(s@[pos as int]),
                    find_space_from(s@, pos as int) == find_space_from(s@, j as int),
                decreases n - j,
            {
                j = j + 1;
            }
            proof {
                lemma_find_space_from(s@, j as int);
            }
            assert(find_space_from(s@, pos as int) == j as int);
            let w = s.substring_char(pos, j).to_owned();
            let ghost old_words = words@;
            words.push(w);
            proof {
                assert(views_of(words@) =~= views_of(old_words).push(w@));
                assert(views_of(words@) + words_from(s@, j as int)
                    =~= views_of(old_words) + words_from(s@, pos as int));
            }
            pos = j;
        }
    }
    proof {
        assert(spec_words(s@) =~= views_of(words@));
    }
    words
}

/// Words at least this many characters long are dropped as likely
/// minified or binary garbage.
pub const LONG_WORD_LIMIT: usize = 150;

/// The words that survive the overlong-word filter.
pub open spec fn kept_words(ws: Seq<Seq<char>>) -> Seq<Seq<char>>
    decreases ws.len(),
{
    if ws.len() == 0 {
        Seq::empty()
    } else if ws[0].len() < LONG_WORD_LIMIT {
        seq![ws[0]] + kept_words(ws.drop_first())
    } else {
        kept_words(ws.drop_first())
    }
}

/// Drops every word of at least `LONG_WORD_LIMIT` characters.
pub fn filter_long_words(words: Vec<String>) -> (kept: Vec<String>)
    ensures
        views_of(kept@) == kept_words(views_of(words@)),
{
    let mut kept: Vec<String> = Vec::new();
    let n = words.len();
    let mut i: usize = 0;
    proof {
        assert(views_of(words@).skip(0) =~= views_of(words@));
        assert(views_of(kept@) + kept_words(views_of(words@)) =~= kept_words(views_of(words@)));
    }
    while i < n
        invariant
            n == words@.len(),
            i <= n,
            kept_words(views_of(words@)) == views_of(kept@) + kept_words(views_of(words@).skip(i as int)),
        decreases n - i,
    {
        let ghost suffix = views_of(words@).skip(i as int);
        proof {
            assert(suffix[0] == words@[i as int]@);
            assert(suffix.drop_first() =~= views_of(words@).skip(i as int + 1));
        }
        let w = &words[i];
        if w.as_str().unicode_len() < LONG_WORD_LIMIT {
            let ghost old_kept = kept@;
            kept.push(w.clone());
            proof {
                assert(views_of(kept@) =~= views_of(old_kept).push(w@));
                assert(views_of(kept@) + kept_words(views_of(words@).skip(i as int + 1))
                    =~= views_of(old_kept) + kept_words(suffix));
            }
        }
        i = i + 1;
    }
    proof {
        assert(kept_words(views_of(words@).skip(n as int)) =~= kept_words(Seq::<Seq<char>>::empty()));
        assert(kept_words(views_of(words@)) =~= views_of(kept@));
    }
    kept
}

/// Whether `l` contains three consecutive occurrences of `c`.
pub open spec fn has_triple(l: Seq<char>, c: char) -> bool {
    exists|i: int| 0 <= i && i + 3 <= l.len() && #[trigger] l[i] == c && l[i + 1] == c && l[i + 2] == c
}

/// Whether a line toggles a fenced block: it contains a triple backtick or a
/// triple double-quote.
pub open spec fn is_fence_line(l: Seq<char>) -> bool {
    has_triple(l, '`') || has_triple(l, '"')
}

fn has_triple_exec(l: &str, c: char) -> (r: bool)
    ensures
        r == has_triple(l@, c),
{
    let n = l.unicode_len();
    if n < 3 {
        return false;
    }
    let mut i: usize = 0;
    while i <= n - 3
        invariant
            n == l@.len(),
            3 <= n,
            i <= n - 2,
            forall|k: int| 0 <= k < i ==> !(#[trigger] l@[k] == c && l@[k + 1] == c && l@[k + 2] == c),
        decreases n - i,
    {
        if l.get_char(i) == c && l.get_char(i + 1) == c && l.get_char(i + 2) == c {
            return true;
        }
        i = i + 1;
    }
    false
}

/// Whether the line contains a fence marker.
pub fn is_fence_line_exec(l: &str) -> (r: bool)
    ensures
        r == is_fence_line(l@),
{
    has_triple_exec(l, '`') || has_triple_exec(l, '"')
}

/// The lines that survive fence filtering, starting with fence state
/// `inside`: marker lines toggle the state and are dropped, and lines inside
/// a fenced block are dropped.
pub open spec fn kept_lines(ls: Seq<Seq<char>>, inside: bool) -> Seq<Seq<char>>
    decreases ls.len(),
{
    if ls.len() == 0 {
        Seq::empty()
    } else if is_fence_line(ls[0]) {
        kept_lines(ls.drop_first(), !inside)
    } else if inside {
        kept_lines(ls.drop_first(), inside)
    } else {
        seq![ls[0]] + kept_lines(ls.drop_first(), inside)
    }
}

/// Drops fence-marker lines and everything between them.
pub fn filter_fenced_lines(lines: Vec<String>) -> (kept: Vec<String>)
    ensures
        views_of(kept@) == kept_lines(views_of(lines@), false),
{
    let mut kept: Vec<String> = Vec::new();
    let mut inside = false;
    let n = lines.len();
    let mut i: usize = 0;
    proof {
        assert(views_of(lines@).skip(0) =~= views_of(lines@));
        assert(views_of(kept@) + kept_lines(views_of(lines@), false)
            =~= kept_lines(views_of(lines@), false));
    }
    while i < n
        invariant
            n == lines@.len(),
            i <= n,
            kept_lines(views_of(lines@), false)
                == views_of(kept@) + kept_lines(views_of(lines@).skip(i as int), inside),
        decreases n - i,
    {
        let ghost suffix = views_of(lines@).skip(i as int);
        proof {
            assert(suffix[0] == lines@[i as int]@);
            assert(suffix.drop_first() =~= views_of(lines@).skip(i as int + 1));
        }
        let l = &lines[i];
        if is_fence_line_exec(l.as_str()) {
            inside = !inside;
        } else if !inside {
            let ghost old_kept = kept@;
            kept.push(l.clone());
            proof {
                assert(views_of(kept@) =~= views_of(old_kept).push(l@));
                assert(views_of(kept@) + kept_lines(views_of(lines@).skip(i as int + 1), inside)
                    =~= views_of(old_kept) + kept_lines(suffix, inside));
            }
        }
        i = i + 1;
    }
    proof {
        assert(kept_lines(views_of(lines@).skip(n as int), inside)
            =~= kept_lines(Seq::<Seq<char>>::empty(), inside));
        assert(kept_lines(views_of(lines@), false) =~= views_of(kept@));
    }
    kept
}

/// `ws` joined with the separator `sep` between consecutive elements.
pub open spec fn join_seqs(ws: Seq<Seq<char>>, sep: Seq<char>) -> Seq<char>
    decreases ws.len(),
{
    if ws.len() == 0 {
        Seq::empty()
    } else if ws.len() == 1 {
        ws[0]
    } else {
        ws[0] + sep + join_seqs(ws.drop_first(), sep)
    }
}

/// Joins owned strings with a separator.
pub fn join_with(parts: &Vec<String>, sep: &str) -> (r: String)
    ensures
        r@ == join_seqs(views_of(parts@), sep@),
{
    let mut r = String::new();
    let n = parts.len();
    if n == 0 {
        return r;
    }
    r.append(parts[0].as_str());
    proof {
        lemma_join_head_tail(views_of(parts@), sep@);
        assert(views_of(parts@)[0] == parts@[0]@);
        assert(views_of(parts@).drop_first() =~= views_of(parts@).skip(1));
        assert(r@ =~= Seq::<char>::empty() + parts@[0]@);
        assert(r@ =~= parts@[0]@);
    }
    let mut i: usize = 1;
    while i < n
        invariant
            n == parts@.len(),
            1 <= i <= n,
            join_seqs(views_of(parts@), sep@)
                == r@ + join_seqs_tail(views_of(parts@).skip(i as int), sep@),
        decreases n - i,
    {
        let ghost suffix = views_of(parts@).skip(i as int);
        let ghost r0 = r@;
        proof {
            assert(suffix[0] == parts@[i as int]@);
            assert(suffix.drop_first() =~= views_of(parts@).skip(i as int + 1));
        }
        r.append(sep);
        r.append(parts[i].as_str());
        proof {
            assert(join_seqs_tail(suffix, sep@)
                == sep@ + suffix[0] + join_seqs_tail(suffix.drop_first(), sep@));
            assert(r@ + join_seqs_tail(views_of(parts@).skip(i as int + 1), sep@)
                =~= r0 + join_seqs_tail(suffix, sep@));
        }
        i = i + 1;
    }
    proof {
        assert(join_seqs_tail(views_of(parts@).skip(n as int), sep@)
            =~= join_seqs_tail(Seq::<Seq<char>>::empty(), sep@));
        assert(r@ =~= join_seqs(views_of(parts@), sep@));
    }
    r
}

/// The tail of a join: each remaining element is preceded by the separator.
pub open spec fn join_seqs_tail(ws: Seq<Seq<char>>, sep: Seq<char>) -> Seq<char>
    decreases ws.len(),
{
    if ws.len() == 0 {
        Seq::empty()
    } else {
        sep + ws[0] + join_seqs_tail(ws.drop_first(), sep)
    }
}

/// Relates the head-form and tail-form of a join.
pub proof fn lemma_join_head_tail(ws: Seq<Seq<char>>, sep: Seq<char>)
    requires
        ws.len() > 0,
    ensures
        join_seqs(ws, sep) == ws[0] + join_seqs_tail(ws.drop_first(), sep),
    decreases ws.len(),
{
    if ws.len() == 1 {
        assert(join_seqs_tail(ws.drop_first(), sep) =~= Seq::<char>::empty());
        assert(ws[0] + Seq::<char>::empty() =~= ws[0]);
    } else {
        lemma_join_head_tail(ws.drop_first(), sep);
        assert(ws.drop_first()[0] == ws[1]);
        assert(ws[0] + sep + join_seqs(ws.drop_first(), sep)
            =~= ws[0] + (sep + ws.drop_first()[0] + join_seqs_tail(ws.drop_first().drop_first(), sep)));
    }
}

/// A line after cleaning: its surviving words joined by single spaces.
pub open spec fn clean_line(l: Seq<char>) -> Seq<char> {
    join_seqs(kept_words(words_from(l, 0)), seq![' '])
}

/// The cleaned text when it is under the word budget: each surviving line
/// cleaned and terminated by a newline.
pub open spec fn cleaned_body(ls: Seq<Seq<char>>) -> Seq<char>
    decreases ls.len(),
{
    if ls.len() == 0 {
        Seq::empty()
    } else {
        clean_line(ls[0]) + seq!['\n'] + cleaned_body(ls.drop_first())
    }
}

/// All surviving words of the surviving lines, in order.
pub open spec fn clean_words_of(ls: Seq<Seq<char>>) -> Seq<Seq<char>>
    decreases ls.len(),
{
    if ls.len() == 0 {
        Seq::empty()
    } else {
        kept_words(words_from(ls[0], 0)) + clean_words_of(ls.drop_first())
    }
}

/// Head/tail retention: the first `floor(max * split_pct / 100)` elements and
/// the last `max - that` elements; the middle span is discarded.
pub open spec fn head_tail(ws: Seq<Seq<char>>, max: int, split_pct: int) -> Seq<Seq<char>> {
    let h = (max * split_pct) / 100;
    let t = max - h;
    ws.take(h) + ws.skip(ws.len() - t)
}

/// What `squeeze_fit_remove_quoted` returns: fenced blocks and overlong
/// words dropped; if the surviving word count exceeds the budget, only a
/// head slice and a tail slice of the words are kept, joined by spaces.
pub open spec fn squeeze_remove_quoted_spec(s: Seq<char>, max_words: int, split_pct: int) -> Seq<
    char,
> {
    let kl = kept_lines(lines_from(s, 0), false);
    let ws = clean_words_of(kl);
    if ws.len() <= max_words {
        cleaned_body(kl)
    } else {
        join_seqs(head_tail(ws, max_words, split_pct), seq![' '])
    }
}

/// Keeps the first `floor(max_words * split_pct / 100)` words and the last
/// `max_words - that` words of an over-budget word list.
pub fn select_head_tail(ws: &Vec<String>, max_words: u16, split_pct: u16) -> (out: Vec<String>)
    requires
        split_pct <= 100,
        ws@.len() > max_words as int,
    ensures
        views_of(out@) == head_tail(views_of(ws@), max_words as int, split_pct as int),
{
    proof {
        assert(max_words as int * split_pct as int <= 65535int * 100int) by (nonlinear_arith)
            requires
                0 <= max_words as int <= 65535,
                0 <= split_pct as int <= 100,
        ;
    }
    let prod: u32 = max_words as u32 * split_pct as u32;
    let h32: u32 = prod / 100;
    proof {
        assert((max_words as int * split_pct as int) / 100 <= max_words as int) by (nonlinear_arith)
            requires
                0 <= split_pct as int <= 100,
                0 <= max_words as int,
        ;
    }
    let h: usize = h32 as usize;
    let t: usize = max_words as usize - h;
    let n = ws.len();
    let mut out: Vec<String> = Vec::new();
    let mut i: usize = 0;
    while i < h
        invariant
            h <= max_words < n == ws@.len(),
            i <= h,
            views_of(out@) == views_of(ws@).subrange(0, i as int),
        decreases h - i,
    {
        let ghost old_out = out@;
        out.push(ws[i].clone());
        proof {
            assert(views_of(out@) =~= views_of(old_out).push(ws@[i as int]@));
            assert(views_of(out@) =~= views_of(ws@).subrange(0, i as int + 1));
        }
        i = i + 1;
    }
    let mut k: usize = n - t;
    while k < n
        invariant
            h + t <= max_words < n == ws@.len(),
            n - t <= k <= n,
            views_of(out@) == views_of(ws@).subrange(0, h as int) + views_of(ws@).subrange(
                n as int - t as int,
                k as int,
            ),
        decreases n - k,
    {
        let ghost old_out = out@;
        out.push(ws[k].clone());
        proof {
            assert(views_of(out@) =~= views_of(old_out).push(ws@[k as int]@));
            assert(views_of(out@) =~= views_of(ws@).subrange(0, h as int) + views_of(ws@).subrange(
                n as int - t as int,
                k as int + 1,
            ));
        }
        k = k + 1;
    }
    proof {
        assert(views_of(ws@).subrange(0, h as int) =~= views_of(ws@).take(h as int));
        assert(views_of(ws@).subrange(n as int - t as int, n as int) =~= views_of(ws@).skip(
            n as int - t as int,
        ));
    }
    out
}

/// Character-level head/tail retention: text over `head + tail` characters
/// keeps its first `head` and last `tail` characters; shorter text is
/// unchanged.
pub open spec fn head_tail_chars_spec(s: Seq<char>, head: int, tail: int) -> Seq<char> {
    if s.len() > head + tail {
        s.take(head) + s.skip(s.len() - tail)
    } else {
        s
    }
}

/// Keeps the first `head` and last `tail` characters of an over-long text.
pub fn truncate_head_tail_chars(s: &str, head: usize, tail: usize) -> (r: String)
    requires
        head + tail <= usize::MAX,
    ensures
        r@ == head_tail_chars_spec(s@, head as int, tail as int),
{
    let n = s.unicode_len();
    if n > head && n - head > tail {
        let mut r = s.substring_char(0, head).to_owned();
        r.append(s.substring_char(n - tail, n));
        proof {
            assert(s@.subrange(0, head as int) =~= s@.take(head as int));
            assert(s@.subrange(n as int - tail as int, n as int) =~= s@.skip(
                n as int - tail as int,
            ));
        }
        r
    } else {
        s.to_owned()
    }
}

/// Lossy, bounded-size text reduction.  Lines inside (or marking) fenced
/// blocks are dropped, words of 150 or more characters are dropped, and if
/// more than `max_len` words survive, only the first
/// `floor(max_len * split_pct / 100)` and the last remaining budgeted words
/// are kept.  `split_pct` is the head share of the budget in percent.
pub fn squeeze_fit_remove_quoted(inp_str: &str, max_len: u16, split_pct: u16) -> (r: String)
    requires
        split_pct <= 100,
    ensures
        r@ == squeeze_remove_quoted_spec(inp_str@, max_len as int, split_pct as int),
{
    let lines = split_lines(inp_str);
    let kept = filter_fenced_lines(lines);
    let ghost kl = views_of(kept@);
    let mut all_words: Vec<String> = Vec::new();
    let mut body = String::new();
    let n = kept.len();
    let mut i: usize = 0;
    proof {
        assert(kl.skip(0) =~= kl);
        assert(views_of(all_words@) + clean_words_of(kl) =~= clean_words_of(kl));
        assert(body@ + cleaned_body(kl) =~= cleaned_body(kl));
    }
    while i < n
        invariant
            n == kept@.len(),
            kl == views_of(kept@),
            i <= n,
            clean_words_of(kl) == views_of(all_words@) + clean_words_of(kl.skip(i as int)),
            cleaned_body(kl) == body@ + cleaned_body(kl.skip(i as int)),
        decreases n - i,
    {
        let ghost suffix = kl.skip(i as int);
        let ghost body0 = body@;
        let ghost words0 = views_of(all_words@);
        proof {
            assert(suffix[0] == kept@[i as int]@);
            assert(suffix.drop_first() =~= kl.skip(i as int + 1));
        }
        let mut line_words = filter_long_words(split_words(kept[i].as_str()));
        let cl = join_with(&line_words, " ");
        body.append(cl.as_str());
        body.append("\n");
        all_words.append(&mut line_words);
        proof {
            reveal_strlit(" ");
            reveal_strlit("\n");
            assert(" "@ =~= seq![' ']);
            assert("\n"@ =~= seq!['\n']);
            assert(cl@ == clean_line(suffix[0]));
            assert(body@ + cleaned_body(kl.skip(i as int + 1)) =~= body0 + cleaned_body(suffix));
            assert(views_of(all_words@) =~= words0 + kept_words(words_from(suffix[0], 0)));
            assert(views_of(all_words@) + clean_words_of(kl.skip(i as int + 1)) =~= words0
                + clean_words_of(suffix));
        }
        i = i + 1;
    }
    proof {
        assert(kl.skip(n as int) =~= Seq::<Seq<char>>::empty());
        assert(cleaned_body(kl) =~= body@);
        assert(clean_words_of(kl) =~= views_of(all_words@));
    }
    if all_words.len() <= max_len as usize {
        body
    } else {
        let picked = select_head_tail(&all_words, max_len, split_pct);
        let r = join_with(&picked, " ");
        proof {
            reveal_strlit(" ");
            assert(" "@ =~= seq![' ']);
        }
        r
    }
}

} // verus!

