//! Extracting the flat key-value summary from generated text.  A strict
//! JSON parse is attempted first; when the text is not valid JSON, a
//! tolerant scanner looks for `"key": "value"` shapes instead, so one
//! malformed response does not cost the whole section.

use vstd::prelude::*;
use vstd::string::StrSliceExecFns;
use vstd::string::StringExecFns;
use crate::squeeze::{find_char_from, lemma_find_char_from, is_space_char, is_space_char_exec};

verus! {

/// For a text `s` and a key: `None` when `s` is not valid JSON; otherwise
/// `Some` of the key's string value if the parsed document has that field
/// with a string value, and `Some(None)` when the field is missing,
/// non-string, or nested.  Parsing is a function of the text alone.
pub uninterp spec fn flat_string_field(s: Seq<char>, key: Seq<char>) -> Option<Option<Seq<char>>>;

/// The view of an optional owned string.
pub open spec fn opt_str_view(o: Option<String>) -> Option<Seq<char>> {
    match o {
        Some(s) => Some(s@),
        None => None,
    }
}

/// Relies on `serde_json::from_str::<Value>`, `Value::get` and
/// `Value::as_str`: all are deterministic functions of the text and the key,
/// so the outcome names `flat_string_field`.  `get` on a non-object yields
/// `None`, and `as_str` yields `None` for any non-string value, which is the
/// missing/non-string/nested case above.
#[verifier::external_body]
fn json_string_field(s: &str, key: &str) -> (r: Result<Option<String>, ()>)
    ensures
        r is Ok <==> flat_string_field(s@, key@) is Some,
        r matches Ok(f) ==> flat_string_field(s@, key@) == Some(opt_str_view(f)),
{
    match serde_json::from_str::<serde_json::Value>(s) {
        Ok(v) => Ok(v.get(key).and_then(|x| x.as_str()).map(|x| x.to_string())),
        Err(_) => Err(()),
    }
}

/// Errors of summary extraction.
#[derive(Clone, Copy, PartialEq, Eq, Structural, Debug)]
pub enum SummaryError {
    /// The text is not valid JSON (strict extraction only).
    InvalidJson,
    /// Neither strict nor tolerant extraction recognized any field.
    NoRecognizedFields,
}

/// Appending an optional value to accumulated text: present values are
/// separated by one space, except that nothing precedes them while the
/// accumulated text is still empty.
pub open spec fn flat_join_step(acc: Seq<char>, v: Option<Seq<char>>) -> Seq<char> {
    match v {
        None => acc,
        Some(x) => if acc.len() == 0 {
            x
        } else {
            acc + seq![' '] + x
        },
    }
}

/// The present values joined with single spaces, in order.
pub open spec fn flat_join(vs: Seq<Option<Seq<char>>>) -> Seq<char>
    decreases vs.len(),
{
    if vs.len() == 0 {
        Seq::empty()
    } else {
        flat_join_step(flat_join(vs.drop_last()), vs.last())
    }
}

fn flat_join_push(out: &mut String, v: Option<&String>)
    ensures
        final(out)@ == flat_join_step(
            old(out)@,
            match v {
                Some(s) => Some(s@),
                None => None,
            },
        ),
{
    match v {
        Some(s) => {
            if !out.as_str().is_empty() {
                out.append(" ");
                proof {
                    reveal_strlit(" ");
                    assert(" "@ =~= seq![' ']);
                }
            }
            out.append(s.as_str());
            proof {
                if old(out)@.len() == 0 {
                    assert(out@ =~= s@);
                }
            }
        },
        None => {},
    }
}

/// The string field for `key` when the strict parse succeeded.
pub open spec fn summary_field(s: Seq<char>, key: Seq<char>) -> Option<Seq<char>> {
    match flat_string_field(s, key) {
        Some(f) => f,
        None => None,
    }
}

/// The fixed, ordered key set's strict field values.
pub open spec fn strict_fields(s: Seq<char>) -> Seq<Option<Seq<char>>> {
    seq![
        summary_field(s, "impactful"@),
        summary_field(s, "alignment"@),
        summary_field(s, "patterns"@),
        summary_field(s, "synergy"@),
        summary_field(s, "significance"@),
    ]
}

/// Whether the strict parse succeeds for every key lookup.
pub open spec fn strict_parse_ok(s: Seq<char>) -> bool {
    &&& flat_string_field(s, "impactful"@) is Some
    &&& flat_string_field(s, "alignment"@) is Some
    &&& flat_string_field(s, "patterns"@) is Some
    &&& flat_string_field(s, "synergy"@) is Some
    &&& flat_string_field(s, "significance"@) is Some
}

/// Strict extraction: parses the text as JSON and concatenates the string
/// values of the fixed keys, in order, separated by single spaces; absent or
/// non-string fields contribute nothing.  Fails exactly when the text is not
/// valid JSON.
pub fn parse_summary_from_raw_json(input: &str) -> (r: Result<String, SummaryError>)
    ensures
        r is Ok <==> strict_parse_ok(input@),
        r matches Ok(out) ==> out@ == flat_join(strict_fields(input@)),
        r matches Err(e) ==> e == SummaryError::InvalidJson,
{
    let f1 = json_string_field(input, "impactful");
    let f2 = json_string_field(input, "alignment");
    let f3 = json_string_field(input, "patterns");
    let f4 = json_string_field(input, "synergy");
    let f5 = json_string_field(input, "significance");
    match (f1, f2, f3, f4, f5) {
        (Ok(v1), Ok(v2), Ok(v3), Ok(v4), Ok(v5)) => {
            let mut out = String::new();
            let ghost fs = strict_fields(input@);
            flat_join_push(&mut out, v1.as_ref());
            proof {
                assert(flat_join(Seq::<Option<Seq<char>>>::empty()) == Seq::<char>::empty());
                assert(seq![fs[0]].drop_last() =~= Seq::<Option<Seq<char>>>::empty());
                assert(out@ == flat_join(seq![fs[0]]));
            }
            flat_join_push(&mut out, v2.as_ref());
            proof {
                assert(seq![fs[0], fs[1]].drop_last() =~= seq![fs[0]]);
                assert(out@ == flat_join(seq![fs[0], fs[1]]));
            }
            flat_join_push(&mut out, v3.as_ref());
            proof {
                assert(seq![fs[0], fs[1], fs[2]].drop_last() =~= seq![fs[0], fs[1]]);
                assert(out@ == flat_join(seq![fs[0], fs[1], fs[2]]));
            }
            flat_join_push(&mut out, v4.as_ref());
            proof {
                assert(seq![fs[0], fs[1], fs[2], fs[3]].drop_last() =~= seq![fs[0], fs[1], fs[2]]);
                assert(out@ == flat_join(seq![fs[0], fs[1], fs[2], fs[3]]));
            }
            flat_join_push(&mut out, v5.as_ref());
            proof {
                assert(fs =~= seq![fs[0], fs[1], fs[2], fs[3], fs[4]]);
                assert(fs.drop_last() =~= seq![fs[0], fs[1], fs[2], fs[3]]);
                assert(out@ == flat_join(fs));
            }
            Ok(out)
        },
        _ => Err(SummaryError::InvalidJson),
    }
}

/// The key/value entries of a flat JSON object, in the parser's (key-sorted)
/// order: `None` when the text is not valid JSON or not an object; an entry
/// whose value is not a string carries `None`.  A function of the text
/// alone.
pub uninterp spec fn flat_object_entries(s: Seq<char>) -> Option<
    Seq<(Seq<char>, Option<Seq<char>>)>,
>;

/// Relies on `serde_json::from_str::<Value>`, `Value::as_object` and the
/// object map's iteration: serde_json's default object map is ordered by
/// key, so the entries are a deterministic function of the text alone.
#[verifier::external_body]
fn json_object_entries(s: &str) -> (r: Result<Vec<(String, Option<String>)>, ()>)
    ensures
        r is Ok <==> flat_object_entries(s@) is Some,
        r matches Ok(es) ==> flat_object_entries(s@) == Some(
            es@.map_values(|e: (String, Option<String>)| (e.0@, opt_str_view(e.1))),
        ),
{
    let v: serde_json::Value = match serde_json::from_str(s) {
        Ok(v) => v,
        Err(_) => return Err(()),
    };
    match v.as_object() {
        None => Err(()),
        Some(m) => Ok(
            m.iter().map(|(k, x)| (k.clone(), x.as_str().map(|t| t.to_string()))).collect(),
        ),
    }
}

/// The entries whose values are strings, in order.
pub open spec fn string_entries(es: Seq<(Seq<char>, Option<Seq<char>>)>) -> Seq<
    (Seq<char>, Seq<char>),
>
    decreases es.len(),
{
    if es.len() == 0 {
        Seq::empty()
    } else {
        let rest = string_entries(es.drop_first());
        match es[0].1 {
            Some(v) => seq![(es[0].0, v)] + rest,
            None => rest,
        }
    }
}

/// The views of owned string pairs.
pub open spec fn pair_views(v: Seq<(String, String)>) -> Seq<(Seq<char>, Seq<char>)> {
    v.map_values(|p: (String, String)| (p.0@, p.1@))
}

/// Parses a generated per-issue analysis: a flat JSON object mapping each
/// contributor's name to their summary.  Entries with non-string values are
/// ignored; `None` when the text is not a flat JSON object at all.
pub fn issue_contributor_summaries(input: &str) -> (r: Option<Vec<(String, String)>>)
    ensures
        r is Some <==> flat_object_entries(input@) is Some,
        r matches Some(v) ==> pair_views(v@) == string_entries(
            flat_object_entries(input@)->0,
        ),
{
    let entries = match json_object_entries(input) {
        Err(_) => {
            return None;
        },
        Ok(es) => es,
    };
    let ghost evs = entries@.map_values(
        |e: (String, Option<String>)| (e.0@, opt_str_view(e.1)),
    );
    let mut out: Vec<(String, String)> = Vec::new();
    let n = entries.len();
    let mut i: usize = 0;
    proof {
        assert(evs.skip(0) =~= evs);
        assert(pair_views(out@) + string_entries(evs) =~= string_entries(evs));
    }
    while i < n
        invariant
            n == entries@.len(),
            i <= n,
            evs == entries@.map_values(
                |e: (String, Option<String>)| (e.0@, opt_str_view(e.1)),
            ),
            string_entries(evs) == pair_views(out@) + string_entries(evs.skip(i as int)),
        decreases n - i,
    {
        let ghost suffix = evs.skip(i as int);
        proof {
            assert(suffix[0] == evs[i as int]);
            assert(suffix.drop_first() =~= evs.skip(i as int + 1));
        }
        match &entries[i].1 {
            Some(v) => {
                let ghost old_out = out@;
                out.push((entries[i].0.clone(), v.clone()));
                proof {
                    assert(pair_views(out@) =~= pair_views(old_out).push(
                        (entries@[i as int].0@, v@),
                    ));
                    assert(pair_views(out@) + string_entries(evs.skip(i as int + 1)) =~= pair_views(
                        old_out,
                    ) + string_entries(suffix));
                }
            },
            None => {},
        }
        i = i + 1;
    }
    proof {
        assert(evs.skip(n as int) =~= Seq::<(Seq<char>, Option<Seq<char>>)>::empty());
        assert(string_entries(evs) =~= pair_views(out@));
    }
    Some(out)
}

/// Index of the first occurrence of `p` in `s` at or after `pos`, or
/// `s.len()` if there is none.
pub open spec fn find_sub_from(s: Seq<char>, p: Seq<char>, pos: int) -> int
    decreases s.len() - pos,
    when 0 <= pos <= s.len() && p.len() > 0
{
    if pos + p.len() > s.len() {
        s.len() as int
    } else if s.subrange(pos, pos + p.len()) == p {
        pos
    } else {
        find_sub_from(s, p, pos + 1)
    }
}

pub proof fn lemma_find_sub_from(s: Seq<char>, p: Seq<char>, pos: int)
    requires
        0 <= pos <= s.len(),
        p.len() > 0,
    ensures
        pos <= find_sub_from(s, p, pos) <= s.len(),
        find_sub_from(s, p, pos) < s.len() ==> find_sub_from(s, p, pos) + p.len() <= s.len()
            && s.subrange(find_sub_from(s, p, pos), find_sub_from(s, p, pos) + p.len()) == p,
    decreases s.len() - pos,
{
    if pos + p.len() > s.len() {
    } else if s.subrange(pos, pos + p.len()) == p {
    } else {
        lemma_find_sub_from(s, p, pos + 1);
    }
}

/// Index of the first non-separator character at or after `pos`, or
/// `s.len()` if there is none.
pub open spec fn find_non_space_from(s: Seq<char>, pos: int) -> int
    decreases s.len() - pos,
    when 0 <= pos <= s.len()
{
    if pos >= s.len() {
        s.len() as int
    } else if is_space_char(s[pos]) {
        find_non_space_from(s, pos + 1)
    } else {
        pos
    }
}

/// Whether `p` occurs in `s` starting at `q`.
fn matches_at_exec(s: &str, n: usize, p: &str, m: usize, q: usize) -> (r: bool)
    requires
        n == s@.len(),
        m == p@.len(),
        q + m <= n,
    ensures
        r == (s@.subrange(q as int, q as int + m as int) == p@),
{
    let mut t: usize = 0;
    while t < m
        invariant
            n == s@.len(),
            m == p@.len(),
            q + m <= n,
            t <= m,
            forall|u: int| 0 <= u < t ==> s@[q + u] == p@[u],
        decreases m - t,
    {
        if s.get_char(q + t) != p.get_char(t) {
            proof {
                assert(s@.subrange(q as int, q as int + m as int)[t as int] == s@[q + t as int]);
            }
            return false;
        }
        t = t + 1;
    }
    proof {
        assert(s@.subrange(q as int, q as int + m as int) =~= p@);
    }
    true
}

/// Finds the first occurrence of `p` in `s` at or after `pos`.
fn find_sub_from_exec(s: &str, p: &str, pos: usize) -> (r: usize)
    requires
        pos <= s@.len(),
        p@.len() > 0,
    ensures
        r as int == find_sub_from(s@, p@, pos as int),
{
    let n = s.unicode_len();
    let m = p.unicode_len();
    if m > n || pos > n - m {
        proof {
            lemma_sub_not_found(s@, p@, pos as int);
        }
        return n;
    }
    let mut q: usize = pos;
    while q <= n - m
        invariant
            n == s@.len(),
            m == p@.len(),
            0 < m <= n,
            pos <= q <= n - m + 1,
            find_sub_from(s@, p@, pos as int) == find_sub_from(s@, p@, q as int),
        decreases n - q,
    {
        if matches_at_exec(s, n, p, m, q) {
            return q;
        }
        q = q + 1;
    }
    proof {
        lemma_sub_not_found(s@, p@, q as int);
    }
    n
}

/// Past the last possible start there is no occurrence.
proof fn lemma_sub_not_found(s: Seq<char>, p: Seq<char>, pos: int)
    requires
        0 <= pos <= s.len(),
        p.len() > 0,
        pos + p.len() > s.len(),
    ensures
        find_sub_from(s, p, pos) == s.len(),
{
}

/// Finds the first non-separator character at or after `pos`.
fn find_non_space_from_exec(s: &str, pos: usize) -> (r: usize)
    requires
        pos <= s@.len(),
    ensures
        r as int == find_non_space_from(s@, pos as int),
        pos <= r <= s@.len(),
        r < s@.len() ==> !is_space_char(s@[r as int]),
{
    let n = s.unicode_len();
    let mut j: usize = pos;
    while j < n && is_space_char_exec(s.get_char(j))
        invariant
            n == s@.len(),
            pos <= j <= n,
            find_non_space_from(s@, pos as int) == find_non_space_from(s@, j as int),
        decreases n - j,
    {
        j = j + 1;
    }
    j
}

/// Finds the first occurrence of `target` at or after `pos`.
fn find_char_from_exec(s: &str, pos: usize, target: char) -> (r: usize)
    requires
        pos <= s@.len(),
    ensures
        r as int == find_char_from(s@, pos as int, target),
        pos <= r <= s@.len(),
{
    let n = s.unicode_len();
    let mut j: usize = pos;
    while j < n && !(s.get_char(j) == target)
        invariant
            n == s@.len(),
            pos <= j <= n,
            find_char_from(s@, pos as int, target) == find_char_from(s@, j as int, target),
        decreases n - j,
    {
        j = j + 1;
    }
    j
}

/// Tolerant extraction of one field: the first occurrence of the quoted key,
/// followed by optional whitespace, a colon, optional whitespace and a
/// quoted value; the value runs to the next double quote.  `None` when the
/// text has no such shape for this key.
pub open spec fn loose_field(s: Seq<char>, key: Seq<char>) -> Option<Seq<char>> {
    let p = seq!['"'] + key + seq!['"'];
    let i = find_sub_from(s, p, 0);
    if i >= s.len() {
        None
    } else {
        let j = find_non_space_from(s, i + p.len());
        if j < s.len() && s[j] == ':' {
            let k = find_non_space_from(s, j + 1);
            if k < s.len() && s[k] == '"' {
                let e = find_char_from(s, k + 1, '"');
                if e < s.len() {
                    Some(s.subrange(k + 1, e))
                } else {
                    None
                }
            } else {
                None
            }
        } else {
            None
        }
    }
}

/// Scans for one `"key": "value"` shape.
pub fn loose_field_exec(s: &str, key: &str) -> (r: Option<String>)
    ensures
        opt_str_view(r) == loose_field(s@, key@),
{
    let mut pat = String::new();
    pat.append("\"");
    pat.append(key);
    pat.append("\"");
    proof {
        reveal_strlit("\"");
        assert("\""@ =~= seq!['"']);
        assert(pat@ =~= seq!['"'] + key@ + seq!['"']);
    }
    let n = s.unicode_len();
    let i = find_sub_from_exec(s, pat.as_str(), 0);
    proof {
        lemma_find_sub_from(s@, pat@, 0);
    }
    if i >= n {
        return None;
    }
    let j = find_non_space_from_exec(s, i + pat.as_str().unicode_len());
    if j < n && s.get_char(j) == ':' {
        let k = find_non_space_from_exec(s, j + 1);
        if k < n && s.get_char(k) == '"' {
            let e = find_char_from_exec(s, k + 1, '"');
            proof {
                lemma_find_char_from(s@, k as int + 1, '"');
            }
            if e < n {
                return Some(s.substring_char(k + 1, e).to_owned());
            }
        }
    }
    None
}

/// The tolerant field values for the fixed keys, in order.
pub open spec fn loose_fields(s: Seq<char>) -> Seq<Option<Seq<char>>> {
    seq![
        loose_field(s, "impactful"@),
        loose_field(s, "alignment"@),
        loose_field(s, "patterns"@),
        loose_field(s, "synergy"@),
        loose_field(s, "significance"@),
    ]
}

/// Whether tolerant extraction recognizes at least one field.
pub open spec fn loose_any(s: Seq<char>) -> bool {
    ||| loose_field(s, "impactful"@) is Some
    ||| loose_field(s, "alignment"@) is Some
    ||| loose_field(s, "patterns"@) is Some
    ||| loose_field(s, "synergy"@) is Some
    ||| loose_field(s, "significance"@) is Some
}

/// Tolerant extraction over the fixed keys: the recognized values joined
/// with single spaces, or `None` when no field is recognized.
pub fn extract_summary_loose(input: &str) -> (r: Option<String>)
    ensures
        r is Some <==> loose_any(input@),
        r matches Some(out) ==> out@ == flat_join(loose_fields(input@)),
{
    let v1 = loose_field_exec(input, "impactful");
    let v2 = loose_field_exec(input, "alignment");
    let v3 = loose_field_exec(input, "patterns");
    let v4 = loose_field_exec(input, "synergy");
    let v5 = loose_field_exec(input, "significance");
    if v1.is_none() && v2.is_none() && v3.is_none() && v4.is_none() && v5.is_none() {
        return None;
    }
    let ghost fs = loose_fields(input@);
    let mut out = String::new();
    flat_join_push(&mut out, v1.as_ref());
    proof {
        assert(flat_join(Seq::<Option<Seq<char>>>::empty()) == Seq::<char>::empty());
        assert(seq![fs[0]].drop_last() =~= Seq::<Option<Seq<char>>>::empty());
        assert(out@ == flat_join(seq![fs[0]]));
    }
    flat_join_push(&mut out, v2.as_ref());
    proof {
        assert(seq![fs[0], fs[1]].drop_last() =~= seq![fs[0]]);
        assert(out@ == flat_join(seq![fs[0], fs[1]]));
    }
    flat_join_push(&mut out, v3.as_ref());
    proof {
        assert(seq![fs[0], fs[1], fs[2]].drop_last() =~= seq![fs[0], fs[1]]);
        assert(out@ == flat_join(seq![fs[0], fs[1], fs[2]]));
    }
    flat_join_push(&mut out, v4.as_ref());
    proof {
        assert(seq![fs[0], fs[1], fs[2], fs[3]].drop_last() =~= seq![fs[0], fs[1], fs[2]]);
        assert(out@ == flat_join(seq![fs[0], fs[1], fs[2], fs[3]]));
    }
    flat_join_push(&mut out, v5.as_ref());
    proof {
        assert(fs =~= seq![fs[0], fs[1], fs[2], fs[3], fs[4]]);
        assert(fs.drop_last() =~= seq![fs[0], fs[1], fs[2], fs[3]]);
        assert(out@ == flat_join(fs));
    }
    Some(out)
}

/// Two-tier extraction: strict JSON first; on invalid JSON the tolerant
/// scanner; an error only when neither recognizes anything.
pub fn summary_from_generated(input: &str) -> (r: Result<String, SummaryError>)
    ensures
        strict_parse_ok(input@) ==> (r matches Ok(out) && out@ == flat_join(
            strict_fields(input@),
        )),
        !strict_parse_ok(input@) && loose_any(input@) ==> (r matches Ok(out) && out@ == flat_join(
            loose_fields(input@),
        )),
        !strict_parse_ok(input@) && !loose_any(input@) ==> (r matches Err(e) && e
            == SummaryError::NoRecognizedFields),
{
    match parse_summary_from_raw_json(input) {
        Ok(out) => Ok(out),
        Err(_) => {
            match extract_summary_loose(input) {
                Some(out) => Ok(out),
                None => Err(SummaryError::NoRecognizedFields),
            }
        },
    }
}

} // verus!
