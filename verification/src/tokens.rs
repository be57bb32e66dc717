//! Token-budgeted text reduction, measured in language-model token units
//! from the `cl100k_base` tokenizer.

use vstd::prelude::*;
use vstd::string::StringExecFns;

verus! {

/// The `cl100k_base` token sequence of a text.  The tokenizer is built from
/// data fixed at compile time, so the tokens depend on the text alone.
pub uninterp spec fn cl100k_tokens_of(s: Seq<char>) -> Seq<u32>;

/// The text a `cl100k_base` token sequence decodes to, or `None` if the
/// tokens do not decode to valid UTF-8.  Decoding depends on the tokens
/// alone.
pub uninterp spec fn cl100k_decoded_of(ts: Seq<u32>) -> Option<Seq<char>>;

/// Relies on `tiktoken_rs::cl100k_base_singleton` and
/// `CoreBPE::encode_ordinary`: both are deterministic functions of the
/// encoder data embedded at compile time and the text, so the result names
/// `cl100k_tokens_of`.  The singleton's one-time construction fails only if
/// that embedded data cannot be parsed, which no input can influence.
#[verifier::external_body]
fn cl100k_encode(s: &str) -> (r: Vec<u32>)
    ensures
        r@ == cl100k_tokens_of(s@),
{
    tiktoken_rs::cl100k_base_singleton().encode_ordinary(s)
}

/// Relies on `tiktoken_rs::cl100k_base_singleton` and `CoreBPE::decode`:
/// decoding is a deterministic function of the decoder data embedded at
/// compile time and the tokens; it fails exactly when a token is unknown or
/// the bytes behind the tokens are not valid UTF-8, which depends on the
/// tokens alone.
#[verifier::external_body]
fn cl100k_decode(tokens: &Vec<u32>) -> (r: Option<String>)
    ensures
        r is Some <==> cl100k_decoded_of(tokens@) is Some,
        r matches Some(s) ==> Some(s@) == cl100k_decoded_of(tokens@),
{
    tiktoken_rs::cl100k_base_singleton().decode(tokens.as_slice()).ok()
}

/// Counts the `cl100k_base` tokens of a text.
pub fn cl100k_token_count(s: &str) -> (r: usize)
    ensures
        r == cl100k_tokens_of(s@).len(),
{
    let v = cl100k_encode(s);
    v.len()
}

/// Ceiling division by 100.
pub open spec fn ceil_div_100(a: int) -> int {
    (a + 99) / 100
}

/// The tokens kept from an over-budget token sequence: a head of
/// `ceil(len * split_pct / 100)` tokens, clamped to the budget, and the
/// remaining budget taken from the tail.  The clamp keeps the tail size from
/// going negative when the head share alone exceeds the budget.
pub open spec fn selected_tokens(ts: Seq<u32>, max: int, split_pct: int) -> Seq<u32> {
    let h0 = ceil_div_100(ts.len() * split_pct);
    let h = if h0 <= max {
        h0
    } else {
        max
    };
    let t = max - h;
    ts.take(h) + ts.skip(ts.len() - t)
}

/// Keeps a head slice and a tail slice of an over-budget token sequence;
/// exactly `max_len` tokens survive.
pub fn select_head_tail_tokens(tokens: &Vec<u32>, max_len: u16, split_pct: u16) -> (out: Vec<u32>)
    requires
        split_pct <= 100,
        tokens@.len() >= max_len as int,
    ensures
        out@ == selected_tokens(tokens@, max_len as int, split_pct as int),
        out@.len() == max_len as int,
{
    let n = tokens.len();
    proof {
        assert(n as int * split_pct as int <= n as int * 100) by (nonlinear_arith)
            requires
                0 <= split_pct as int <= 100,
                0 <= n as int,
        ;
    }
    let prod: u128 = n as u128 * split_pct as u128;
    let h0big: u128 = (prod + 99) / 100;
    proof {
        assert((n as int * 100 + 99) / 100 == n as int);
        assert(h0big as int <= n as int);
    }
    let h: usize = if h0big <= max_len as u128 {
        h0big as usize
    } else {
        max_len as usize
    };
    let t: usize = max_len as usize - h;
    let mut out: Vec<u32> = Vec::new();
    let mut i: usize = 0;
    while i < h
        invariant
            h <= max_len <= n == tokens@.len(),
            i <= h,
            out@ == tokens@.subrange(0, i as int),
        decreases h - i,
    {
        out.push(tokens[i]);
        proof {
            assert(out@ =~= tokens@.subrange(0, i as int + 1));
        }
        i = i + 1;
    }
    let mut k: usize = n - t;
    while k < n
        invariant
            h + t <= max_len <= n == tokens@.len(),
            n - t <= k <= n,
            out@ == tokens@.subrange(0, h as int) + tokens@.subrange(n as int - t as int, k as int),
        decreases n - k,
    {
        out.push(tokens[k]);
        proof {
            assert(out@ =~= tokens@.subrange(0, h as int) + tokens@.subrange(
                n as int - t as int,
                k as int + 1,
            ));
        }
        k = k + 1;
    }
    proof {
        assert(tokens@.subrange(0, h as int) =~= tokens@.take(h as int));
        assert(tokens@.subrange(n as int - t as int, n as int) =~= tokens@.skip(
            n as int - t as int,
        ));
    }
    out
}

/// What `squeeze_fit_post_texts` may return.  Under the budget the text is
/// returned unchanged.  Over the budget, the result decodes the selected
/// head and tail tokens; a fixed sentence stands in when the selection does
/// not decode.
pub open spec fn post_texts_result(s: Seq<char>, max: int, split_pct: int, r: Seq<char>) -> bool {
    if cl100k_tokens_of(s).len() < max {
        r == s
    } else {
        let sel = selected_tokens(cl100k_tokens_of(s), max, split_pct);
        (cl100k_decoded_of(sel) matches Some(d) && r == d) || (cl100k_decoded_of(sel) is None && r
            == "failed to decode tokens"@)
    }
}

/// Head/tail text reduction measured in `cl100k_base` tokens: text under
/// `max_len` tokens is returned unchanged; otherwise the head share of the
/// budget (per `split_pct`) and the balance from the tail are kept and
/// decoded back to text.
pub fn squeeze_fit_post_texts(inp_str: &str, max_len: u16, split_pct: u16) -> (r: String)
    requires
        split_pct <= 100,
    ensures
        post_texts_result(inp_str@, max_len as int, split_pct as int, r@),
{
    let tokens = cl100k_encode(inp_str);
    if tokens.len() < max_len as usize {
        inp_str.to_owned()
    } else {
        let sel = select_head_tail_tokens(&tokens, max_len, split_pct);
        match cl100k_decode(&sel) {
            Some(out) => out,
            None => "failed to decode tokens".to_owned(),
        }
    }
}

} // verus!
