//! Decoding a fetched readme: the API hands the file as newline-broken
//! base64; the newlines are stripped, the base64 decoded, and the bytes
//! read as UTF-8 under a fixed heading.

use vstd::prelude::*;
use vstd::string::StringExecFns;
use vstd::utf8::{encode_utf8, valid_utf8};
use crate::squeeze::{join_seqs, join_with, spec_lines, split_lines};

verus! {

/// What base64 decoding yields for a text: the decoded bytes, or `None`
/// when the text is not valid base64.  A function of the text alone.
pub uninterp spec fn base64_decoded_of(s: Seq<char>) -> Option<Seq<u8>>;

/// Relies on `base64::decode` with the standard alphabet: a deterministic
/// function of the text alone, failing exactly on text that is not valid
/// base64.
#[verifier::external_body]
fn decode_base64(s: &str) -> (r: Option<Vec<u8>>)
    ensures
        r is Some <==> base64_decoded_of(s@) is Some,
        r matches Some(v) ==> Some(v@) == base64_decoded_of(s@),
{
    base64::decode(s).ok()
}

/// Relies on `String::from_utf8`: succeeds exactly on valid UTF-8, and the
/// returned text encodes back to the given bytes.
#[verifier::external_body]
fn utf8_string(bytes: Vec<u8>) -> (r: Option<String>)
    ensures
        r is Some <==> valid_utf8(bytes@),
        r matches Some(s) ==> encode_utf8(s@) == bytes@,
{
    String::from_utf8(bytes).ok()
}

/// The base64 text with its line breaks removed.
pub open spec fn unbroken_base64(content: Seq<char>) -> Seq<char> {
    join_seqs(spec_lines(content), Seq::empty())
}

/// What `readme_from_content` returns: `None` when the newline-stripped
/// content is not valid base64 or does not decode to UTF-8; otherwise the
/// decoded text under the fixed heading.
pub open spec fn readme_result(content: Seq<char>, r: Option<Seq<char>>) -> bool {
    match base64_decoded_of(unbroken_base64(content)) {
        None => r is None,
        Some(bytes) => {
            match r {
                None => !valid_utf8(bytes),
                Some(text) => valid_utf8(bytes) && exists|body: Seq<char>|
                    #[trigger] encode_utf8(body) == bytes && text == "Readme: "@ + body,
            }
        },
    }
}

/// Decodes a fetched readme's newline-broken base64 content into display
/// text under the "Readme: " heading.
pub fn readme_from_content(content: &str) -> (r: Option<String>)
    ensures
        readme_result(content@, match r {
            Some(s) => Some(s@),
            None => None,
        }),
{
    let lines = split_lines(content);
    let cleaned = join_with(&lines, "");
    proof {
        reveal_strlit("");
        assert(""@ =~= Seq::<char>::empty());
    }
    let bytes = match decode_base64(cleaned.as_str()) {
        Some(b) => b,
        None => {
            return None;
        },
    };
    let ghost bytes_view = bytes@;
    let text = match utf8_string(bytes) {
        Some(t) => t,
        None => {
            return None;
        },
    };
    let mut out = String::new();
    out.append("Readme: ");
    out.append(text.as_str());
    proof {
        assert(out@ =~= "Readme: "@ + text@);
        assert(encode_utf8(text@) == bytes_view);
    }
    Some(out)
}

} // verus!
