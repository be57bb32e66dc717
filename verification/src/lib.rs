//! Token- and character-budgeted text preparation for staged text generation,
//! plus the aggregation and report-assembly pipeline around it.

pub mod aggregate;
pub mod budget;
pub mod chain;
pub mod github_types;
pub mod laws;
pub mod profile;
pub mod prompts;
pub mod readme;
pub mod records;
pub mod report;
pub mod squeeze;
pub mod summary;
pub mod tokens;

use vstd::prelude::*;

verus! {

/// Output-length caps for the two generation stages under the tiered
/// policy: few items get small caps, a moderate number medium caps, and
/// fifteen or more items large caps.
pub open spec fn output_caps_spec(n_items: int) -> (u16, u16) {
    if n_items <= 3 {
        (384u16, 96u16)
    } else if n_items <= 14 {
        (512u16, 350u16)
    } else {
        (1024u16, 500u16)
    }
}

/// Output-length caps for the two generation stages, scaled with the number
/// of input items: richer evidence justifies longer generated analysis,
/// bounded to control cost.
pub fn output_caps(n_items: usize) -> (caps: (u16, u16))
    ensures
        caps == output_caps_spec(n_items as int),
{
    if n_items <= 3 {
        (384, 96)
    } else if n_items <= 14 {
        (512, 350)
    } else {
        (1024, 500)
    }
}

} // verus!
