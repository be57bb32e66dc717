//! The two-stage, same-conversation generation protocol: stage one produces
//! a free-form analytical draft, stage two re-prompts the same conversation
//! to compress the draft into a flat key-value object.  Absence of content
//! at either stage fails the whole chain; no partial result is returned.
//!
//! The chain itself performs no I/O: it hands out the request to send next
//! and consumes the response, so the surrounding program drives the remote
//! calls.

use vstd::prelude::*;

verus! {

/// Who speaks in a conversation turn.
#[derive(Clone, Copy, PartialEq, Eq, Structural, Debug)]
pub enum ChatRole {
    System,
    User,
    Assistant,
}

/// One turn of the conversation sent to the generation service.
pub struct ChatTurn {
    pub role: ChatRole,
    pub content: String,
}

/// Spec-level image of a turn.
pub struct TurnView {
    pub role: ChatRole,
    pub content: Seq<char>,
}

impl View for ChatTurn {
    type V = TurnView;

    open spec fn view(&self) -> TurnView {
        TurnView { role: self.role, content: self.content@ }
    }
}

/// A request to the generation service: the conversation so far and the cap
/// on the generated output's length in tokens.
pub struct GenRequest {
    pub messages: Vec<ChatTurn>,
    pub max_tokens: u16,
}

/// Spec-level image of a request.
pub struct GenRequestView {
    pub messages: Seq<TurnView>,
    pub max_tokens: u16,
}

impl View for GenRequest {
    type V = GenRequestView;

    open spec fn view(&self) -> GenRequestView {
        GenRequestView {
            messages: self.messages@.map_values(|t: ChatTurn| t@),
            max_tokens: self.max_tokens,
        }
    }
}

/// Where the chain stands.
#[derive(Clone, Copy, PartialEq, Eq, Structural, Debug)]
pub enum ChainPhase {
    /// The first request has been handed out; its response is awaited.
    Stage1Pending,
    /// The second request has been handed out; its response is awaited.
    Stage2Pending,
    /// Both stages produced content; the result is available.
    Succeeded,
    /// A stage produced no content; the whole chain is failed.
    Failed,
}

/// Spec-level image of a chain.
pub struct ChainView {
    pub sys_prompt: Seq<char>,
    pub usr_prompt_1: Seq<char>,
    pub usr_prompt_2: Seq<char>,
    pub gen_len_1: u16,
    pub gen_len_2: u16,
    pub phase: ChainPhase,
    pub draft: Seq<char>,
    pub outcome: Seq<char>,
}

/// The two-stage generation chain.
pub struct PromptChain {
    pub sys_prompt: String,
    pub usr_prompt_1: String,
    pub usr_prompt_2: String,
    pub gen_len_1: u16,
    pub gen_len_2: u16,
    pub phase: ChainPhase,
    pub draft: String,
    pub outcome: String,
}

impl View for PromptChain {
    type V = ChainView;

    open spec fn view(&self) -> ChainView {
        ChainView {
            sys_prompt: self.sys_prompt@,
            usr_prompt_1: self.usr_prompt_1@,
            usr_prompt_2: self.usr_prompt_2@,
            gen_len_1: self.gen_len_1,
            gen_len_2: self.gen_len_2,
            phase: self.phase,
            draft: self.draft@,
            outcome: self.outcome@,
        }
    }
}

/// The conversation of the first request: the system prompt and the first
/// user prompt.
pub open spec fn stage1_messages(c: ChainView) -> Seq<TurnView> {
    seq![
        TurnView { role: ChatRole::System, content: c.sys_prompt },
        TurnView { role: ChatRole::User, content: c.usr_prompt_1 },
    ]
}

/// The conversation of the second request: the first conversation, the
/// assistant's draft, and the second user prompt appended.
pub open spec fn stage2_messages(c: ChainView) -> Seq<TurnView> {
    seq![
        TurnView { role: ChatRole::System, content: c.sys_prompt },
        TurnView { role: ChatRole::User, content: c.usr_prompt_1 },
        TurnView { role: ChatRole::Assistant, content: c.draft },
        TurnView { role: ChatRole::User, content: c.usr_prompt_2 },
    ]
}

/// The response handed back for a request: generated content, or `None` for
/// a service error or absent content.
pub open spec fn response_content(r: Option<Seq<char>>) -> Option<Seq<char>> {
    match r {
        Some(s) => if s.len() > 0 {
            Some(s)
        } else {
            None
        },
        None => None,
    }
}

/// The chain's transition function: from a state and the response to the
/// outstanding request, to the next state and the next request to send, if
/// any.  Non-empty stage-one content opens stage two; non-empty stage-two
/// content succeeds the chain; anything else fails it for good.
pub open spec fn chain_step(c: ChainView, resp: Option<Seq<char>>) -> (ChainView, Option<
    GenRequestView,
>) {
    match c.phase {
        ChainPhase::Stage1Pending => {
            match response_content(resp) {
                Some(content) => {
                    let c2 = ChainView { phase: ChainPhase::Stage2Pending, draft: content, ..c };
                    (
                        c2,
                        Some(
                            GenRequestView {
                                messages: stage2_messages(c2),
                                max_tokens: c.gen_len_2,
                            },
                        ),
                    )
                },
                None => (ChainView { phase: ChainPhase::Failed, ..c }, None),
            }
        },
        ChainPhase::Stage2Pending => {
            match response_content(resp) {
                Some(content) => (
                    ChainView { phase: ChainPhase::Succeeded, outcome: content, ..c },
                    None,
                ),
                None => (ChainView { phase: ChainPhase::Failed, ..c }, None),
            }
        },
        _ => (c, None),
    }
}

/// The chain's result: the stage-two content once it has succeeded.
pub open spec fn chain_result(c: ChainView) -> Option<Seq<char>> {
    if c.phase == ChainPhase::Succeeded {
        Some(c.outcome)
    } else {
        None
    }
}

/// The view of an optional response.
pub open spec fn opt_response_view(r: Option<String>) -> Option<Seq<char>> {
    match r {
        Some(s) => Some(s@),
        None => None,
    }
}

/// The view of an optional request.
pub open spec fn opt_request_view(r: Option<GenRequest>) -> Option<GenRequestView> {
    match r {
        Some(q) => Some(q@),
        None => None,
    }
}

impl PromptChain {
    /// Opens a chain awaiting its first response.
    pub fn new(
        sys_prompt: String,
        usr_prompt_1: String,
        usr_prompt_2: String,
        gen_len_1: u16,
        gen_len_2: u16,
    ) -> (c: PromptChain)
        ensures
            c@ == (ChainView {
                sys_prompt: sys_prompt@,
                usr_prompt_1: usr_prompt_1@,
                usr_prompt_2: usr_prompt_2@,
                gen_len_1: gen_len_1,
                gen_len_2: gen_len_2,
                phase: ChainPhase::Stage1Pending,
                draft: Seq::<char>::empty(),
                outcome: Seq::<char>::empty(),
            }),
    {
        let c = PromptChain {
            sys_prompt,
            usr_prompt_1,
            usr_prompt_2,
            gen_len_1,
            gen_len_2,
            phase: ChainPhase::Stage1Pending,
            draft: String::new(),
            outcome: String::new(),
        };
        c
    }

    /// The first request to send: system prompt plus first user prompt,
    /// capped at `gen_len_1` output tokens.
    pub fn first_request(&self) -> (r: GenRequest)
        requires
            self.phase == ChainPhase::Stage1Pending,
        ensures
            r@.messages == stage1_messages(self@),
            r@.max_tokens == self.gen_len_1,
    {
        let mut messages: Vec<ChatTurn> = Vec::new();
        messages.push(ChatTurn { role: ChatRole::System, content: self.sys_prompt.clone() });
        messages.push(ChatTurn { role: ChatRole::User, content: self.usr_prompt_1.clone() });
        let r = GenRequest { messages, max_tokens: self.gen_len_1 };
        proof {
            assert(r@.messages =~= stage1_messages(self@));
        }
        r
    }

    /// Feeds the response to the outstanding request into the chain and
    /// returns the next request to send, if any.  The step is exactly
    /// `chain_step` on the views.
    pub fn on_response(&mut self, response: Option<String>) -> (next: Option<GenRequest>)
        ensures
            (final(self)@, opt_request_view(next)) == chain_step(
                old(self)@,
                opt_response_view(response),
            ),
    {
        match self.phase {
            ChainPhase::Stage1Pending => {
                match response {
                    Some(content) => {
                        if content.as_str().is_empty() {
                            self.phase = ChainPhase::Failed;
                            None
                        } else {
                            self.draft = content;
                            self.phase = ChainPhase::Stage2Pending;
                            let mut messages: Vec<ChatTurn> = Vec::new();
                            messages.push(
                                ChatTurn { role: ChatRole::System, content: self.sys_prompt.clone() },
                            );
                            messages.push(
                                ChatTurn { role: ChatRole::User, content: self.usr_prompt_1.clone() },
                            );
                            messages.push(
                                ChatTurn { role: ChatRole::Assistant, content: self.draft.clone() },
                            );
                            messages.push(
                                ChatTurn { role: ChatRole::User, content: self.usr_prompt_2.clone() },
                            );
                            let r = GenRequest { messages, max_tokens: self.gen_len_2 };
                            proof {
                                assert(r@.messages =~= stage2_messages(self@));
                            }
                            Some(r)
                        }
                    },
                    None => {
                        self.phase = ChainPhase::Failed;
                        None
                    },
                }
            },
            ChainPhase::Stage2Pending => {
                match response {
                    Some(content) => {
                        if content.as_str().is_empty() {
                            self.phase = ChainPhase::Failed;
                        } else {
                            self.outcome = content;
                            self.phase = ChainPhase::Succeeded;
                        }
                        None
                    },
                    None => {
                        self.phase = ChainPhase::Failed;
                        None
                    },
                }
            },
            _ => None,
        }
    }

    /// The stage-two content once the chain has succeeded.
    pub fn result(&self) -> (r: Option<String>)
        ensures
            opt_response_view(r) == chain_result(self@),
    {
        match self.phase {
            ChainPhase::Succeeded => Some(self.outcome.clone()),
            _ => None,
        }
    }
}

/// Applies the non-empty-content rule to a single-stage response: an error
/// or empty content counts as no content at all.
pub fn content_of(response: Option<String>) -> (r: Option<String>)
    ensures
        opt_response_view(r) == response_content(opt_response_view(response)),
{
    match response {
        Some(s) => {
            if s.as_str().is_empty() {
                None
            } else {
                Some(s)
            }
        },
        None => None,
    }
}

/// Builds a single-stage request: one system prompt and one user prompt,
/// capped at `max_tokens` output tokens.  Used for the per-item analyses,
/// which need no second stage.
pub fn single_request(sys_prompt: String, usr_prompt: String, max_tokens: u16) -> (r: GenRequest)
    ensures
        r@.messages == seq![
            TurnView { role: ChatRole::System, content: sys_prompt@ },
            TurnView { role: ChatRole::User, content: usr_prompt@ },
        ],
        r@.max_tokens == max_tokens,
{
    let mut messages: Vec<ChatTurn> = Vec::new();
    messages.push(ChatTurn { role: ChatRole::System, content: sys_prompt });
    messages.push(ChatTurn { role: ChatRole::User, content: usr_prompt });
    let r = GenRequest { messages, max_tokens };
    proof {
        assert(r@.messages =~= seq![
            TurnView { role: ChatRole::System, content: r.messages@[0].content@ },
            TurnView { role: ChatRole::User, content: r.messages@[1].content@ },
        ]);
    }
    r
}

/// Law: a failed chain is failed for good.  Whatever responses arrive later,
/// no further request is ever issued, the phase stays `Failed`, and no
/// result is produced.
pub proof fn lemma_failure_is_absorbing(c: ChainView, resp: Option<Seq<char>>)
    requires
        c.phase == ChainPhase::Failed,
    ensures
        chain_step(c, resp).0 == c,
        chain_step(c, resp).1 is None,
        chain_result(c) is None,
{
}

/// Law: if stage one yields no content (a service error or an empty
/// response), the chain fails at once: no second request is issued and the
/// chain never produces a result.
pub proof fn lemma_stage1_failure_fails_chain(c: ChainView, resp: Option<Seq<char>>)
    requires
        c.phase == ChainPhase::Stage1Pending,
        response_content(resp) is None,
    ensures
        chain_step(c, resp).0.phase == ChainPhase::Failed,
        chain_step(c, resp).1 is None,
        chain_result(chain_step(c, resp).0) is None,
{
}

} // verus!
