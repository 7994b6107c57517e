use vstd::prelude::*;
use vstd::string::StringExecFns;
use crate::error::ScrapeError;
use crate::text::between;
use crate::text::strip_affixes;

verus! {

/// The price of one prompt token, in ten-millionths of a dollar.
pub const PROMPT_TOKEN_PRICE: u64 = 5;

/// The price of one completion token, in ten-millionths of a dollar.
pub const COMPLETION_TOKEN_PRICE: u64 = 15;

/// The instruction that is sent where the caller gives none.
pub open spec fn default_prompt() -> Seq<char> {
    "Can you give me the industry (string), responsibilities (array of strings), and qualifications (array of strings) of this job listing in valid JSON. Find as many responsibilities and qualifications as it says:"@
}

/// The instruction that a request carries.
pub open spec fn prompt_or_default(prompt: Option<&str>) -> Seq<char> {
    match prompt {
        Some(p) => p@,
        None => default_prompt(),
    }
}

/// The price of one call, linear in its two token counts.
pub open spec fn cost_of(prompt_tokens: u32, completion_tokens: u32) -> int {
    prompt_tokens * PROMPT_TOKEN_PRICE + completion_tokens * COMPLETION_TOKEN_PRICE
}

/// An answer without the code fence that may stand around it.
pub open spec fn unfenced(answer: Seq<char>) -> Seq<char> {
    between(answer, "```json"@, "```"@)
}

/// What came of one request to the model provider.
pub enum Completion {
    /// No credential was configured, so nothing was sent.
    MissingCredential,
    /// The request was sent and failed.
    RequestFailed,
    /// The provider answered: the text of its first choice, if it gave one,
    /// and the token counts it reported.
    Answer { content: Option<String>, prompt_tokens: u32, completion_tokens: u32 },
}

/// The text of the single user message of a request: the instruction, the
/// default one where none is given, directly followed by the text to
/// analyze.
pub fn request_text(prompt: Option<&str>, description: &str) -> (message: String)
    ensures
        message@ == prompt_or_default(prompt) + description@,
{
    let instruction = match prompt {
        Some(p) => p,
        None =>
            "Can you give me the industry (string), responsibilities (array of strings), and qualifications (array of strings) of this job listing in valid JSON. Find as many responsibilities and qualifications as it says:",
    };
    let mut message = String::from_str(instruction);
    message.append(description);
    message
}

/// The price of one call.
pub fn call_cost(prompt_tokens: u32, completion_tokens: u32) -> (cost: u64)
    ensures
        cost == cost_of(prompt_tokens, completion_tokens),
{
    let prompt_price: u64 = prompt_tokens as u64 * PROMPT_TOKEN_PRICE;
    let completion_price: u64 = completion_tokens as u64 * COMPLETION_TOKEN_PRICE;
    prompt_price + completion_price
}

/// Removes the code fence around an answer: the opening fence labelled
/// `json` at its start and the closing fence at its end.
pub fn strip_fence(answer: &str) -> (text: String)
    ensures
        text@ == unfenced(answer@),
{
    proof {
        reveal_strlit("```json");
        reveal_strlit("```");
    }
    strip_affixes(answer, "```json", "```")
}

/// Turns what came of a request into the answer text and the price of the
/// call. Each way of failing has an error of its own; an answer is stripped
/// of its code fence and priced by its token counts.
pub fn get_openai_response(completion: Completion) -> (response: Result<(String, u64), ScrapeError>)
    ensures
        match completion {
            Completion::MissingCredential => response == Err::<(String, u64), ScrapeError>(
                ScrapeError::MissingCredential,
            ),
            Completion::RequestFailed => response == Err::<(String, u64), ScrapeError>(
                ScrapeError::RequestFailed,
            ),
            Completion::Answer { content: None, .. } => response == Err::<
                (String, u64),
                ScrapeError,
            >(ScrapeError::EmptyResponse),
            Completion::Answer { content: Some(text), prompt_tokens, completion_tokens } => {
                &&& response is Ok
                &&& response->Ok_0.0@ == unfenced(text@)
                &&& response->Ok_0.1 == cost_of(prompt_tokens, completion_tokens)
            },
        },
{
    match completion {
        Completion::MissingCredential => Err(ScrapeError::MissingCredential),
        Completion::RequestFailed => Err(ScrapeError::RequestFailed),
        Completion::Answer { content, prompt_tokens, completion_tokens } => {
            let cost = call_cost(prompt_tokens, completion_tokens);
            match content {
                Some(text) => Ok((strip_fence(text.as_str()), cost)),
                None => Err(ScrapeError::EmptyResponse),
            }
        },
    }
}

/// The price is additive: one call with the tokens of two calls costs what
/// the two calls cost together.
pub proof fn lemma_cost_additive(p1: u32, c1: u32, p2: u32, c2: u32)
    requires
        p1 + p2 <= u32::MAX,
        c1 + c2 <= u32::MAX,
    ensures
        cost_of((p1 + p2) as u32, (c1 + c2) as u32) == cost_of(p1, c1) + cost_of(p2, c2),
{
}

} // verus!
