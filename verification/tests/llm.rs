use rust_scraping::error::ScrapeError;
use rust_scraping::llm::call_cost;
use rust_scraping::llm::get_openai_response;
use rust_scraping::llm::request_text;
use rust_scraping::llm::strip_fence;
use rust_scraping::llm::Completion;
use rust_scraping::llm::COMPLETION_TOKEN_PRICE;
use rust_scraping::llm::PROMPT_TOKEN_PRICE;

#[test]
fn cost_is_linear_in_the_token_counts() {
    assert_eq!(call_cost(100, 50), 100 * PROMPT_TOKEN_PRICE + 50 * COMPLETION_TOKEN_PRICE);
    assert_eq!(call_cost(100, 50), 1250);
    assert_eq!(call_cost(0, 0), 0);
    assert_eq!(call_cost(1, 0), 5);
    assert_eq!(call_cost(0, 1), 15);
}

#[test]
fn cost_is_additive() {
    assert_eq!(call_cost(100, 50) + call_cost(20, 30), call_cost(120, 80));
}

#[test]
fn cost_of_the_largest_counts_fits() {
    assert_eq!(call_cost(u32::MAX, u32::MAX), 20 * (u32::MAX as u64));
}

#[test]
fn prices_are_in_ten_millionths_of_a_dollar() {
    assert_eq!(PROMPT_TOKEN_PRICE as f64 * 1e-7, 0.0000005);
    assert_eq!(COMPLETION_TOKEN_PRICE as f64 * 1e-7, 0.0000015);
}

#[test]
fn request_text_puts_the_instruction_before_the_payload() {
    assert_eq!(request_text(Some("Summarize:"), "some text"), "Summarize:some text");
    assert_eq!(request_text(Some(""), "x"), "x");
}

#[test]
fn request_text_has_a_default_instruction() {
    assert_eq!(
        request_text(None, " payload"),
        "Can you give me the industry (string), responsibilities (array of strings), and qualifications (array of strings) of this job listing in valid JSON. Find as many responsibilities and qualifications as it says: payload"
    );
}

#[test]
fn fence_is_stripped() {
    assert_eq!(strip_fence("```json\n{\"a\":1}\n```"), "\n{\"a\":1}\n");
    assert_eq!(strip_fence("```json{}```"), "{}");
    assert_eq!(strip_fence("{\"a\":1}"), "{\"a\":1}");
    assert_eq!(strip_fence(""), "");
}

#[test]
fn fence_is_stripped_on_either_side_alone() {
    assert_eq!(strip_fence("```json{}"), "{}");
    assert_eq!(strip_fence("{}```"), "{}");
    assert_eq!(strip_fence("```{}"), "```{}");
    assert_eq!(strip_fence("```json"), "");
    assert_eq!(strip_fence("```json```json{}``````"), "{}");
}

#[test]
fn fence_agrees_with_std() {
    for s in ["```json```", "``````", "```json`````", "a```json", "```jso", "````json"] {
        assert_eq!(strip_fence(s), s.trim_start_matches("```json").trim_end_matches("```"));
    }
}

#[test]
fn answer_gives_text_and_cost() {
    let completion = Completion::Answer {
        content: Some("```json\n{\"industry\":\"Space\"}\n```".to_string()),
        prompt_tokens: 100,
        completion_tokens: 50,
    };
    assert_eq!(
        get_openai_response(completion),
        Ok(("\n{\"industry\":\"Space\"}\n".to_string(), 1250))
    );
}

#[test]
fn each_failure_has_its_own_error() {
    assert_eq!(
        get_openai_response(Completion::MissingCredential),
        Err(ScrapeError::MissingCredential)
    );
    assert_eq!(get_openai_response(Completion::RequestFailed), Err(ScrapeError::RequestFailed));
    let empty = Completion::Answer { content: None, prompt_tokens: 10, completion_tokens: 0 };
    assert_eq!(get_openai_response(empty), Err(ScrapeError::EmptyResponse));
}
