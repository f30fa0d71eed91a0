use rfcbit::gemini::{
    build_request, completion_request, completion_result, completion_text, completion_url,
    Candidate,
    CandidateContent, CandidatePart, CompletionError, CompletionReply, GeminiResponse,
    MAX_OUTPUT_TOKENS, TEMPERATURE_HUNDREDTHS,
};

fn candidate(texts: &[&str]) -> Candidate {
    Candidate {
        content: CandidateContent {
            parts: texts.iter().map(|t| CandidatePart { text: t.to_string() }).collect(),
        },
    }
}

#[test]
fn url_names_the_model_and_carries_the_key() {
    assert_eq!(
        completion_url("k3y"),
        "https://generativelanguage.googleapis.com/v1beta/models/gemini-3-flash-preview:generateContent?key=k3y"
    );
    assert_eq!(
        completion_url(""),
        "https://generativelanguage.googleapis.com/v1beta/models/gemini-3-flash-preview:generateContent?key="
    );
}

#[test]
fn request_is_one_turn_with_one_part() {
    let request = build_request("explain this");
    assert_eq!(request.contents.len(), 1);
    assert_eq!(request.contents[0].parts.len(), 1);
    assert_eq!(request.contents[0].parts[0].text, "explain this");
    assert_eq!(request.generation_config.temperature_hundredths, 20);
    assert_eq!(request.generation_config.max_output_tokens, 1_000_000);
    assert_eq!(TEMPERATURE_HUNDREDTHS, 20);
    assert_eq!(MAX_OUTPUT_TOKENS, 1_000_000);
}

#[test]
fn completion_request_joins_address_and_body() {
    let request = completion_request("explain this", "k3y");
    assert_eq!(request.url, completion_url("k3y"));
    assert_eq!(request.body, build_request("explain this"));
}

#[test]
fn text_is_the_first_part_of_the_first_candidate() {
    let response = GeminiResponse {
        candidates: vec![candidate(&["first", "second"]), candidate(&["other"])],
    };
    assert_eq!(completion_text(&response), Ok("first".to_string()));
}

#[test]
fn no_candidates_is_an_empty_response() {
    let response = GeminiResponse { candidates: vec![] };
    assert_eq!(completion_text(&response), Err(CompletionError::Empty));
}

#[test]
fn no_parts_is_an_empty_response() {
    let response = GeminiResponse { candidates: vec![candidate(&[])] };
    assert_eq!(completion_text(&response), Err(CompletionError::Empty));
    // Only the first candidate counts.
    let response = GeminiResponse { candidates: vec![candidate(&[]), candidate(&["late"])] };
    assert_eq!(completion_text(&response), Err(CompletionError::Empty));
}

#[test]
fn an_empty_text_is_still_a_text() {
    let response = GeminiResponse { candidates: vec![candidate(&[""])] };
    assert_eq!(completion_text(&response), Ok(String::new()));
}

#[test]
fn each_reply_has_its_error() {
    assert_eq!(
        completion_result(CompletionReply::Unreachable { detail: "dns".to_string() }),
        Err(CompletionError::Transport { detail: "dns".to_string() })
    );
    assert_eq!(
        completion_result(CompletionReply::Rejected { body: "{\"error\":403}".to_string() }),
        Err(CompletionError::Api { body: "{\"error\":403}".to_string() })
    );
    assert_eq!(
        completion_result(CompletionReply::Undecodable { detail: "eof".to_string() }),
        Err(CompletionError::Malformed { detail: "eof".to_string() })
    );
    assert_eq!(
        completion_result(CompletionReply::Decoded { response: GeminiResponse { candidates: vec![] } }),
        Err(CompletionError::Empty)
    );
    assert_eq!(
        completion_result(CompletionReply::Decoded {
            response: GeminiResponse { candidates: vec![candidate(&["done"])] }
        }),
        Ok("done".to_string())
    );
}

#[test]
fn completion_error_messages() {
    assert_eq!(
        CompletionError::Transport { detail: "dns".to_string() }.message(),
        "Failed to call Gemini API"
    );
    assert_eq!(
        CompletionError::Api { body: "quota".to_string() }.message(),
        "Gemini API error: quota"
    );
    assert_eq!(
        CompletionError::Malformed { detail: "eof".to_string() }.message(),
        "Failed to parse Gemini response"
    );
    assert_eq!(CompletionError::Empty.message(), "Empty response from Gemini");
}
