use tavily_mcp::format::{format_tavily_extract_results, format_tavily_results};
use tavily_mcp::tavily::{
    ExtractResult, FailedResult, TavilyExtractResponse, TavilyResponse, TavilyResult,
};

fn s(x: &str) -> String {
    String::from(x)
}

fn hit(title: &str, url: &str, content: &str, raw: Option<&str>) -> TavilyResult {
    TavilyResult {
        title: s(title),
        url: s(url),
        content: s(content),
        score: s("0.9"),
        published_date: None,
        raw_content: raw.map(s),
    }
}

#[test]
fn search_with_answer_lists_sources_then_details() {
    let resp = TavilyResponse {
        query: s("rust"),
        follow_up_questions: None,
        answer: Some(s("Rust is a language.")),
        images: None,
        results: vec![
            hit("Rust", "https://rust-lang.org", "A systems language.", None),
            hit("Verus", "https://verus.dev", "A verifier.", Some("Raw text")),
        ],
    };
    let expected = "Answer: Rust is a language.\n\nSources:\n- Rust: https://rust-lang.org\n- Verus: https://verus.dev\n\nDetailed Results:\n\nTitle: Rust\nURL: https://rust-lang.org\nContent: A systems language.\n\nTitle: Verus\nURL: https://verus.dev\nContent: A verifier.\nRaw Content: Raw text";
    assert_eq!(format_tavily_results(&resp), expected);
}

#[test]
fn search_without_answer_has_only_details() {
    let resp = TavilyResponse {
        query: s("rust"),
        follow_up_questions: None,
        answer: None,
        images: None,
        results: vec![hit("Rust", "https://rust-lang.org", "A systems language.", None)],
    };
    let expected = "Detailed Results:\n\nTitle: Rust\nURL: https://rust-lang.org\nContent: A systems language.";
    assert_eq!(format_tavily_results(&resp), expected);
}

#[test]
fn search_with_no_results_still_has_the_heading() {
    let resp = TavilyResponse {
        query: s("rust"),
        follow_up_questions: None,
        answer: None,
        images: None,
        results: Vec::new(),
    };
    assert_eq!(format_tavily_results(&resp), "Detailed Results:");
}

#[test]
fn extract_lists_pages_failures_and_response_time() {
    let resp = TavilyExtractResponse {
        results: vec![ExtractResult {
            url: s("https://a.example"),
            raw_content: s("Alpha"),
            images: Some(vec![s("img1.png"), s("img2.png")]),
        }],
        failed_results: Some(vec![FailedResult {
            url: s("https://b.example"),
            error: s("timeout"),
        }]),
        response_time: s("0.02"),
    };
    let expected = "Extracted Results:\n\nURL: https://a.example\nRaw Content: Alpha\nImages: img1.png, img2.png\n\nFailed Results:\n\nURL: https://b.example\nError: timeout\n\nResponse Time: 0.02 seconds";
    assert_eq!(format_tavily_extract_results(&resp), expected);
}

#[test]
fn extract_without_failures_or_images_is_plain() {
    let resp = TavilyExtractResponse {
        results: vec![ExtractResult {
            url: s("https://a.example"),
            raw_content: s("Alpha"),
            images: None,
        }],
        failed_results: None,
        response_time: s("1.5"),
    };
    let expected =
        "Extracted Results:\n\nURL: https://a.example\nRaw Content: Alpha\n\nResponse Time: 1.5 seconds";
    assert_eq!(format_tavily_extract_results(&resp), expected);
}
