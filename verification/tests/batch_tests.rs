use prompt_studio::batch::{run_batch, BatchState, SlotOutcome};
use prompt_studio::json::generate_body;
use prompt_studio::prompt::build_prompt_items;
use prompt_studio::settings::endpoint_or_default;

fn rendered(n: usize) -> SlotOutcome {
    SlotOutcome::Rendered {
        preview_url: format!("blob:preview-{n}"),
        png_url: Some(format!("blob:png-{n}")),
    }
}

#[test]
fn json_body_is_framed_and_escaped_exactly() {
    let body = generate_body("say \"hi\"\nplease");
    assert_eq!(
        body,
        "{\"prompt\":\"say \\\"hi\\\"\\nplease\",\"model\":\"flux\",\"style\":\"animated3d\",\"steps\":8,\"seed\":null}"
    );
}

#[test]
fn json_body_escapes_control_characters() {
    let body = generate_body("a\u{0001}b\tc\\d");
    assert_eq!(
        body,
        "{\"prompt\":\"a\\u0001b\\tc\\\\d\",\"model\":\"flux\",\"style\":\"animated3d\",\"steps\":8,\"seed\":null}"
    );
}

#[test]
fn credential_is_trimmed_into_a_bearer_header() {
    let mut state = BatchState::new();
    let items = build_prompt_items("p");
    assert!(state.start(items, "https://example.invalid/api".to_string(), "  token-1  "));
    let req = state.next_request().expect("expected a request");
    assert_eq!(req.auth_header.as_deref(), Some("Bearer token-1"));
    assert_eq!(req.url, "https://example.invalid/api");
}

#[test]
fn blank_credential_sends_no_auth_header() {
    let mut state = BatchState::new();
    let items = build_prompt_items("p");
    assert!(state.start(items, "https://example.invalid/api".to_string(), "   "));
    let req = state.next_request().expect("expected a request");
    assert_eq!(req.auth_header, None);
}

#[test]
fn request_body_is_the_framed_prompt_of_the_current_slot() {
    let mut state = BatchState::new();
    let items = build_prompt_items("A brave turtle");
    let expected = generate_body(&items[0].prompt);
    assert!(state.start(items, "https://example.invalid/api".to_string(), ""));
    let req = state.next_request().expect("expected a request");
    assert_eq!(req.body, expected);
}

#[test]
fn start_is_ignored_while_a_run_is_busy() {
    let mut state = BatchState::new();
    let items = build_prompt_items("p");
    assert!(state.start(items, "https://one.invalid".to_string(), ""));
    let _ = state.next_request();
    let status_before = state.status.clone();
    let again = build_prompt_items("q");
    assert!(!state.start(again, "https://two.invalid".to_string(), "x"));
    assert!(state.busy);
    assert_eq!(state.status, status_before);
    assert_eq!(state.endpoint, "https://one.invalid");
}

#[test]
fn processing_status_counts_slots_one_indexed() {
    let mut state = BatchState::new();
    let items = build_prompt_items("p");
    assert!(state.start(items, "https://example.invalid".to_string(), ""));
    assert_eq!(state.status, "Generating images…");
    let _ = state.next_request();
    assert_eq!(state.status, "Generating Cover (1/10)…");
    state.complete_current(SlotOutcome::NetworkFailed);
    let _ = state.next_request();
    assert_eq!(state.status, "Generating Prologue (2/10)…");
}

#[test]
fn transform_failure_falls_back_to_the_preview_resource() {
    let mut state = BatchState::new();
    let items = build_prompt_items("p");
    assert!(state.start(items, "https://example.invalid".to_string(), ""));
    let _ = state.next_request();
    state.complete_current(SlotOutcome::Rendered {
        preview_url: "blob:original".to_string(),
        png_url: None,
    });
    assert_eq!(state.images.len(), 1);
    let img = &state.images[0];
    assert_eq!(img.key, "cover");
    assert_eq!(img.preview_filename, "cover.jpg");
    assert_eq!(img.download_filename, "cover.png");
    assert_eq!(img.preview_url, "blob:original");
    assert_eq!(img.download_url, "blob:original");
}

#[test]
fn successful_transform_keeps_both_resources() {
    let mut state = BatchState::new();
    let items = build_prompt_items("p");
    assert!(state.start(items, "https://example.invalid".to_string(), ""));
    let _ = state.next_request();
    state.complete_current(SlotOutcome::Rendered {
        preview_url: "blob:original".to_string(),
        png_url: Some("blob:cropped".to_string()),
    });
    let img = &state.images[0];
    assert_eq!(img.preview_url, "blob:original");
    assert_eq!(img.download_url, "blob:cropped");
}

#[test]
fn http_failure_in_the_middle_skips_the_slot_and_reports_it() {
    // Ten slots; the fourth answers HTTP 500 with body "rate limited".
    let mut state = BatchState::new();
    let items = build_prompt_items("p");
    assert!(state.start(items, "https://example.invalid".to_string(), ""));
    for i in 0..10 {
        let _ = state.next_request().expect("expected a request");
        if i == 3 {
            state.complete_current(SlotOutcome::HttpFailed {
                status: 500,
                body: "rate limited".to_string(),
            });
            assert!(state.status.contains("HTTP 500"));
            assert!(state.status.contains("rate limited"));
            assert_eq!(state.status, "Chapter 2 failed: HTTP 500 — rate limited");
        } else {
            state.complete_current(rendered(i));
        }
    }
    assert!(state.next_request().is_none());
    assert!(!state.busy);
    assert_eq!(state.status, "Done ✅");
    assert_eq!(state.images.len(), 9);
    let keys: Vec<&str> = state.images.iter().map(|im| im.key.as_str()).collect();
    assert_eq!(
        keys,
        vec!["cover", "prologue", "ch1", "ch3", "ch4", "ch5", "ch6", "epilogue", "credits"]
    );
}

#[test]
fn run_batch_terminates_and_keeps_only_non_failing_slots_in_order() {
    let mut state = BatchState::new();
    let items = build_prompt_items("p");
    let outcomes = vec![
        rendered(0),
        SlotOutcome::NetworkFailed,
        rendered(2),
        SlotOutcome::HttpFailed { status: 404, body: "missing".to_string() },
        SlotOutcome::ReadFailed,
        rendered(5),
        SlotOutcome::PreviewFailed,
        rendered(7),
        rendered(8),
        SlotOutcome::NetworkFailed,
    ];
    let requests = run_batch(
        &mut state,
        items,
        "https://example.invalid".to_string(),
        "key",
        outcomes,
    );
    assert_eq!(requests.len(), 10);
    for req in &requests {
        assert_eq!(req.url, "https://example.invalid");
        assert_eq!(req.auth_header.as_deref(), Some("Bearer key"));
    }
    assert!(!state.busy);
    assert_eq!(state.status, "Done ✅");
    let keys: Vec<&str> = state.images.iter().map(|im| im.key.as_str()).collect();
    assert_eq!(keys, vec!["cover", "ch1", "ch4", "ch6", "epilogue"]);
    assert_eq!(state.images[1].preview_url, "blob:preview-2");
    assert_eq!(state.images[1].download_url, "blob:png-2");
}

#[test]
fn run_batch_with_no_items_still_finishes() {
    let mut state = BatchState::new();
    let _ = run_batch(
        &mut state,
        Vec::new(),
        "https://example.invalid".to_string(),
        "",
        Vec::new(),
    );
    assert!(!state.busy);
    assert_eq!(state.status, "Done ✅");
    assert!(state.images.is_empty());
}

#[test]
fn idle_orchestrator_yields_no_request() {
    let mut state = BatchState::new();
    assert!(state.next_request().is_none());
    assert!(!state.busy);
}

#[test]
fn blank_endpoint_setting_gets_the_default() {
    assert_eq!(
        endpoint_or_default("   ".to_string()),
        "https://ebook-image-forge.mikegyver.workers.dev/api/generate"
    );
    assert_eq!(
        endpoint_or_default(String::new()),
        "https://ebook-image-forge.mikegyver.workers.dev/api/generate"
    );
    assert_eq!(
        endpoint_or_default("https://mine.invalid/api".to_string()),
        "https://mine.invalid/api"
    );
}
