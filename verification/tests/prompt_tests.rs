use prompt_studio::prompt::{build_prompt, build_prompt_items, trim_to_max_prompt};
use prompt_studio::slots::pretty_slot_name;

const FRAME_TAIL: &str = "\". Create a clean, family-friendly, storybook-cinematic image. Landscape orientation. Compose for a 16:9 wide cinematic frame (safe to crop). No text, no logos, no watermark.";
const CROP_SAFE: &str = "Keep key subjects centered with generous margins; avoid important details near edges (crop-safe 16:9).";
const STYLE: &str = "High-quality 3D animated family film look, soft global illumination, warm cinematic lighting, detailed materials, subtle subsurface scattering, clean shapes, crisp focus on subject, gentle depth of field, ultra clean render.";

fn untruncated(premise: &str, clause: &str) -> String {
    format!(
        "Illustrated eBook scene for: \"{premise}{FRAME_TAIL} {CROP_SAFE} {clause} {STYLE} Natural proportions."
    )
}

#[test]
fn cover_prompt_starts_with_framing_and_contains_cover_clause() {
    let p = build_prompt("A brave turtle", "cover");
    assert!(p.starts_with("Illustrated eBook scene for: \"A brave turtle\"."));
    assert!(p.contains("Cover art: iconic moment"));
    assert!(p.chars().count() <= 2048);
}

#[test]
fn prompt_is_deterministic() {
    let a = build_prompt("Once upon a time", "ch3");
    let b = build_prompt("Once upon a time", "ch3");
    assert_eq!(a, b);
}

#[test]
fn prompt_never_exceeds_maximum() {
    let long_premise = "z".repeat(5000);
    for slot in [
        "cover", "prologue", "ch1", "ch2", "ch3", "ch4", "ch5", "ch6", "epilogue", "credits",
        "unknown",
    ] {
        for premise in ["", "short", long_premise.as_str()] {
            assert!(build_prompt(premise, slot).chars().count() <= 2048);
        }
    }
}

#[test]
fn short_prompt_is_the_full_untruncated_text() {
    let p = build_prompt("A brave turtle", "cover");
    let expected = untruncated(
        "A brave turtle",
        "Cover art: iconic moment that communicates the theme, clear focal subject, inviting warm lighting.",
    );
    assert_eq!(p, expected);
}

#[test]
fn overlong_prompt_is_the_trailing_characters_of_the_untruncated_text() {
    let premise = "x".repeat(3000);
    let p = build_prompt(&premise, "ch1");
    let full = untruncated(
        &premise,
        "Chapter 1 scene: introduce protagonist doing a simple action that sets the story in motion.",
    );
    let count = full.chars().count();
    assert!(count > 2048);
    let expected: String = full.chars().skip(count - 2048).collect();
    assert_eq!(p.chars().count(), 2048);
    assert_eq!(p, expected);
}

#[test]
fn unknown_slot_gets_the_generic_clause() {
    let p = build_prompt("A brave turtle", "bonus");
    assert!(p.contains("Scene: cohesive with the story."));
}

#[test]
fn trim_to_max_trims_whitespace_when_under_the_limit() {
    let r = trim_to_max_prompt("  hello world \n".to_string(), 100);
    assert_eq!(r, "hello world");
}

#[test]
fn trim_to_max_keeps_the_trailing_characters() {
    let r = trim_to_max_prompt("  abcdefgh  ".to_string(), 3);
    assert_eq!(r, "fgh");
}

#[test]
fn trim_to_max_trims_unicode_whitespace() {
    let r = trim_to_max_prompt("\u{3000}\u{00A0} abc \u{2009}\n".to_string(), 100);
    assert_eq!(r, "abc");
    // the same class of whitespace that str::trim removes
    assert_eq!(r, "\u{3000}\u{00A0} abc \u{2009}\n".trim());
}

#[test]
fn trim_to_max_counts_characters_not_bytes() {
    let s: String = "é".repeat(10);
    let r = trim_to_max_prompt(s, 4);
    assert_eq!(r, "éééé");
}

#[test]
fn regeneration_yields_equal_lists() {
    let a = build_prompt_items("A brave turtle");
    let b = build_prompt_items("A brave turtle");
    assert_eq!(a, b);
}

#[test]
fn item_list_covers_the_fixed_slots_in_order() {
    let items = build_prompt_items("A brave turtle");
    let keys: Vec<&str> = items.iter().map(|it| it.key.as_str()).collect();
    assert_eq!(
        keys,
        vec!["cover", "prologue", "ch1", "ch2", "ch3", "ch4", "ch5", "ch6", "epilogue", "credits"]
    );
    for it in &items {
        assert_eq!(it.filename, format!("{}.jpg", it.key));
        assert_eq!(it.prompt, build_prompt("A brave turtle", &it.key));
    }
}

#[test]
fn pretty_slot_names() {
    assert_eq!(pretty_slot_name("cover"), "Cover");
    assert_eq!(pretty_slot_name("prologue"), "Prologue");
    assert_eq!(pretty_slot_name("ch1"), "Chapter 1");
    assert_eq!(pretty_slot_name("ch6"), "Chapter 6");
    assert_eq!(pretty_slot_name("epilogue"), "Epilogue");
    assert_eq!(pretty_slot_name("credits"), "Credits");
    assert_eq!(pretty_slot_name("mystery"), "mystery");
}
