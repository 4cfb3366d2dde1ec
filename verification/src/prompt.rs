//! Building the per-slot generation prompts: a fixed framing around the
//! user's premise, a slot-specific clause, and a hard length ceiling
//! enforced by keeping the tail of the text.

use vstd::prelude::*;

verus! {

use vstd::string::StrSliceExecFns;
use vstd::string::StringExecFns;
use crate::slots::Slot;
use crate::slots::all_slots;
use crate::slots::all_slots_spec;
use crate::text::keep_last;
use crate::text::trim_spec;
use crate::text::trim_ws;

/// The hard ceiling, in characters, that the downstream generation
/// service puts on a prompt.
pub const MAX_WORKER_PROMPT_CHARS: usize = 2048;

/// What `trim_to_max_prompt` returns: the whitespace-trimmed text,
/// cut down to its last `max` characters when it is longer than that.
pub open spec fn trim_to_max_spec(s: Seq<char>, max: int) -> Seq<char> {
    keep_last(trim_spec(s), max)
}

/// Trims whitespace at both ends, then, if more than `max_chars`
/// characters remain, keeps exactly the trailing `max_chars` of them:
/// the stylistic and safety directives stand at the end of a prompt and
/// take precedence over the premise restatement at its start.
pub fn trim_to_max_prompt(s: String, max_chars: usize) -> (r: String)
    ensures
        r@ == trim_to_max_spec(s@, max_chars as int),
        r@.len() <= max_chars,
{
    let t: &str = trim_ws(s.as_str());
    let n: usize = t.unicode_len();
    if n <= max_chars {
        String::from_str(t)
    } else {
        String::from_str(t.substring_char(n - max_chars, n))
    }
}

/// The slot-specific clause for a slot key; an unrecognized key gets a
/// generic clause.
pub open spec fn slot_clause_spec(key: Seq<char>) -> Seq<char> {
    match Slot::from_key_spec(key) {
        Some(s) => s.clause_spec(),
        None => "Scene: cohesive with the story."@,
    }
}

/// The prompt before length limiting: premise framing, crop-safety
/// clause, slot clause, and render-style clause, joined by single
/// spaces in a fixed order.
pub open spec fn full_prompt_spec(premise: Seq<char>, slot_key: Seq<char>) -> Seq<char> {
    "Illustrated eBook scene for: \""@ + premise
        + "\". Create a clean, family-friendly, storybook-cinematic image. Landscape orientation. Compose for a 16:9 wide cinematic frame (safe to crop). No text, no logos, no watermark."@
        + " "@
        + "Keep key subjects centered with generous margins; avoid important details near edges (crop-safe 16:9)."@
        + " "@ + slot_clause_spec(slot_key) + " "@
        + "High-quality 3D animated family film look, soft global illumination, warm cinematic lighting, detailed materials, subtle subsurface scattering, clean shapes, crisp focus on subject, gentle depth of field, ultra clean render."@
        + " Natural proportions."@
}

/// What `build_prompt` returns.
pub open spec fn build_prompt_spec(premise: Seq<char>, slot_key: Seq<char>) -> Seq<char> {
    trim_to_max_spec(full_prompt_spec(premise, slot_key), MAX_WORKER_PROMPT_CHARS as int)
}

/// Builds the prompt for one slot.  The result is a pure function of
/// the premise and the slot key, and never exceeds
/// `MAX_WORKER_PROMPT_CHARS` characters.
pub fn build_prompt(premise: &str, slot: &str) -> (r: String)
    ensures
        r@ == build_prompt_spec(premise@, slot@),
        r@.len() <= MAX_WORKER_PROMPT_CHARS,
{
    let mut full = String::from_str("Illustrated eBook scene for: \"");
    full.append(premise);
    full.append(
        "\". Create a clean, family-friendly, storybook-cinematic image. Landscape orientation. Compose for a 16:9 wide cinematic frame (safe to crop). No text, no logos, no watermark.",
    );
    full.append(" ");
    full.append(
        "Keep key subjects centered with generous margins; avoid important details near edges (crop-safe 16:9).",
    );
    full.append(" ");
    let clause: &str = match Slot::from_key(slot) {
        Some(s) => s.clause(),
        None => "Scene: cohesive with the story.",
    };
    full.append(clause);
    full.append(" ");
    full.append(
        "High-quality 3D animated family film look, soft global illumination, warm cinematic lighting, detailed materials, subtle subsurface scattering, clean shapes, crisp focus on subject, gentle depth of field, ultra clean render.",
    );
    full.append(" Natural proportions.");
    proof {
        assert(full@ =~= full_prompt_spec(premise@, slot@));
    }
    trim_to_max_prompt(full, MAX_WORKER_PROMPT_CHARS)
}

/// Truncation law: whenever the whitespace-trimmed text is longer than
/// the ceiling, the limited prompt is exactly its trailing `max`
/// characters, in order.
pub proof fn lemma_truncation_law(s: Seq<char>, max: int)
    requires
        0 <= max,
        trim_spec(s).len() > max,
    ensures
        trim_to_max_spec(s, max) == trim_spec(s).subrange(
            trim_spec(s).len() - max,
            trim_spec(s).len() as int,
        ),
        trim_to_max_spec(s, max).len() == max,
{
}

/// Determinism and boundedness: the prompt is a function of the
/// premise and the slot key alone, and never has more than
/// `MAX_WORKER_PROMPT_CHARS` characters.
pub proof fn lemma_build_prompt_deterministic(
    premise1: Seq<char>,
    slot1: Seq<char>,
    premise2: Seq<char>,
    slot2: Seq<char>,
)
    requires
        premise1 == premise2,
        slot1 == slot2,
    ensures
        build_prompt_spec(premise1, slot1) == build_prompt_spec(premise2, slot2),
        build_prompt_spec(premise1, slot1).len() <= MAX_WORKER_PROMPT_CHARS,
{
}

/// One prompt entry: the slot key, the filename the preview is offered
/// under, and the prompt text itself.
#[derive(Clone, Debug, PartialEq)]
pub struct PromptItem {
    pub key: String,
    pub filename: String,
    pub prompt: String,
}

/// The mathematical image of a `PromptItem`.
pub struct PromptItemView {
    pub key: Seq<char>,
    pub filename: Seq<char>,
    pub prompt: Seq<char>,
}

impl View for PromptItem {
    type V = PromptItemView;

    open spec fn view(&self) -> PromptItemView {
        PromptItemView { key: self.key@, filename: self.filename@, prompt: self.prompt@ }
    }
}

/// The views of a sequence of prompt items.
pub open spec fn items_view(items: Seq<PromptItem>) -> Seq<PromptItemView> {
    items.map_values(|it: PromptItem| it@)
}

/// The prompt item a build produces for one slot.
pub open spec fn prompt_item_spec(premise: Seq<char>, slot: Slot) -> PromptItemView {
    PromptItemView {
        key: slot.key_spec(),
        filename: slot.key_spec() + ".jpg"@,
        prompt: build_prompt_spec(premise, slot.key_spec()),
    }
}

/// The full list a build produces: one item per slot, in the fixed slot
/// order.
pub open spec fn prompt_items_spec(premise: Seq<char>) -> Seq<PromptItemView> {
    all_slots_spec().map_values(|s: Slot| prompt_item_spec(premise, s))
}

/// Builds the full prompt list for a premise.  The result replaces any
/// earlier list wholesale; it depends on the premise alone.
pub fn build_prompt_items(premise: &str) -> (r: Vec<PromptItem>)
    ensures
        items_view(r@) == prompt_items_spec(premise@),
        r@.len() == all_slots_spec().len(),
{
    let slots = all_slots();
    let mut items: Vec<PromptItem> = Vec::new();
    let mut i: usize = 0;
    while i < slots.len()
        invariant
            i <= slots.len(),
            slots@ == all_slots_spec(),
            items@.len() == i,
            items_view(items@) =~= prompt_items_spec(premise@).take(i as int),
        decreases slots.len() - i,
    {
        let slot = slots[i];
        let key: &'static str = slot.key();
        let mut filename = String::from_str(key);
        filename.append(".jpg");
        let item = PromptItem {
            key: String::from_str(key),
            filename,
            prompt: build_prompt(premise, key),
        };
        items.push(item);
        i = i + 1;
        proof {
            assert(items_view(items@) =~= prompt_items_spec(premise@).take(i as int));
        }
    }
    proof {
        assert(prompt_items_spec(premise@).take(slots@.len() as int) =~= prompt_items_spec(
            premise@,
        ));
    }
    items
}

/// Regeneration idempotence: rebuilding from the same premise yields
/// the same ordered list of prompt items.
pub proof fn lemma_regeneration_idempotent(premise1: Seq<char>, premise2: Seq<char>)
    requires
        premise1 == premise2,
    ensures
        prompt_items_spec(premise1) == prompt_items_spec(premise2),
{
}

} // verus!
