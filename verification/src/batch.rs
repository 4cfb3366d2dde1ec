//! The sequential batch orchestrator.  It owns one generation run:
//! one network request per prompt item, strictly in slot order, with
//! per-slot failures tolerated and the run always driven to its end.
//!
//! The orchestrator only decides; it performs no I/O itself.  A caller
//! drives it through a simple protocol: `start` once, then repeatedly
//! `next_request` (which either yields the request to perform for the
//! current slot, or ends the run) and `complete_current` with the
//! observed outcome of that request.

use vstd::prelude::*;

verus! {

use vstd::string::StrSliceExecFns;
use vstd::string::StringExecFns;
use crate::json::generate_body;
use crate::json::generate_body_spec;
use crate::prompt::PromptItem;
use crate::prompt::PromptItemView;
use crate::slots::pretty_slot_name;
use crate::slots::pretty_slot_name_spec;
use crate::text::dec_seq;
use crate::text::trim_spec;
use crate::text::trim_ws;
use crate::text::u64_to_dec;

/// The HTTP request to perform for one slot: a POST of `body` (JSON)
/// to `url`, with the `Authorization` header value in `auth_header`
/// when one is configured.
pub struct SlotRequest {
    pub url: String,
    pub body: String,
    pub auth_header: Option<String>,
}

/// The view of an optional string.
pub open spec fn opt_view(o: Option<String>) -> Option<Seq<char>> {
    match o {
        Some(s) => Some(s@),
        None => None,
    }
}

/// The `Authorization` header value for a configured credential: none
/// when the credential is blank after trimming whitespace, otherwise
/// `Bearer ` followed by the trimmed credential.
pub open spec fn auth_header_spec(credential: Seq<char>) -> Option<Seq<char>> {
    if trim_spec(credential).len() == 0 {
        None
    } else {
        Some("Bearer "@ + trim_spec(credential))
    }
}

fn make_auth_header(credential: &str) -> (r: Option<String>)
    ensures
        opt_view(r) == auth_header_spec(credential@),
{
    let t: &str = trim_ws(credential);
    if t.is_empty() {
        None
    } else {
        let mut h = String::from_str("Bearer ");
        h.append(t);
        Some(h)
    }
}

/// What the caller observed for one slot's request.
#[derive(Clone, Debug, PartialEq)]
pub enum SlotOutcome {
    /// The request could not be sent, or no response arrived.
    NetworkFailed,
    /// A response arrived with a non-success status; `body` is its
    /// textual body, or a generic failure message when unreadable.
    HttpFailed { status: u16, body: String },
    /// The successful response's binary body could not be read.
    ReadFailed,
    /// A preview resource could not be made from the body bytes.
    PreviewFailed,
    /// A preview resource exists; `png_url` is the 16:9 transform's
    /// resource when the transform succeeded.
    Rendered { preview_url: String, png_url: Option<String> },
}

/// Whether an outcome yields an asset.
pub open spec fn is_rendered(o: SlotOutcome) -> bool {
    o matches SlotOutcome::Rendered { .. }
}

/// One produced asset: the original preview resource and the 16:9
/// download resource, with their filenames.
#[derive(Clone, Debug, PartialEq)]
pub struct RenderedImage {
    pub key: String,
    pub preview_filename: String,
    pub preview_url: String,
    pub download_filename: String,
    pub download_url: String,
}

/// The mathematical image of a `RenderedImage`.
pub struct RenderedImageView {
    pub key: Seq<char>,
    pub preview_filename: Seq<char>,
    pub preview_url: Seq<char>,
    pub download_filename: Seq<char>,
    pub download_url: Seq<char>,
}

impl View for RenderedImage {
    type V = RenderedImageView;

    open spec fn view(&self) -> RenderedImageView {
        RenderedImageView {
            key: self.key@,
            preview_filename: self.preview_filename@,
            preview_url: self.preview_url@,
            download_filename: self.download_filename@,
            download_url: self.download_url@,
        }
    }
}

/// The views of a sequence of assets.
pub open spec fn images_view(imgs: Seq<RenderedImage>) -> Seq<RenderedImageView> {
    imgs.map_values(|im: RenderedImage| im@)
}

/// The asset a rendered outcome produces for an item: the preview under
/// the item's source filename, and the download under the slot key with
/// a `.png` extension.  When the transform failed, the download falls
/// back to the preview resource itself.
pub open spec fn rendered_image_spec(item: PromptItemView, o: SlotOutcome) -> RenderedImageView
    recommends
        is_rendered(o),
{
    match o {
        SlotOutcome::Rendered { preview_url, png_url } => RenderedImageView {
            key: item.key,
            preview_filename: item.filename,
            preview_url: preview_url@,
            download_filename: item.key + ".png"@,
            download_url: match png_url {
                Some(u) => u@,
                None => preview_url@,
            },
        },
        _ => arbitrary(),
    }
}

/// Fallback law: when the transform step failed for a slot (a rendered
/// outcome without a transform resource), the produced asset's download
/// resource is the preview resource itself.
pub proof fn lemma_fallback_download_is_preview(item: PromptItemView, o: SlotOutcome)
    requires
        o matches SlotOutcome::Rendered { png_url: None, .. },
    ensures
        rendered_image_spec(item, o).download_url == rendered_image_spec(item, o).preview_url,
{
}

/// The status line a run starts with.
pub open spec fn start_status() -> Seq<char> {
    "Generating images…"@
}

/// The status line a run ends with.
pub open spec fn done_status() -> Seq<char> {
    "Done ✅"@
}

/// The status line shown while slot `i` of `n` (1-indexed) is being
/// processed.
pub open spec fn processing_status_spec(key: Seq<char>, i: nat, n: nat) -> Seq<char> {
    "Generating "@ + pretty_slot_name_spec(key) + " ("@ + dec_seq(i) + "/"@ + dec_seq(n) + ")…"@
}

/// The status line shown when a slot's response had a non-success
/// status.
pub open spec fn http_failure_status_spec(key: Seq<char>, status: nat, body: Seq<char>) -> Seq<
    char,
> {
    pretty_slot_name_spec(key) + " failed: HTTP "@ + dec_seq(status) + " — "@ + body
}

/// One generation run: the items being processed, the request
/// parameters, the index of the slot currently in flight, and the state
/// the presentation layer reads (busy flag, status line, produced
/// assets in slot order).
pub struct BatchState {
    pub items: Vec<PromptItem>,
    pub endpoint: String,
    pub auth_header: Option<String>,
    pub next: usize,
    pub busy: bool,
    pub status: String,
    pub images: Vec<RenderedImage>,
}

impl BatchState {
    /// While a run is busy, `next` never passes the end of the items.
    pub open spec fn inv(self) -> bool {
        self.busy ==> self.next <= self.items@.len()
    }

    /// The view of the item the run is currently processing.
    pub open spec fn current_item(self) -> PromptItemView {
        (self.items@[self.next as int])@
    }

    /// An idle orchestrator with no produced assets and an empty
    /// status.
    pub fn new() -> (r: BatchState)
        ensures
            r.inv(),
            !r.busy,
            r.images@.len() == 0,
            r.status@ == Seq::<char>::empty(),
    {
        BatchState {
            items: Vec::new(),
            endpoint: String::new(),
            auth_header: None,
            next: 0,
            busy: false,
            status: String::new(),
            images: Vec::new(),
        }
    }

    /// Begins a run over `items`, unless one is already in progress:
    /// a second concurrent start is ignored.  Beginning a run clears
    /// the produced assets, raises the busy flag, and fixes the
    /// endpoint and the optional `Authorization` header for the whole
    /// run.
    pub fn start(&mut self, items: Vec<PromptItem>, endpoint: String, credential: &str) -> (started:
        bool)
        requires
            old(self).inv(),
        ensures
            final(self).inv(),
            old(self).busy ==> *final(self) == *old(self) && !started,
            !old(self).busy ==> started && final(self).busy && final(self).next == 0
                && final(self).items@ == items@ && final(self).endpoint@ == endpoint@
                && opt_view(final(self).auth_header) == auth_header_spec(credential@)
                && final(self).images@.len() == 0
                && final(self).status@ == start_status(),
    {
        if self.busy {
            return false;
        }
        self.items = items;
        self.endpoint = endpoint;
        self.auth_header = make_auth_header(credential);
        self.next = 0;
        self.busy = true;
        self.status = String::from_str("Generating images…");
        self.images = Vec::new();
        true
    }

    /// When idle, does nothing.  When busy with slots left, sets the
    /// processing status for the current slot and yields the request to
    /// perform for it.  When busy with no slot left, ends the run: the
    /// status becomes the completion message and the busy flag falls,
    /// whatever the slots' outcomes were.
    pub fn next_request(&mut self) -> (r: Option<SlotRequest>)
        requires
            old(self).inv(),
        ensures
            final(self).inv(),
            !old(self).busy ==> *final(self) == *old(self) && r is None,
            old(self).busy && old(self).next == old(self).items@.len() ==> r is None
                && !final(self).busy && final(self).status@ == done_status()
                && final(self).items == old(self).items
                && final(self).images == old(self).images
                && final(self).next == old(self).next,
            old(self).busy && old(self).next < old(self).items@.len() ==> (r matches Some(req)
                && req.url@ == old(self).endpoint@
                && req.body@ == generate_body_spec(old(self).current_item().prompt)
                && opt_view(req.auth_header) == opt_view(old(self).auth_header)
                && final(self).busy && final(self).next == old(self).next
                && final(self).items == old(self).items
                && final(self).endpoint == old(self).endpoint
                && final(self).auth_header == old(self).auth_header
                && final(self).images == old(self).images
                && final(self).status@ == processing_status_spec(
                old(self).current_item().key,
                old(self).next as nat + 1,
                old(self).items@.len(),
            )),
    {
        if !self.busy {
            return None;
        }
        let n: usize = self.items.len();
        if self.next == n {
            self.busy = false;
            self.status = String::from_str("Done ✅");
            return None;
        }
        let idx: usize = self.next;
        let mut st = String::from_str("Generating ");
        st.append(pretty_slot_name(self.items[idx].key.as_str()));
        st.append(" (");
        st.append(u64_to_dec((idx + 1) as u64).as_str());
        st.append("/");
        st.append(u64_to_dec(n as u64).as_str());
        st.append(")…");
        self.status = st;
        let auth: Option<String> = match &self.auth_header {
            Some(h) => Some(h.clone()),
            None => None,
        };
        Some(
            SlotRequest {
                url: self.endpoint.clone(),
                body: generate_body(self.items[idx].prompt.as_str()),
                auth_header: auth,
            },
        )
    }

    /// Records the outcome of the current slot's request and moves to
    /// the next slot.  A rendered outcome appends its asset to the run;
    /// a non-success response sets the failure status line; any other
    /// failure is swallowed.  No outcome ends or aborts the run.
    pub fn complete_current(&mut self, outcome: SlotOutcome)
        requires
            old(self).inv(),
            old(self).busy,
            old(self).next < old(self).items@.len(),
        ensures
            final(self).inv(),
            final(self).busy,
            final(self).next == old(self).next + 1,
            final(self).items == old(self).items,
            final(self).endpoint == old(self).endpoint,
            final(self).auth_header == old(self).auth_header,
            is_rendered(outcome) ==> images_view(final(self).images@)
                == images_view(old(self).images@).push(
                rendered_image_spec(old(self).current_item(), outcome),
            ) && final(self).status == old(self).status,
            outcome matches SlotOutcome::HttpFailed { status, body } ==> (final(self).images
                == old(self).images && final(self).status@ == http_failure_status_spec(
                old(self).current_item().key,
                status as nat,
                body@,
            )),
            (outcome is NetworkFailed || outcome is ReadFailed || outcome is PreviewFailed)
                ==> final(self).images == old(self).images && final(self).status == old(
                self,
            ).status,
    {
        let idx: usize = self.next;
        let n: usize = self.items.len();
        proof {
            assert(idx < n);
        }
        match outcome {
            SlotOutcome::Rendered { preview_url, png_url } => {
                let key: String = self.items[idx].key.clone();
                let mut download_filename = key.clone();
                download_filename.append(".png");
                let download_url: String = match png_url {
                    Some(u) => u,
                    None => preview_url.clone(),
                };
                let img = RenderedImage {
                    key,
                    preview_filename: self.items[idx].filename.clone(),
                    preview_url,
                    download_filename,
                    download_url,
                };
                self.images.push(img);
                proof {
                    assert(images_view(self.images@) =~= images_view(old(self).images@).push(
                        rendered_image_spec(old(self).current_item(), outcome),
                    ));
                }
            },
            SlotOutcome::HttpFailed { status, body } => {
                let mut st = String::from_str(pretty_slot_name(self.items[idx].key.as_str()));
                st.append(" failed: HTTP ");
                st.append(u64_to_dec(status as u64).as_str());
                st.append(" — ");
                st.append(body.as_str());
                self.status = st;
            },
            SlotOutcome::NetworkFailed => {},
            SlotOutcome::ReadFailed => {},
            SlotOutcome::PreviewFailed => {},
        }
        self.next = idx + 1;
    }
}

/// The assets a run over `items` with per-slot outcomes `outs`
/// produces: exactly one asset per rendered outcome, in slot order,
/// each built from its own item and outcome; failed slots contribute
/// nothing.
pub open spec fn images_spec(items: Seq<PromptItem>, outs: Seq<SlotOutcome>) -> Seq<
    RenderedImageView,
>
    recommends
        items.len() == outs.len(),
    decreases outs.len(),
{
    if outs.len() == 0 || items.len() == 0 {
        Seq::empty()
    } else {
        let pre = images_spec(items.drop_last(), outs.drop_last());
        if is_rendered(outs.last()) {
            pre.push(rendered_image_spec(items.last()@, outs.last()))
        } else {
            pre
        }
    }
}

/// How many outcomes are rendered.
pub open spec fn count_rendered(outs: Seq<SlotOutcome>) -> nat
    decreases outs.len(),
{
    if outs.len() == 0 {
        0
    } else {
        count_rendered(outs.drop_last()) + if is_rendered(outs.last()) {
            1nat
        } else {
            0nat
        }
    }
}

/// Partial-failure law, counting part: a run produces exactly as many
/// assets as there are non-failing slots, whichever subset of slots
/// fails.
pub proof fn lemma_partial_failure_count(items: Seq<PromptItem>, outs: Seq<SlotOutcome>)
    requires
        items.len() == outs.len(),
    ensures
        images_spec(items, outs).len() == count_rendered(outs),
    decreases outs.len(),
{
    if outs.len() > 0 {
        lemma_partial_failure_count(items.drop_last(), outs.drop_last());
    }
}

/// Drives one whole run: starts it, performs every slot in order with
/// its given outcome, and ends it.  Whatever subset of slots fails, the
/// run terminates with the busy flag down and the completion status,
/// and produces exactly the assets of the rendered outcomes, in slot
/// order.
pub fn run_batch(
    state: &mut BatchState,
    items: Vec<PromptItem>,
    endpoint: String,
    credential: &str,
    outcomes: Vec<SlotOutcome>,
) -> (requests: Vec<SlotRequest>)
    requires
        old(state).inv(),
        !old(state).busy,
        outcomes@.len() == items@.len(),
    ensures
        final(state).inv(),
        !final(state).busy,
        final(state).status@ == done_status(),
        images_view(final(state).images@) == images_spec(items@, outcomes@),
        requests@.len() == items@.len(),
        forall|j: int|
            0 <= j < requests@.len() ==> requests@[j].url@ == endpoint@ && requests@[j].body@
                == generate_body_spec((items@[j])@.prompt) && opt_view(requests@[j].auth_header)
                == auth_header_spec(credential@),
{
    let ghost gitems: Seq<PromptItem> = items@;
    let ghost gouts: Seq<SlotOutcome> = outcomes@;
    let n: usize = items.len();
    let mut outcomes = outcomes;
    let mut requests: Vec<SlotRequest> = Vec::new();
    let started = state.start(items, endpoint, credential);
    let mut i: usize = 0;
    while i < n
        invariant
            state.inv(),
            state.busy,
            state.next == i,
            i <= n,
            state.items@ == gitems,
            gitems.len() == n,
            gouts.len() == n,
            outcomes@ == gouts.skip(i as int),
            requests@.len() == i,
            state.endpoint@ == endpoint@,
            opt_view(state.auth_header) == auth_header_spec(credential@),
            forall|j: int|
                0 <= j < i ==> requests@[j].url@ == endpoint@ && requests@[j].body@
                    == generate_body_spec((gitems[j])@.prompt) && opt_view(
                    requests@[j].auth_header,
                ) == auth_header_spec(credential@),
            images_view(state.images@) == images_spec(gitems.take(i as int), gouts.take(i as int)),
        decreases n - i,
    {
        let req = state.next_request();
        match req {
            Some(r) => requests.push(r),
            None => {},
        }
        let outcome: SlotOutcome = outcomes.remove(0);
        proof {
            assert(outcome == gouts[i as int]);
            assert(gouts.skip(i as int).remove(0) =~= gouts.skip(i as int + 1));
        }
        state.complete_current(outcome);
        i = i + 1;
        proof {
            assert(gouts.take(i as int).drop_last() =~= gouts.take(i as int - 1));
            assert(gitems.take(i as int).drop_last() =~= gitems.take(i as int - 1));
            assert(gouts.take(i as int).last() == gouts[i as int - 1]);
            assert(gitems.take(i as int).last() == gitems[i as int - 1]);
            assert(images_view(state.images@) == images_spec(
                gitems.take(i as int),
                gouts.take(i as int),
            ));
        }
    }
    let _ = state.next_request();
    proof {
        assert(gitems.take(n as int) =~= gitems);
        assert(gouts.take(n as int) =~= gouts);
    }
    requests
}

} // verus!
