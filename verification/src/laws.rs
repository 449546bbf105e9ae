//! What holds of the dispatcher and its cache over sequences of events.

use vstd::prelude::*;
use crate::handler::{
    fresh_for, origin_for, passes_guards, Dispatch, LayoutParts, UnifiedPreviewHandler,
};
use crate::item::Item;
use crate::media::fitted_size;
use crate::text::{capped_file_text, file_marker, truncated_text, text_marker, FILE_LIMIT, TEXT_LIMIT};
use crate::widget::{next_token, PreviewWidget, RenderStatus};

verus! {

/// Whether two cache slots are both empty or hold the same preview with
/// nothing mounted and no load outstanding, whatever tokens were issued
/// before.
pub open spec fn slots_agree(a: Option<PreviewWidget>, b: Option<PreviewWidget>) -> bool {
    match (a, b) {
        (None, None) => true,
        (Some(x), Some(y)) => {
            &&& x.origin == y.origin
            &&& x.current_content@ == y.current_content@
            &&& x.owner == y.owner
            &&& x.status == y.status
            &&& x.is_clear()
            &&& y.is_clear()
            &&& x.drag_path is None
            &&& y.drag_path is None
            &&& x.released == y.released
        },
        _ => false,
    }
}

/// An event for content whose rendered preview is cached renders nothing and
/// tears nothing down: the answer is never `Render`, and the cached preview
/// stays as it is, status, content and outstanding load included.
pub proof fn law_same_fingerprint_reuses(
    pre: UnifiedPreviewHandler,
    post: UnifiedPreviewHandler,
    item: Item,
    ignored: Seq<String>,
    selected: Option<u64>,
    layout: LayoutParts,
)
    requires
        pre.holds(item.fingerprint()),
        pre.cached_preview->0.status == RenderStatus::Rendered,
        pre.handled(&post, &item, ignored, selected, layout),
    ensures
        !(pre.dispatch_of(&item, ignored, selected) is Render),
        pre.teardown_of(&item, ignored, selected) is None,
        passes_guards(&item, ignored, selected) ==> (pre.dispatch_of(&item, ignored, selected)
            == Dispatch::Reuse || pre.dispatch_of(&item, ignored, selected)
            == Dispatch::Unsupported),
        post.cached_preview matches Some(w) && w.status == pre.cached_preview->0.status
            && w.content == pre.cached_preview->0.content && w.pending
            == pre.cached_preview->0.pending && w.current_content
            == pre.cached_preview->0.current_content && w.issued == pre.cached_preview->0.issued,
{
}

/// Two events in a row for the same entry: if the first asked for rendering
/// and rendering succeeded, the second asks for none and reuses the preview.
pub proof fn law_second_dispatch_renders_nothing(
    first: UnifiedPreviewHandler,
    asked: UnifiedPreviewHandler,
    rendered: UnifiedPreviewHandler,
    item: Item,
    ignored: Seq<String>,
    selected: Option<u64>,
    layout: LayoutParts,
)
    requires
        first.dispatch_of(&item, ignored, selected) is Render,
        first.handled(&asked, &item, ignored, selected, layout),
        asked.cached_preview is Some,
        rendered.cached_preview matches Some(w) && w.same_surface(&asked.cached_preview->0)
            && w.status == RenderStatus::Rendered,
    ensures
        rendered.dispatch_of(&item, ignored, selected) == Dispatch::Reuse,
        rendered.teardown_of(&item, ignored, selected) is None,
{
}

/// An event that gets past the guards with a fingerprint other than the
/// cached one tears the cached preview down before anything is rendered: its
/// outstanding load is cancelled, its mounted node is reset and removed, and
/// the slot then holds a preview made for the entry, with nothing mounted and
/// no load outstanding, so that no token of the old preview is accepted.
pub proof fn law_changed_fingerprint_invalidates(
    pre: UnifiedPreviewHandler,
    post: UnifiedPreviewHandler,
    item: Item,
    ignored: Seq<String>,
    selected: Option<u64>,
    layout: LayoutParts,
)
    requires
        passes_guards(&item, ignored, selected),
        pre.cached_preview is Some,
        !pre.holds(item.fingerprint()),
        pre.handled(&post, &item, ignored, selected, layout),
    ensures
        pre.teardown_of(&item, ignored, selected) == Some(pre.cached_preview->0.teardown()),
        pre.teardown_of(&item, ignored, selected)->0.cancelled == pre.cached_preview->0.pending,
        pre.teardown_of(&item, ignored, selected)->0.removed
            == pre.cached_preview->0.content is Some,
        post.cached_preview matches Some(w) && fresh_for(&w, &item, origin_for(layout)),
        post.holds(item.fingerprint()),
        forall|token: u64, now: Option<u64>|
            !(#[trigger] post.cached_preview->0.accepts_image(token, now)),
        forall|token: u64| !(#[trigger] post.cached_preview->0.accepts_video(token)),
{
}

/// A selection event keeps the cache well formed: the load that is
/// outstanding afterwards, if any, is still the one issued last.
pub proof fn law_dispatch_keeps_well_formed(
    pre: UnifiedPreviewHandler,
    post: UnifiedPreviewHandler,
    item: Item,
    ignored: Seq<String>,
    selected: Option<u64>,
    layout: LayoutParts,
)
    requires
        pre.wf(),
        pre.handled(&post, &item, ignored, selected, layout),
    ensures
        post.wf(),
{
}

/// A decode that finishes when the selection is no longer the entry that the
/// preview was dispatched for is not accepted, whatever its token; neither is
/// one whose token is not the outstanding one.
pub proof fn law_stale_decode_is_discarded(w: PreviewWidget, token: u64, now: Option<u64>)
    requires
        now != Some(w.owner) || w.pending != Some(token),
    ensures
        !w.accepts_image(token, now),
{
}

/// A preview without an outstanding load accepts no result: once a load was
/// delivered or cancelled, nothing that finishes later touches the surface.
pub proof fn law_no_load_no_delivery(w: PreviewWidget)
    requires
        w.pending is None,
    ensures
        forall|token: u64, now: Option<u64>| !(#[trigger] w.accepts_image(token, now)),
        forall|token: u64| !(#[trigger] w.accepts_video(token)),
{
}

/// A load that is started on a well-formed preview gets a token other than
/// that of the load it replaced, so the replaced load is no longer the
/// outstanding one and its result is not accepted.
pub proof fn law_new_load_supersedes(before: PreviewWidget, after: PreviewWidget)
    requires
        before.wf(),
        after.issued == next_token(before.issued),
        after.pending == Some(after.issued),
    ensures
        after.wf(),
        before.pending is Some ==> !after.token_current(before.pending->0),
        forall|now: Option<u64>|
            before.pending is Some ==> !(#[trigger] after.accepts_image(before.pending->0, now)),
        before.pending is Some ==> !after.accepts_video(before.pending->0),
{
}

/// A reset context answers an event as a new one does: the same dispatch, no
/// teardown, and the same preview in the slot afterwards.
pub proof fn law_cleared_is_like_new(
    cleared: UnifiedPreviewHandler,
    new: UnifiedPreviewHandler,
    after_cleared: UnifiedPreviewHandler,
    after_new: UnifiedPreviewHandler,
    item: Item,
    ignored: Seq<String>,
    selected: Option<u64>,
    layout: LayoutParts,
)
    requires
        cleared.cached_preview is None,
        new.cached_preview is None,
        cleared.handled(&after_cleared, &item, ignored, selected, layout),
        new.handled(&after_new, &item, ignored, selected, layout),
    ensures
        cleared.dispatch_of(&item, ignored, selected) == new.dispatch_of(&item, ignored, selected),
        cleared.teardown_of(&item, ignored, selected) is None,
        new.teardown_of(&item, ignored, selected) is None,
        slots_agree(after_cleared.cached_preview, after_new.cached_preview),
{
}

/// Inline text is shown whole up to the limit and is cut to the limit, with
/// the marker behind it, from one character more.
pub proof fn law_text_limit(s: Seq<char>)
    ensures
        s.len() <= TEXT_LIMIT ==> truncated_text(s) == s,
        s.len() > TEXT_LIMIT ==> truncated_text(s).len() == TEXT_LIMIT + text_marker().len()
            && truncated_text(s).subrange(0, TEXT_LIMIT as int) == s.subrange(0, TEXT_LIMIT as int)
            && truncated_text(s).subrange(TEXT_LIMIT as int, truncated_text(s).len() as int)
            == text_marker(),
{
    if s.len() > TEXT_LIMIT {
        let head = s.subrange(0, TEXT_LIMIT as int);
        let t = truncated_text(s);
        assert(t.subrange(0, TEXT_LIMIT as int) =~= head);
        assert(t.subrange(TEXT_LIMIT as int, t.len() as int) =~= text_marker());
    }
}

/// A text file is shown whole up to the limit; a longer one ends with the
/// marker, behind a prefix of the file that is no longer than the limit and
/// ends at a line boundary.
pub proof fn law_file_limit(s: Seq<u8>)
    ensures
        s.len() <= FILE_LIMIT ==> capped_file_text(s) == s,
        s.len() > FILE_LIMIT ==> exists|k: int|
            0 <= k <= FILE_LIMIT && (k == 0 || s[k - 1] == 10u8) && capped_file_text(s)
                == #[trigger] s.subrange(0, k) + file_marker(),
{
    if s.len() > FILE_LIMIT {
        crate::text::lemma_line_end_before(s, FILE_LIMIT as int);
        let k = crate::text::line_end_before(s, FILE_LIMIT as int);
        assert(capped_file_text(s) == s.subrange(0, k) + file_marker());
    }
}

/// An image that is shown has at least one pixel each way and never exceeds
/// the bounds.
pub proof fn law_image_bounds(w: u32, h: u32)
    ensures
        1 <= fitted_size(w as int, h as int).0 <= 800,
        1 <= fitted_size(w as int, h as int).1 <= 600,
{
    crate::media::lemma_fitted_size(w as int, h as int);
}

} // verus!
