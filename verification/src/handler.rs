//! The dispatcher and its single-slot cache: for each selection event it
//! decides whether the cached preview is reused, torn down or rendered anew.

use vstd::prelude::*;
use vstd::string::*;
use crate::item::{is_ignored, kind_of_type, parse_preview_kind, provider_ignored, Item, PreviewKind};
use crate::widget::{
    no_teardown, PreviewError, PreviewWidget, RenderStatus, SurfaceOrigin, Teardown,
};

verus! {

/// What the supplied layout holds of the preview's mount point.
#[derive(Clone, Copy, Debug, PartialEq, Eq, Structural)]
pub struct LayoutParts {
    /// Whether it holds the preview container.
    pub has_box: bool,
    /// Whether it holds the preview stack.
    pub has_stack: bool,
}

/// What a selection event comes to.
#[derive(Clone, Copy, Debug, PartialEq, Eq, Structural)]
pub enum Dispatch {
    /// The entry's provider has no preview. Nothing changed.
    Ignored,
    /// The entry is not the selected one. Nothing changed.
    Stale,
    /// The preview type has no renderer. Nothing is rendered or mounted.
    Unsupported,
    /// The cached preview shows this content already: mount it as it is.
    Reuse,
    /// Rendering this content failed before and is not tried again. The
    /// target surface stays as it is.
    Failed(PreviewError),
    /// The cached preview is ready for this content: render it with the
    /// renderer named, on what `render_input` picks from the entry, then
    /// mount it if that succeeded.
    Render(PreviewKind),
}

/// The answer to a selection event.
#[derive(Clone, Copy, Debug, PartialEq, Eq, Structural)]
pub struct Outcome {
    pub dispatch: Dispatch,
    /// The teardown of the preview that was cached for other content. It
    /// comes before anything is rendered.
    pub teardown: Option<Teardown>,
}

/// What a renderer is given.
#[derive(Clone, Copy, Debug, PartialEq, Eq)]
pub enum RenderInput<'a> {
    /// Inline text with its preview type, for the text renderer.
    Text { text: &'a str, preview_type: &'a str },
    /// The path of the file, for the file renderer.
    File { path: &'a str },
    /// The shell command, for the command renderer.
    Command { command: &'a str },
}

/// What happens to the target surface once rendering is over.
#[derive(Clone, Copy, Debug, PartialEq, Eq, Structural)]
pub enum MountAction {
    /// The target surface stays as it is.
    Untouched,
    /// All children of the target surface are detached and the cached
    /// preview's surface is mounted in their place, visible or not.
    Replace { visible: bool },
}

/// The answer to a selection event at the entry point of the user interface.
#[derive(Clone, Debug, PartialEq, Eq)]
pub struct PreviewPlan {
    /// Style classes that the target surface gets in any case.
    pub classes: Vec<String>,
    pub outcome: Outcome,
}

/// The dispatcher of one execution context, with its cache slot.
#[derive(Clone, Debug, PartialEq, Eq)]
pub struct UnifiedPreviewHandler {
    /// The cache slot.
    pub cached_preview: Option<PreviewWidget>,
    /// The token issued last by the previews that were torn down.
    pub issued: u64,
}

/// The surface that a new preview gets: the layout's where it is whole, else
/// a minimal one.
pub open spec fn origin_for(layout: LayoutParts) -> SurfaceOrigin {
    if layout.has_box && layout.has_stack {
        SurfaceOrigin::Layout
    } else {
        SurfaceOrigin::Fallback
    }
}

/// Whether an event gets past the guards: its provider has previews and the
/// entry is the selected one.
pub open spec fn passes_guards(item: &Item, ignored: Seq<String>, selected: Option<u64>) -> bool {
    !provider_ignored(ignored, item.provider@) && item.selected_by(selected)
}

/// What happens to the target surface after rendering ended as `rendered`,
/// with the selection as it is now.
pub open spec fn mount_of(
    rendered: Result<(), PreviewError>,
    item: &Item,
    selected_now: Option<u64>,
) -> MountAction {
    match rendered {
        Ok(_) => MountAction::Replace { visible: item.selected_by(selected_now) },
        Err(_) => MountAction::Untouched,
    }
}

/// Whether `input` is what the renderer of `kind` is given for an entry: the
/// payload and the preview type for text and markup, the payload for a
/// command, and for a file the payload or, where that is empty, the fallback
/// text.
pub open spec fn is_input_of(input: RenderInput, item: &Item, kind: PreviewKind) -> bool {
    match kind {
        PreviewKind::Text | PreviewKind::Pango => input matches RenderInput::Text {
            text,
            preview_type,
        } && text@ == item.preview@ && preview_type@ == item.preview_type@,
        PreviewKind::File => input matches RenderInput::File { path } && path@
            == item.file_target(),
        PreviewKind::Command => input matches RenderInput::Command { command } && command@
            == item.preview@,
    }
}

/// Whether a preview is one that was just made for an entry: keyed by the
/// entry's fingerprint, with nothing rendered, mounted or outstanding.
pub open spec fn fresh_for(w: &PreviewWidget, item: &Item, origin: SurfaceOrigin) -> bool {
    &&& w.origin == origin
    &&& w.current_content@ == item.fingerprint()
    &&& w.owner == item.identity
    &&& w.status == RenderStatus::Fresh
    &&& w.is_clear()
    &&& w.drag_path is None
    &&& w.released == no_teardown()
}

impl UnifiedPreviewHandler {
    /// Whether the cached preview, if there is one, is well formed.
    pub open spec fn wf(&self) -> bool {
        self.cached_preview matches Some(w) ==> w.wf()
    }

    /// Tells whether the cached preview, if there is one, is well formed.
    pub fn is_well_formed(&self) -> (ok: bool)
        ensures
            ok == self.wf(),
    {
        match &self.cached_preview {
            Some(w) => w.is_well_formed(),
            None => true,
        }
    }

    /// Whether the slot holds a preview for this fingerprint.
    pub open spec fn holds(&self, key: Seq<char>) -> bool {
        self.cached_preview matches Some(w) && w.current_content@ == key
    }

    /// The token issued last in this context.
    pub open spec fn last_token(&self) -> u64 {
        match self.cached_preview {
            Some(w) => w.issued,
            None => self.issued,
        }
    }

    /// What a selection event comes to in this state.
    pub open spec fn dispatch_of(
        &self,
        item: &Item,
        ignored: Seq<String>,
        selected: Option<u64>,
    ) -> Dispatch {
        if provider_ignored(ignored, item.provider@) {
            Dispatch::Ignored
        } else if !item.selected_by(selected) {
            Dispatch::Stale
        } else {
            match kind_of_type(item.preview_type@) {
                None => Dispatch::Unsupported,
                Some(kind) => if self.holds(item.fingerprint()) {
                    match self.cached_preview->0.status {
                        RenderStatus::Rendered => Dispatch::Reuse,
                        RenderStatus::Failed(e) => Dispatch::Failed(e),
                        RenderStatus::Fresh => Dispatch::Render(kind),
                    }
                } else {
                    Dispatch::Render(kind)
                },
            }
        }
    }

    /// The teardown that a selection event causes in this state: that of the
    /// cached preview, where the event gets past the guards and the preview
    /// was made for other content.
    pub open spec fn teardown_of(
        &self,
        item: &Item,
        ignored: Seq<String>,
        selected: Option<u64>,
    ) -> Option<Teardown> {
        if passes_guards(item, ignored, selected) && self.cached_preview is Some && !self.holds(
            item.fingerprint(),
        ) {
            Some(self.cached_preview->0.teardown())
        } else {
            None
        }
    }

    /// Whether `post` is this state after a selection event. An event that
    /// the guards stop changes nothing. After any other the slot holds a
    /// preview for the entry's fingerprint, as `entered` says.
    pub open spec fn handled(
        &self,
        post: &UnifiedPreviewHandler,
        item: &Item,
        ignored: Seq<String>,
        selected: Option<u64>,
        layout: LayoutParts,
    ) -> bool {
        if !passes_guards(item, ignored, selected) {
            *post == *self
        } else {
            self.entered(post, item, layout)
        }
    }

    /// A dispatcher with an empty slot.
    pub fn new() -> (made: Self)
        ensures
            made.cached_preview is None,
            made.issued == 0,
            made.wf(),
    {
        UnifiedPreviewHandler { cached_preview: None, issued: 0 }
    }

    /// Empties the slot. The result is the teardown of the preview that was
    /// cached, if one was.
    pub fn clear_cache(&mut self) -> (steps: Option<Teardown>)
        ensures
            final(self).cached_preview is None,
            final(self).wf(),
            final(self).issued == old(self).last_token(),
            steps == match old(self).cached_preview {
                Some(w) => Some(w.teardown()),
                None => None,
            },
    {
        match self.cached_preview.take() {
            Some(w) => {
                let mut w = w;
                let steps = w.clear_preview();
                self.issued = w.issued;
                Some(steps)
            },
            None => None,
        }
    }

    /// Makes the preview for a fingerprint: on the layout's surface where the
    /// layout is whole, else on a minimal one.
    fn make_entry(key: String, owner: u64, layout: LayoutParts, issued: u64) -> (made:
        PreviewWidget)
        ensures
            made.origin == origin_for(layout),
            made.current_content == key,
            made.owner == owner,
            made.status == RenderStatus::Fresh,
            made.is_clear(),
            made.drag_path is None,
            made.released == no_teardown(),
            made.issued == issued,
            made.wf(),
    {
        let built = match PreviewWidget::new_with_builder(layout.has_box, layout.has_stack) {
            Ok(w) => Ok(w),
            Err(_) => PreviewWidget::new(),
        };
        let mut made = built.unwrap();
        made.current_content = key;
        made.owner = owner;
        made.issued = issued;
        made
    }

    /// Whether `post` is this state once the slot holds a preview for the
    /// entry's fingerprint: the cached one where it was made for that
    /// fingerprint, else one just made. Either way the preview is now
    /// dispatched for this entry, and token numbering goes on where it was.
    pub open spec fn entered(
        &self,
        post: &UnifiedPreviewHandler,
        item: &Item,
        layout: LayoutParts,
    ) -> bool {
        &&& post.last_token() == self.last_token()
        &&& if self.holds(item.fingerprint()) {
            post.cached_preview == Some(
                PreviewWidget { owner: item.identity, ..self.cached_preview->0 },
            )
        } else {
            post.cached_preview matches Some(w) && fresh_for(&w, item, origin_for(layout))
        }
    }

    /// Makes sure that the slot holds a preview for the entry's fingerprint.
    /// A preview cached for another fingerprint is torn down first, and the
    /// result is its teardown.
    pub fn get_or_create(&mut self, item: &Item, layout: LayoutParts) -> (steps: Option<Teardown>)
        ensures
            old(self).wf() ==> final(self).wf(),
            old(self).entered(final(self), item, layout),
            steps == (if old(self).cached_preview is Some && !old(self).holds(item.fingerprint()) {
                Some(old(self).cached_preview->0.teardown())
            } else {
                None
            }),
    {
        let key = item.content_fingerprint();
        let mut steps: Option<Teardown> = None;
        let mut entry = match self.cached_preview.take() {
            Some(cached) => {
                if cached.current_content == key {
                    cached
                } else {
                    let mut stale = cached;
                    steps = Some(stale.clear_preview());
                    Self::make_entry(key, item.identity, layout, stale.issued)
                }
            },
            None => Self::make_entry(key, item.identity, layout, self.issued),
        };
        entry.owner = item.identity;
        self.cached_preview = Some(entry);
        steps
    }

    /// Decides what a selection event comes to. The caller passes the set of
    /// providers without preview and the selection as they are now, and what
    /// the layout supplies. Where the answer is `Render`, the caller renders
    /// into the cached preview and then asks `mount_action`.
    pub fn handle(
        &mut self,
        item: &Item,
        ignored: &Vec<String>,
        selected: Option<u64>,
        layout: LayoutParts,
    ) -> (out: Outcome)
        ensures
            out.dispatch == old(self).dispatch_of(item, ignored@, selected),
            out.teardown == old(self).teardown_of(item, ignored@, selected),
            old(self).handled(final(self), item, ignored@, selected, layout),
            old(self).wf() ==> final(self).wf(),
    {
        if is_ignored(ignored, item.provider.as_str()) {
            return Outcome { dispatch: Dispatch::Ignored, teardown: None };
        }
        if !item.is_selected(selected) {
            return Outcome { dispatch: Dispatch::Stale, teardown: None };
        }
        let teardown = self.get_or_create(item, layout);
        let status = match &self.cached_preview {
            Some(entry) => entry.status,
            None => RenderStatus::Fresh,
        };
        let dispatch = match parse_preview_kind(item.preview_type.as_str()) {
            None => Dispatch::Unsupported,
            Some(kind) => match status {
                RenderStatus::Rendered => Dispatch::Reuse,
                RenderStatus::Failed(e) => Dispatch::Failed(e),
                RenderStatus::Fresh => Dispatch::Render(kind),
            },
        };
        Outcome { dispatch, teardown }
    }
}

/// Picks what the renderer of `kind` is given for an entry.
pub fn render_input<'a>(item: &'a Item, kind: PreviewKind) -> (input: RenderInput<'a>)
    ensures
        is_input_of(input, item, kind),
{
    match kind {
        PreviewKind::Text | PreviewKind::Pango => RenderInput::Text {
            text: item.preview.as_str(),
            preview_type: item.preview_type.as_str(),
        },
        PreviewKind::File => RenderInput::File { path: item.target_path() },
        PreviewKind::Command => RenderInput::Command { command: item.preview.as_str() },
    }
}

/// Decides what happens to the target surface once rendering is over: after
/// a failure it stays untouched, after a success its children are replaced by
/// the cached preview, which is visible only if the entry is still the
/// selected one.
pub fn mount_action(rendered: &Result<(), PreviewError>, item: &Item, selected_now: Option<u64>) -> (action:
    MountAction)
    ensures
        action == mount_of(*rendered, item, selected_now),
{
    match rendered {
        Ok(_) => MountAction::Replace { visible: item.is_selected(selected_now) },
        Err(_) => MountAction::Untouched,
    }
}

/// Entry point for a selection event: the target surface gets its style
/// classes, `preview-content` and the provider's tag, and the event is
/// dispatched.
pub fn handle_preview(
    handler: &mut UnifiedPreviewHandler,
    item: &Item,
    ignored: &Vec<String>,
    selected: Option<u64>,
    layout: LayoutParts,
) -> (plan: PreviewPlan)
    ensures
        plan.classes@.len() == 2,
        plan.classes@[0]@ == "preview-content"@,
        plan.classes@[1]@ == item.provider@,
        plan.outcome.dispatch == old(handler).dispatch_of(item, ignored@, selected),
        plan.outcome.teardown == old(handler).teardown_of(item, ignored@, selected),
        old(handler).handled(final(handler), item, ignored@, selected, layout),
        old(handler).wf() ==> final(handler).wf(),
{
    let mut classes: Vec<String> = Vec::new();
    classes.push(String::from_str("preview-content"));
    classes.push(String::from_str(item.provider.as_str()));
    let outcome = handler.handle(item, ignored, selected, layout);
    PreviewPlan { classes, outcome }
}

/// Resets the context: whatever is cached is torn down and the slot is
/// empty afterwards.
pub fn clear_all_caches(handler: &mut UnifiedPreviewHandler) -> (steps: Option<Teardown>)
    ensures
        final(handler).cached_preview is None,
        final(handler).wf(),
        final(handler).issued == old(handler).last_token(),
        steps == match old(handler).cached_preview {
            Some(w) => Some(w.teardown()),
            None => None,
        },
{
    handler.clear_cache()
}

} // verus!
