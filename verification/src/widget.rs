//! The cached preview: what is mounted in it, which load is outstanding, and
//! one operation per content type that fills it.

use vstd::prelude::*;
use vstd::string::*;
use crate::item::{absolute_path, is_absolute_path};
use crate::media::{
    file_kind, fit_image, fitted_size, guessed_media_type, kind_of_media, swap_red_blue,
    swapped_channels, FileKind, VIDEO_DEBOUNCE_MS,
};
use crate::text::{
    cap_text_file, capped_file_text, combine_output, combined_output, same_text, truncate_text,
    truncated_text,
};

verus! {

/// Why a preview could not be produced.
#[derive(Clone, Copy, Debug, PartialEq, Eq, Structural)]
pub enum PreviewError {
    /// The file is missing.
    NotFound,
    /// A backend rejected the content.
    DecodeFailure,
    /// The command could not be executed.
    SpawnFailure,
    /// A required mount point is missing from the supplied layout.
    StructuralFailure,
    /// The preview type has no renderer.
    Unsupported,
}

/// Where the rendering surface of a cached preview came from.
#[derive(Clone, Copy, Debug, PartialEq, Eq, Structural)]
pub enum SurfaceOrigin {
    /// The container and stack that the layout supplied.
    Layout,
    /// A minimal container built for the purpose.
    Fallback,
}

/// How far the picture of an image preview has come.
#[derive(Clone, Copy, Debug, PartialEq, Eq, Structural)]
pub enum ImageState {
    /// The placeholder is mounted and the decode is outstanding.
    Loading,
    /// The decoded image is shown at this size.
    Decoded { width: u32, height: u32 },
    /// Decoding failed and the display's own loader was given the file.
    Native,
}

/// The rendered first page of a document.
#[derive(Clone, Debug, PartialEq, Eq)]
pub struct PageImage {
    pub width: u32,
    pub height: u32,
    /// Bytes per row.
    pub stride: u64,
    /// Pixels of four bytes, red first.
    pub pixels: Vec<u8>,
}

/// The one display node that a cached preview mounts.
#[derive(Clone, Debug, PartialEq, Eq)]
pub enum RenderOutput {
    /// Scrollable text built from a string.
    Text { display: String, markup: bool, monospace: bool },
    /// Scrollable monospaced text built from the bytes of a file.
    FileText { bytes: Vec<u8> },
    /// Scrollable image surface.
    Image { state: ImageState },
    /// Document surface that scrolls vertically only.
    Document { page: Option<PageImage> },
    /// Scrollable surface for a media player, mounted once the quiet period
    /// is over.
    Media { mounted: bool },
    /// Scrollable surface with nothing in it.
    Scroller,
    /// Icon block: the file's own icon, or the generic document icon.
    Icon { system: bool },
}

/// When a scrollable surface shows a scroll bar in one direction.
#[derive(Clone, Copy, Debug, PartialEq, Eq, Structural)]
pub enum ScrollPolicy {
    /// Where the content does not fit.
    Automatic,
    /// Never: the content is not scrolled in this direction.
    Never,
}

/// How a mounted node presents its content.
#[derive(Clone, Copy, Debug, PartialEq, Eq, Structural)]
pub struct Presentation {
    /// Whether the node is a scrollable surface.
    pub scrolls: bool,
    /// Scroll policy from side to side.
    pub horizontal: ScrollPolicy,
    /// Scroll policy up and down.
    pub vertical: ScrollPolicy,
    /// Text can be selected.
    pub selectable: bool,
    /// Text can be edited.
    pub editable: bool,
    /// Text is set in a monospaced face.
    pub monospace: bool,
    /// Text is wrapped at word boundaries.
    pub wrap_words: bool,
    /// Media starts to play when it is mounted.
    pub autoplay: bool,
}

/// What a mounted node has to give up before it is removed.
#[derive(Clone, Copy, Debug, PartialEq, Eq, Structural)]
pub enum ResetStep {
    /// Empty the text buffer.
    ClearText,
    /// Detach the picture from its image.
    DetachImage,
    /// Detach the player from its media.
    DetachMedia,
    /// Clear the icon.
    ClearIcon,
}

/// What tearing a preview down involves, in this order: cancel the load, reset
/// the mounted node, remove it.
#[derive(Clone, Copy, Debug, PartialEq, Eq, Structural)]
pub struct Teardown {
    /// The load to cancel.
    pub cancelled: Option<u64>,
    /// The reset that the mounted node needs before removal.
    pub reset: Option<ResetStep>,
    /// Whether a node was mounted and is removed.
    pub removed: bool,
}

/// How far the rendering of a cached preview has come.
#[derive(Clone, Copy, Debug, PartialEq, Eq, Structural)]
pub enum RenderStatus {
    /// Nothing was rendered into it yet.
    Fresh,
    /// Its content is rendered and can be mounted.
    Rendered,
    /// Rendering failed; it is not tried again for the same content.
    Failed(PreviewError),
}

/// A load that was started, and the one it replaced.
#[derive(Clone, Copy, Debug, PartialEq, Eq, Structural)]
pub struct LoadStart {
    /// Token of the new load.
    pub token: u64,
    /// Token of the load that was outstanding and is cancelled first.
    pub cancelled: Option<u64>,
    /// Quiet period, in milliseconds, before the load's result is due.
    pub delay_ms: u64,
}

/// What becomes of a decode that finished.
#[derive(Clone, Copy, Debug, PartialEq, Eq, Structural)]
pub enum ImageDelivery {
    /// The result is dropped and the surface is not touched.
    Discarded,
    /// The decoded image is shown, scaled to this size.
    Texture { width: u32, height: u32 },
    /// Decoding failed: the display's own loader gets the file.
    NativeLoader,
}

/// The cached preview.
#[derive(Clone, Debug, PartialEq, Eq)]
pub struct PreviewWidget {
    pub origin: SurfaceOrigin,
    /// Fingerprint of the content that it was made for.
    pub current_content: String,
    /// Identity of the entry that it was last dispatched for.
    pub owner: u64,
    pub status: RenderStatus,
    /// The mounted node.
    pub content: Option<RenderOutput>,
    /// Token of the outstanding load.
    pub pending: Option<u64>,
    /// The token issued last.
    pub issued: u64,
    /// The path that the drag affordance carries.
    pub drag_path: Option<String>,
    /// What the last call that cleared the preview tore down. Whoever owns
    /// the display performs it before the new content is built: cancel the
    /// load, reset the node, remove it.
    pub released: Teardown,
}

/// The teardown that involves nothing.
pub open spec fn no_teardown() -> Teardown {
    Teardown { cancelled: None, reset: None, removed: false }
}

/// The token that follows `t`.
pub open spec fn next_token(t: u64) -> u64 {
    if t == u64::MAX {
        0
    } else {
        (t + 1) as u64
    }
}

/// The reset that a mounted node needs before it is removed.
pub open spec fn reset_for(content: Option<RenderOutput>) -> Option<ResetStep> {
    match content {
        Some(RenderOutput::Text { .. }) => Some(ResetStep::ClearText),
        Some(RenderOutput::FileText { .. }) => Some(ResetStep::ClearText),
        Some(RenderOutput::Image { .. }) => Some(ResetStep::DetachImage),
        Some(RenderOutput::Document { .. }) => Some(ResetStep::DetachImage),
        Some(RenderOutput::Media { mounted }) => if mounted {
            Some(ResetStep::DetachMedia)
        } else {
            None
        },
        Some(RenderOutput::Scroller) => None,
        Some(RenderOutput::Icon { .. }) => Some(ResetStep::ClearIcon),
        None => None,
    }
}

/// How each kind of node presents its content. Inline text is selectable and
/// wrapped; file text and command output are monospaced, wrapped and cannot
/// be edited; a document scrolls vertically only; media plays at once; the
/// icon block does not scroll.
pub open spec fn presentation_of(content: RenderOutput) -> Presentation {
    let plain = Presentation {
        scrolls: true,
        horizontal: ScrollPolicy::Automatic,
        vertical: ScrollPolicy::Automatic,
        selectable: false,
        editable: false,
        monospace: false,
        wrap_words: false,
        autoplay: false,
    };
    match content {
        RenderOutput::Text { monospace, .. } => Presentation {
            selectable: !monospace,
            monospace,
            wrap_words: true,
            ..plain
        },
        RenderOutput::FileText { .. } => Presentation { monospace: true, wrap_words: true, ..plain },
        RenderOutput::Image { .. } => plain,
        RenderOutput::Document { .. } => Presentation { horizontal: ScrollPolicy::Never, ..plain },
        RenderOutput::Media { .. } => Presentation { autoplay: true, ..plain },
        RenderOutput::Scroller => plain,
        RenderOutput::Icon { .. } => Presentation { scrolls: false, ..plain },
    }
}

/// Whether a scrollable surface is mounted.
pub open spec fn scrollable(content: Option<RenderOutput>) -> bool {
    content is Some && presentation_of(content->0).scrolls
}

/// The result of scaling a decoded image, or the failure to decode.
pub open spec fn resized(decoded: Option<(u32, u32)>) -> Result<(int, int), PreviewError> {
    match decoded {
        Some(size) => Ok(fitted_size(size.0 as int, size.1 as int)),
        None => Err(PreviewError::DecodeFailure),
    }
}

impl RenderOutput {
    /// Tells how this node presents its content.
    pub fn presentation(&self) -> (shown: Presentation)
        ensures
            shown == presentation_of(*self),
    {
        let plain = Presentation {
            scrolls: true,
            horizontal: ScrollPolicy::Automatic,
            vertical: ScrollPolicy::Automatic,
            selectable: false,
            editable: false,
            monospace: false,
            wrap_words: false,
            autoplay: false,
        };
        match self {
            RenderOutput::Text { monospace, .. } => Presentation {
                selectable: !*monospace,
                monospace: *monospace,
                wrap_words: true,
                ..plain
            },
            RenderOutput::FileText { .. } => Presentation {
                monospace: true,
                wrap_words: true,
                ..plain
            },
            RenderOutput::Image { .. } => plain,
            RenderOutput::Document { .. } => Presentation {
                horizontal: ScrollPolicy::Never,
                ..plain
            },
            RenderOutput::Media { .. } => Presentation { autoplay: true, ..plain },
            RenderOutput::Scroller => plain,
            RenderOutput::Icon { .. } => Presentation { scrolls: false, ..plain },
        }
    }
}

impl PreviewWidget {
    /// What the teardown of this preview involves.
    pub open spec fn teardown(&self) -> Teardown {
        Teardown {
            cancelled: self.pending,
            reset: reset_for(self.content),
            removed: self.content is Some,
        }
    }

    /// Whether `o` is this preview but for its status, content and loads.
    pub open spec fn same_surface(&self, o: &PreviewWidget) -> bool {
        &&& self.origin == o.origin
        &&& self.current_content == o.current_content
        &&& self.owner == o.owner
        &&& self.drag_path == o.drag_path
    }

    /// Whether the preview is well formed: a load that is outstanding is the
    /// one whose token was issued last.
    pub open spec fn wf(&self) -> bool {
        self.pending is Some ==> self.pending == Some(self.issued)
    }

    /// Whether nothing is mounted and no load is outstanding.
    pub open spec fn is_clear(&self) -> bool {
        self.content is None && self.pending is None
    }

    /// Whether `o` is this preview after a rendering that starts no load: the
    /// same surface, cleared first, with no token issued, and with the
    /// teardown of what was mounted noted in `released`.
    pub open spec fn rendered_from(&self, o: &PreviewWidget) -> bool {
        &&& self.same_surface(o)
        &&& self.pending is None
        &&& self.issued == o.issued
        &&& self.released == o.teardown()
    }

    /// Whether `o` is this preview after a rendering that failed before it
    /// produced anything: what is mounted and the outstanding load are as
    /// they were, nothing was torn down, and the failure is noted.
    pub open spec fn failed_from(&self, o: &PreviewWidget, e: PreviewError) -> bool {
        &&& self.same_surface(o)
        &&& self.content == o.content
        &&& self.pending == o.pending
        &&& self.issued == o.issued
        &&& self.released == no_teardown()
        &&& self.status == RenderStatus::Failed(e)
    }

    /// Whether the load with this token is the outstanding one.
    pub open spec fn token_current(&self, token: u64) -> bool {
        self.pending == Some(token)
    }

    /// Whether a decode that finishes now is applied: its load is the
    /// outstanding one, the placeholder is still mounted, and the selection
    /// is still the entry that the preview was dispatched for.
    pub open spec fn accepts_image(&self, token: u64, selected: Option<u64>) -> bool {
        &&& self.token_current(token)
        &&& selected == Some(self.owner)
        &&& self.content == Some(RenderOutput::Image { state: ImageState::Loading })
    }

    /// Whether a quiet period that ends now mounts the player: its load is
    /// the outstanding one and the surface still waits for the player.
    pub open spec fn accepts_video(&self, token: u64) -> bool {
        &&& self.token_current(token)
        &&& self.content == Some(RenderOutput::Media { mounted: false })
    }

    /// Tells whether the preview is well formed.
    pub fn is_well_formed(&self) -> (ok: bool)
        ensures
            ok == self.wf(),
    {
        match self.pending {
            Some(token) => token == self.issued,
            None => true,
        }
    }

    /// A preview on the surface that the layout supplies. It needs both the
    /// container and the stack.
    pub fn new_with_builder(has_box: bool, has_stack: bool) -> (made: Result<Self, PreviewError>)
        ensures
            made is Ok <==> has_box && has_stack,
            made is Err ==> made == Err::<Self, PreviewError>(PreviewError::StructuralFailure),
            made is Ok ==> made->Ok_0.is_new(SurfaceOrigin::Layout) && made->Ok_0.wf(),
    {
        if has_box && has_stack {
            Ok(Self::fresh(SurfaceOrigin::Layout))
        } else {
            Err(PreviewError::StructuralFailure)
        }
    }

    /// A preview on a minimal surface of its own. This cannot fail.
    pub fn new() -> (made: Result<Self, PreviewError>)
        ensures
            made is Ok,
            made->Ok_0.is_new(SurfaceOrigin::Fallback),
            made->Ok_0.wf(),
    {
        Ok(Self::fresh(SurfaceOrigin::Fallback))
    }

    /// Whether this is a preview as it is made: for no content yet, with
    /// nothing mounted and no token issued.
    pub open spec fn is_new(&self, origin: SurfaceOrigin) -> bool {
        &&& self.origin == origin
        &&& self.current_content@ == Seq::<char>::empty()
        &&& self.owner == 0
        &&& self.status == RenderStatus::Fresh
        &&& self.is_clear()
        &&& self.issued == 0
        &&& self.drag_path is None
        &&& self.released == no_teardown()
    }

    fn fresh(origin: SurfaceOrigin) -> (made: Self)
        ensures
            made.is_new(origin),
    {
        PreviewWidget {
            origin,
            current_content: String::new(),
            owner: 0,
            status: RenderStatus::Fresh,
            content: None,
            pending: None,
            issued: 0,
            drag_path: None,
            released: Teardown { cancelled: None, reset: None, removed: false },
        }
    }

    /// Tears the preview down: the outstanding load is cancelled, the mounted
    /// node is reset and removed. The result says what that involved, and so
    /// does `released`.
    pub fn clear_preview(&mut self) -> (steps: Teardown)
        ensures
            steps == old(self).teardown(),
            final(self).released == steps,
            final(self).wf(),
            final(self).is_clear(),
            final(self).status == RenderStatus::Fresh,
            final(self).same_surface(old(self)),
            final(self).issued == old(self).issued,
    {
        let cancelled = self.pending;
        let (reset, removed) = match &self.content {
            Some(RenderOutput::Text { .. }) => (Some(ResetStep::ClearText), true),
            Some(RenderOutput::FileText { .. }) => (Some(ResetStep::ClearText), true),
            Some(RenderOutput::Image { .. }) => (Some(ResetStep::DetachImage), true),
            Some(RenderOutput::Document { .. }) => (Some(ResetStep::DetachImage), true),
            Some(RenderOutput::Media { mounted }) => if *mounted {
                (Some(ResetStep::DetachMedia), true)
            } else {
                (None, true)
            },
            Some(RenderOutput::Scroller) => (None, true),
            Some(RenderOutput::Icon { .. }) => (Some(ResetStep::ClearIcon), true),
            None => (None, false),
        };
        let steps = Teardown { cancelled, reset, removed };
        self.pending = None;
        self.content = None;
        self.status = RenderStatus::Fresh;
        self.released = steps;
        steps
    }

    /// The scrollable surface that is mounted; where none is, an empty one is
    /// mounted in place of what was there. The result says whether it had to
    /// be made; `released` then says what the node it replaced gives up.
    pub fn get_or_create_scrolled(&mut self) -> (created: bool)
        ensures
            created == !scrollable(old(self).content),
            old(self).wf() ==> final(self).wf(),
            !created ==> *final(self) == *old(self),
            created ==> final(self).content == Some(RenderOutput::Scroller)
                && final(self).released == (Teardown {
                cancelled: None,
                reset: reset_for(old(self).content),
                removed: old(self).content is Some,
            }),
            final(self).same_surface(old(self)),
            final(self).pending == old(self).pending,
            final(self).issued == old(self).issued,
            final(self).status == old(self).status,
    {
        let (reuse, reset, removed) = match &self.content {
            Some(RenderOutput::Icon { .. }) => (false, Some(ResetStep::ClearIcon), true),
            Some(_) => (true, None, true),
            None => (false, None, false),
        };
        if !reuse {
            self.content = Some(RenderOutput::Scroller);
            self.released = Teardown { cancelled: None, reset, removed };
        }
        !reuse
    }

    /// Renders inline text or markup: selectable wrapped text, cut at the
    /// limit. Markup is interpreted for `pango` only.
    pub fn preview_text(&mut self, text: &str, pt: &str) -> (done: Result<(), PreviewError>)
        ensures
            done is Ok,
            final(self).rendered_from(old(self)),
            final(self).wf(),
            final(self).status == RenderStatus::Rendered,
            final(self).content matches Some(RenderOutput::Text { display, markup, monospace })
                && display@ == truncated_text(text@) && markup == (pt@ == "pango"@) && !monospace,
    {
        self.clear_preview();
        let display = truncate_text(text);
        let markup = same_text(pt, "pango");
        self.content = Some(RenderOutput::Text { display, markup, monospace: false });
        self.status = RenderStatus::Rendered;
        Ok(())
    }

    /// Renders the bytes read from a text file, capped, as monospaced text
    /// that cannot be edited. A file that could not be read fails with the
    /// error given, and what is mounted stays.
    pub fn preview_text_file(&mut self, read: Result<Vec<u8>, PreviewError>) -> (done: Result<
        (),
        PreviewError,
    >)
        ensures
            old(self).wf() ==> final(self).wf(),
            match read {
                Ok(bytes) => {
                    &&& done is Ok
                    &&& final(self).rendered_from(old(self))
                    &&& final(self).status == RenderStatus::Rendered
                    &&& final(self).content matches Some(RenderOutput::FileText { bytes: shown })
                        && shown@ == capped_file_text(bytes@)
                },
                Err(e) => {
                    &&& done == Err::<(), PreviewError>(e)
                    &&& final(self).failed_from(old(self), e)
                },
            },
    {
        match read {
            Ok(bytes) => {
                self.clear_preview();
                let shown = cap_text_file(&bytes);
                self.content = Some(RenderOutput::FileText { bytes: shown });
                self.status = RenderStatus::Rendered;
                Ok(())
            },
            Err(e) => {
                self.fail(e);
                Err(e)
            },
        }
    }

    /// Renders what a command printed, as monospaced word-wrapped text that
    /// cannot be edited. The preview is cleared before the command runs, so
    /// after a command that could not be executed, which `None` says, nothing
    /// is shown.
    pub fn preview_command(&mut self, output: Option<(String, String)>) -> (done: Result<
        (),
        PreviewError,
    >)
        ensures
            final(self).rendered_from(old(self)),
            final(self).wf(),
            match output {
                Some(out) => {
                    &&& done is Ok
                    &&& final(self).status == RenderStatus::Rendered
                    &&& final(self).content matches Some(
                        RenderOutput::Text { display, markup, monospace },
                    ) && display@ == combined_output(out.0@, out.1@) && !markup && monospace
                },
                None => {
                    &&& done == Err::<(), PreviewError>(PreviewError::SpawnFailure)
                    &&& final(self).status == RenderStatus::Failed(PreviewError::SpawnFailure)
                    &&& final(self).content is None
                },
            },
    {
        self.clear_preview();
        match output {
            Some(out) => {
                let display = combine_output(out.0.as_str(), out.1.as_str());
                self.content = Some(
                    RenderOutput::Text { display, markup: false, monospace: true },
                );
                self.status = RenderStatus::Rendered;
                Ok(())
            },
            None => {
                self.status = RenderStatus::Failed(PreviewError::SpawnFailure);
                Err(PreviewError::SpawnFailure)
            },
        }
    }

    /// First step of a file preview. Existence is resolved first: for a file
    /// that does not exist the call fails and nothing else happens. For one
    /// that exists the preview is cleared, an absolute path gets a drag
    /// affordance, and the result says by the path's media type which
    /// renderer comes next.
    pub fn preview_file(&mut self, file_path: &str, exists: bool) -> (next: Result<
        FileKind,
        PreviewError,
    >)
        ensures
            old(self).wf() ==> final(self).wf(),
            final(self).origin == old(self).origin,
            final(self).current_content == old(self).current_content,
            final(self).owner == old(self).owner,
            final(self).issued == old(self).issued,
            !exists ==> next == Err::<FileKind, PreviewError>(PreviewError::NotFound)
                && final(self).failed_from(old(self), PreviewError::NotFound),
            exists ==> next == Ok::<FileKind, PreviewError>(
                kind_of_media(guessed_media_type(file_path@)),
            ) && final(self).status == RenderStatus::Fresh && final(self).is_clear()
                && final(self).released == old(self).teardown(),
            exists && absolute_path(file_path@) ==> (final(self).drag_path matches Some(p) && p@
                == file_path@),
            exists && !absolute_path(file_path@) ==> final(self).drag_path == old(self).drag_path,
    {
        if !exists {
            self.fail(PreviewError::NotFound);
            return Err(PreviewError::NotFound);
        }
        self.clear_preview();
        if is_absolute_path(file_path) {
            self.drag_path = Some(String::from_str(file_path));
        }
        Ok(file_kind(file_path))
    }

    /// Notes a failure that came before anything was produced.
    fn fail(&mut self, e: PreviewError)
        ensures
            final(self).failed_from(old(self), e),
            old(self).wf() ==> final(self).wf(),
    {
        self.status = RenderStatus::Failed(e);
        self.released = Teardown { cancelled: None, reset: None, removed: false };
    }

    /// Starts a load: the outstanding one is cancelled and dropped, then a
    /// new token is issued.
    fn start_load(&mut self, delay_ms: u64) -> (start: LoadStart)
        ensures
            start.cancelled == old(self).pending,
            old(self).wf() ==> start.cancelled != Some(start.token),
            final(self).wf(),
            start.delay_ms == delay_ms,
            start.token == next_token(old(self).issued),
            final(self).issued == start.token,
            final(self).pending == Some(start.token),
            final(self).same_surface(old(self)),
            final(self).released == old(self).released,
            final(self).content == old(self).content,
            final(self).status == old(self).status,
    {
        let cancelled = self.pending;
        let token: u64 = if self.issued == u64::MAX {
            0
        } else {
            self.issued + 1
        };
        self.issued = token;
        self.pending = Some(token);
        LoadStart { token, cancelled, delay_ms }
    }

    /// Renders an image: the preview is cleared, the placeholder is mounted
    /// at once and a decode is started, whose token is returned.
    pub fn preview_image(&mut self) -> (start: Result<LoadStart, PreviewError>)
        ensures
            start matches Ok(s) && s.cancelled == old(self).pending && s.token == next_token(
                old(self).issued,
            ) && s.delay_ms == 0 && final(self).token_current(s.token) && final(self).issued
                == s.token,
            final(self).wf(),
            old(self).wf() ==> start->Ok_0.cancelled != Some(start->Ok_0.token),
            final(self).same_surface(old(self)),
            final(self).released == old(self).teardown(),
            final(self).status == RenderStatus::Rendered,
            final(self).content == Some(RenderOutput::Image { state: ImageState::Loading }),
    {
        let steps = self.clear_preview();
        let started = self.start_load(0);
        self.content = Some(RenderOutput::Image { state: ImageState::Loading });
        self.status = RenderStatus::Rendered;
        Ok(LoadStart { token: started.token, cancelled: steps.cancelled, delay_ms: 0 })
    }

    /// Scales a decoded image of the given size into the bounds; without a
    /// decoded image this is a decode failure.
    pub fn load_and_resize_image(decoded: Option<(u32, u32)>) -> (scaled: Result<
        (u32, u32),
        PreviewError,
    >)
        ensures
            match scaled {
                Ok(size) => resized(decoded) == Ok::<(int, int), PreviewError>(
                    (size.0 as int, size.1 as int),
                ),
                Err(e) => resized(decoded) == Err::<(int, int), PreviewError>(e),
            },
    {
        match decoded {
            Some(size) => Ok(fit_image(size.0, size.1)),
            None => Err(PreviewError::DecodeFailure),
        }
    }

    /// Delivers a decode that finished. It is applied only where
    /// `accepts_image` holds: then the scaled image is shown, or, after a
    /// failed decode, the file goes to the display's own loader. A result that
    /// is not applied changes nothing but that its load is no longer
    /// outstanding.
    pub fn complete_image(
        &mut self,
        token: u64,
        decoded: Option<(u32, u32)>,
        selected: Option<u64>,
    ) -> (delivery: ImageDelivery)
        ensures
            old(self).wf() ==> final(self).wf(),
            final(self).same_surface(old(self)),
            final(self).released == old(self).released,
            final(self).issued == old(self).issued,
            final(self).status == old(self).status,
            final(self).pending == (if old(self).token_current(token) {
                None
            } else {
                old(self).pending
            }),
            !old(self).accepts_image(token, selected) ==> delivery == ImageDelivery::Discarded
                && final(self).content == old(self).content,
            old(self).accepts_image(token, selected) ==> match decoded {
                Some(size) => {
                    &&& delivery matches ImageDelivery::Texture { width, height }
                    &&& (width as int, height as int) == fitted_size(size.0 as int, size.1 as int)
                    &&& final(self).content == Some(
                        RenderOutput::Image { state: ImageState::Decoded { width, height } },
                    )
                },
                None => {
                    &&& delivery == ImageDelivery::NativeLoader
                    &&& final(self).content == Some(
                        RenderOutput::Image { state: ImageState::Native },
                    )
                },
            },
    {
        let current = match self.pending {
            Some(t) => t == token,
            None => false,
        };
        if !current {
            return ImageDelivery::Discarded;
        }
        self.pending = None;
        let chosen = match selected {
            Some(id) => id == self.owner,
            None => false,
        };
        let waiting = match &self.content {
            Some(RenderOutput::Image { state: ImageState::Loading }) => true,
            _ => false,
        };
        if !chosen || !waiting {
            return ImageDelivery::Discarded;
        }
        match Self::load_and_resize_image(decoded) {
            Ok(size) => {
                self.content = Some(
                    RenderOutput::Image {
                        state: ImageState::Decoded { width: size.0, height: size.1 },
                    },
                );
                ImageDelivery::Texture { width: size.0, height: size.1 }
            },
            Err(_) => {
                self.content = Some(RenderOutput::Image { state: ImageState::Native });
                ImageDelivery::NativeLoader
            },
        }
    }

    /// Turns the pixels that a page was rendered to, blue first, into an
    /// image with red first and rows of four bytes per pixel.
    pub fn render_pdf_page(pixels: Vec<u8>, width: u32, height: u32) -> (page: PageImage)
        ensures
            page.width == width,
            page.height == height,
            page.stride == width * 4,
            page.pixels@ == swapped_channels(pixels@),
    {
        let mut pixels = pixels;
        swap_red_blue(&mut pixels);
        let stride: u64 = width as u64 * 4;
        PageImage { width, height, stride, pixels }
    }

    /// Renders a document from its first page, if it has one. A document that
    /// could not be opened or rendered fails with the error given, and what
    /// is mounted stays.
    pub fn preview_pdf(&mut self, document: Result<Option<PageImage>, PreviewError>) -> (done:
        Result<(), PreviewError>)
        ensures
            old(self).wf() ==> final(self).wf(),
            match document {
                Ok(first) => {
                    &&& done is Ok
                    &&& final(self).rendered_from(old(self))
                    &&& final(self).status == RenderStatus::Rendered
                    &&& final(self).content == Some(RenderOutput::Document { page: first })
                },
                Err(e) => {
                    &&& done == Err::<(), PreviewError>(e)
                    &&& final(self).failed_from(old(self), e)
                },
            },
    {
        match document {
            Ok(first) => {
                self.clear_preview();
                self.content = Some(RenderOutput::Document { page: first });
                self.status = RenderStatus::Rendered;
                Ok(())
            },
            Err(e) => {
                self.fail(e);
                Err(e)
            },
        }
    }

    /// Renders a video: the preview is cleared, a surface that waits for its
    /// player is mounted and the quiet period is started, whose token and
    /// length are returned.
    pub fn preview_video(&mut self) -> (start: Result<LoadStart, PreviewError>)
        ensures
            start matches Ok(s) && s.cancelled == old(self).pending && s.token == next_token(
                old(self).issued,
            ) && s.delay_ms == VIDEO_DEBOUNCE_MS && final(self).token_current(s.token)
                && final(self).issued == s.token,
            final(self).wf(),
            old(self).wf() ==> start->Ok_0.cancelled != Some(start->Ok_0.token),
            final(self).same_surface(old(self)),
            final(self).released == old(self).teardown(),
            final(self).status == RenderStatus::Rendered,
            final(self).content == Some(RenderOutput::Media { mounted: false }),
    {
        let steps = self.clear_preview();
        let started = self.start_load(VIDEO_DEBOUNCE_MS);
        self.get_or_create_scrolled();
        self.content = Some(RenderOutput::Media { mounted: false });
        self.status = RenderStatus::Rendered;
        self.released = steps;
        Ok(
            LoadStart {
                token: started.token,
                cancelled: steps.cancelled,
                delay_ms: VIDEO_DEBOUNCE_MS,
            },
        )
    }

    /// The quiet period of a video is over. The player is mounted, to play at
    /// once, only where `accepts_video` holds; else nothing changes.
    pub fn video_timer_fired(&mut self, token: u64) -> (mount: bool)
        ensures
            mount == old(self).accepts_video(token),
            old(self).wf() ==> final(self).wf(),
            final(self).released == old(self).released,
            !mount ==> *final(self) == *old(self),
            mount ==> final(self).content == Some(RenderOutput::Media { mounted: true })
                && final(self).pending is None,
            final(self).same_surface(old(self)),
            final(self).issued == old(self).issued,
            final(self).status == old(self).status,
    {
        let current = match self.pending {
            Some(t) => t == token,
            None => false,
        };
        let waiting = match &self.content {
            Some(RenderOutput::Media { mounted }) => !*mounted,
            _ => false,
        };
        if current && waiting {
            self.content = Some(RenderOutput::Media { mounted: true });
            self.pending = None;
            true
        } else {
            false
        }
    }

    /// Renders the icon block: the file's own icon where the lookup found
    /// one, else the generic document icon.
    pub fn preview_generic(&mut self, system_icon: bool) -> (done: Result<(), PreviewError>)
        ensures
            done is Ok,
            final(self).rendered_from(old(self)),
            final(self).wf(),
            final(self).status == RenderStatus::Rendered,
            final(self).content == Some(RenderOutput::Icon { system: system_icon }),
    {
        self.clear_preview();
        self.content = Some(RenderOutput::Icon { system: system_icon });
        self.status = RenderStatus::Rendered;
        Ok(())
    }
}

} // verus!
