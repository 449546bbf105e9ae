use walker_preview::media::{FileKind, VIDEO_DEBOUNCE_MS};
use walker_preview::widget::{
    ImageState, LoadStart, PageImage, Presentation, PreviewError, PreviewWidget, RenderOutput,
    RenderStatus, ResetStep, ScrollPolicy, Teardown,
};

const NOTHING: Teardown = Teardown { cancelled: None, reset: None, removed: false };

#[test]
fn plain_text_is_not_markup() {
    let mut w = PreviewWidget::new().unwrap();
    assert_eq!(w.preview_text("a < b", "text"), Ok(()));
    assert_eq!(
        w.content,
        Some(RenderOutput::Text { display: "a < b".to_string(), markup: false, monospace: false })
    );
    assert_eq!(w.status, RenderStatus::Rendered);
}

#[test]
fn pango_text_is_markup() {
    let mut w = PreviewWidget::new().unwrap();
    w.preview_text("<b>x</b>", "pango").unwrap();
    assert_eq!(
        w.content,
        Some(RenderOutput::Text {
            display: "<b>x</b>".to_string(),
            markup: true,
            monospace: false
        })
    );
}

#[test]
fn long_text_preview_is_cut() {
    let mut w = PreviewWidget::new().unwrap();
    w.preview_text(&"q".repeat(10_001), "text").unwrap();
    let expected = format!("{}\n\n[Text truncated...]", "q".repeat(10_000));
    assert_eq!(
        w.content,
        Some(RenderOutput::Text { display: expected, markup: false, monospace: false })
    );
}

#[test]
fn text_file_preview_is_capped() {
    let mut w = PreviewWidget::new().unwrap();
    let mut bytes = vec![b'x'; 512 * 1024 + 1];
    bytes[9] = b'\n';
    assert_eq!(w.preview_text_file(Ok(bytes)), Ok(()));
    assert_eq!(
        w.content,
        Some(RenderOutput::FileText { bytes: b"xxxxxxxxx\n\n\n[File truncated...]".to_vec() })
    );
    let shown = w.content.clone();
    assert_eq!(w.preview_text_file(Err(PreviewError::NotFound)), Err(PreviewError::NotFound));
    assert_eq!(w.content, shown);
    assert_eq!(w.released, NOTHING);
    assert_eq!(w.status, RenderStatus::Failed(PreviewError::NotFound));
}

#[test]
fn command_with_stderr_shows_the_banner() {
    let mut w = PreviewWidget::new().unwrap();
    w.preview_command(Some(("out".to_string(), "err".to_string()))).unwrap();
    assert_eq!(
        w.content,
        Some(RenderOutput::Text {
            display: "out\n\nSTDERR:\nerr".to_string(),
            markup: false,
            monospace: true
        })
    );
}

#[test]
fn relative_path_gets_no_drag_affordance() {
    let mut w = PreviewWidget::new().unwrap();
    w.preview_file("notes.txt", true).unwrap();
    assert_eq!(w.drag_path, None);
    w.preview_file("/abs/notes.txt", true).unwrap();
    assert_eq!(w.drag_path, Some("/abs/notes.txt".to_string()));
}

#[test]
fn missing_file_gets_no_drag_affordance() {
    let mut w = PreviewWidget::new().unwrap();
    assert_eq!(w.preview_file("/abs/missing.txt", false), Err(PreviewError::NotFound));
    assert_eq!(w.drag_path, None);
    w.preview_file("/abs/notes.txt", true).unwrap();
    assert_eq!(w.preview_file("/abs/gone.txt", false), Err(PreviewError::NotFound));
    assert_eq!(w.drag_path, Some("/abs/notes.txt".to_string()));
    assert_eq!(w.content, None);
}

#[test]
fn missing_file_leaves_what_is_mounted() {
    let mut w = PreviewWidget::new().unwrap();
    w.preview_text("kept", "text").unwrap();
    let start = w.preview_video().unwrap();
    let before = w.clone();
    assert_eq!(w.preview_file("/abs/gone.txt", false), Err(PreviewError::NotFound));
    assert_eq!(w.content, before.content);
    assert_eq!(w.pending, Some(start.token));
    assert_eq!(w.drag_path, None);
    assert_eq!(w.released, NOTHING);
    assert_eq!(w.status, RenderStatus::Failed(PreviewError::NotFound));
}

#[test]
fn existing_file_clears_what_is_mounted() {
    let mut w = PreviewWidget::new().unwrap();
    w.preview_text("old", "text").unwrap();
    assert_eq!(w.preview_file("/abs/notes.txt", true), Ok(FileKind::Text));
    assert_eq!(w.content, None);
    assert_eq!(
        w.released,
        Teardown { cancelled: None, reset: Some(ResetStep::ClearText), removed: true }
    );
    assert_eq!(w.status, RenderStatus::Fresh);
}

#[test]
fn renderers_note_what_they_replace() {
    let mut w = PreviewWidget::new().unwrap();
    w.preview_text("one", "text").unwrap();
    assert_eq!(w.released, NOTHING);
    w.preview_generic(true).unwrap();
    assert_eq!(
        w.released,
        Teardown { cancelled: None, reset: Some(ResetStep::ClearText), removed: true }
    );
    let start = w.preview_image().unwrap();
    assert_eq!(
        w.released,
        Teardown { cancelled: None, reset: Some(ResetStep::ClearIcon), removed: true }
    );
    w.preview_video().unwrap();
    assert_eq!(
        w.released,
        Teardown {
            cancelled: Some(start.token),
            reset: Some(ResetStep::DetachImage),
            removed: true
        }
    );
    w.preview_command(None).unwrap_err();
    assert_eq!(w.released.removed, true);
    assert_eq!(w.content, None);
    w.preview_pdf(Ok(None)).unwrap();
    assert_eq!(w.released, NOTHING);
    w.preview_text_file(Ok(b"x".to_vec())).unwrap();
    assert_eq!(
        w.released,
        Teardown { cancelled: None, reset: Some(ResetStep::DetachImage), removed: true }
    );
    w.preview_generic(false).unwrap();
    assert!(w.get_or_create_scrolled());
    assert_eq!(
        w.released,
        Teardown { cancelled: None, reset: Some(ResetStep::ClearIcon), removed: true }
    );
}

#[test]
fn document_shows_its_first_page() {
    let mut w = PreviewWidget::new().unwrap();
    let page = PreviewWidget::render_pdf_page(vec![1, 2, 3, 4], 1, 1);
    assert_eq!(page, PageImage { width: 1, height: 1, stride: 4, pixels: vec![3, 2, 1, 4] });
    assert_eq!(w.preview_pdf(Ok(Some(page.clone()))), Ok(()));
    assert_eq!(w.content, Some(RenderOutput::Document { page: Some(page) }));
    assert_eq!(w.preview_pdf(Ok(None)), Ok(()));
    assert_eq!(w.content, Some(RenderOutput::Document { page: None }));
    assert_eq!(
        w.preview_pdf(Err(PreviewError::DecodeFailure)),
        Err(PreviewError::DecodeFailure)
    );
    assert_eq!(w.content, Some(RenderOutput::Document { page: None }));
    assert_eq!(w.released, NOTHING);
    assert_eq!(w.status, RenderStatus::Failed(PreviewError::DecodeFailure));
}

#[test]
fn video_is_mounted_after_the_quiet_period() {
    assert_eq!(VIDEO_DEBOUNCE_MS, 200);
    let mut w = PreviewWidget::new().unwrap();
    let first = w.preview_video().unwrap();
    assert_eq!(first, LoadStart { token: 1, cancelled: None, delay_ms: 200 });
    assert_eq!(w.content, Some(RenderOutput::Media { mounted: false }));
    let second = w.preview_video().unwrap();
    assert_eq!(second, LoadStart { token: 2, cancelled: Some(1), delay_ms: 200 });
    assert!(!w.video_timer_fired(1));
    assert_eq!(w.content, Some(RenderOutput::Media { mounted: false }));
    assert!(w.video_timer_fired(2));
    assert_eq!(w.content, Some(RenderOutput::Media { mounted: true }));
    assert!(!w.video_timer_fired(2));
}

#[test]
fn image_load_starts_at_once() {
    let mut w = PreviewWidget::new().unwrap();
    let start = w.preview_image().unwrap();
    assert_eq!(start, LoadStart { token: 1, cancelled: None, delay_ms: 0 });
    let next = w.preview_image().unwrap();
    assert_eq!(next, LoadStart { token: 2, cancelled: Some(1), delay_ms: 0 });
}

#[test]
fn token_numbering_wraps() {
    let mut w = PreviewWidget::new().unwrap();
    w.issued = u64::MAX;
    assert_eq!(w.preview_video().unwrap().token, 0);
}

#[test]
fn generic_preview_shows_an_icon() {
    let mut w = PreviewWidget::new().unwrap();
    assert_eq!(w.preview_generic(true), Ok(()));
    assert_eq!(w.content, Some(RenderOutput::Icon { system: true }));
    w.preview_generic(false).unwrap();
    assert_eq!(w.content, Some(RenderOutput::Icon { system: false }));
}

#[test]
fn teardown_names_the_reset_of_each_content() {
    let mut w = PreviewWidget::new().unwrap();
    assert_eq!(w.clear_preview(), Teardown { cancelled: None, reset: None, removed: false });
    w.preview_text("x", "text").unwrap();
    assert_eq!(
        w.clear_preview(),
        Teardown { cancelled: None, reset: Some(ResetStep::ClearText), removed: true }
    );
    w.preview_generic(true).unwrap();
    assert_eq!(
        w.clear_preview(),
        Teardown { cancelled: None, reset: Some(ResetStep::ClearIcon), removed: true }
    );
    let start = w.preview_video().unwrap();
    assert!(w.video_timer_fired(start.token));
    assert_eq!(
        w.clear_preview(),
        Teardown { cancelled: None, reset: Some(ResetStep::DetachMedia), removed: true }
    );
    assert_eq!(w.content, None);
    assert_eq!(w.status, RenderStatus::Fresh);
}

#[test]
fn scrolled_surface_is_reused_or_made() {
    let mut w = PreviewWidget::new().unwrap();
    assert!(w.get_or_create_scrolled());
    assert_eq!(w.content, Some(RenderOutput::Scroller));
    assert!(!w.get_or_create_scrolled());
    w.preview_generic(false).unwrap();
    assert!(w.get_or_create_scrolled());
    assert_eq!(w.content, Some(RenderOutput::Scroller));
}

#[test]
fn each_content_has_its_presentation() {
    let plain = Presentation {
        scrolls: true,
        horizontal: ScrollPolicy::Automatic,
        vertical: ScrollPolicy::Automatic,
        selectable: false,
        editable: false,
        monospace: false,
        wrap_words: false,
        autoplay: false,
    };
    let inline = RenderOutput::Text { display: String::new(), markup: false, monospace: false };
    assert_eq!(inline.presentation(), Presentation { selectable: true, wrap_words: true, ..plain });
    let output = RenderOutput::Text { display: String::new(), markup: false, monospace: true };
    assert_eq!(output.presentation(), Presentation { monospace: true, wrap_words: true, ..plain });
    let file = RenderOutput::FileText { bytes: Vec::new() };
    assert_eq!(file.presentation(), Presentation { monospace: true, wrap_words: true, ..plain });
    let image = RenderOutput::Image { state: ImageState::Loading };
    assert_eq!(image.presentation(), plain);
    let document = RenderOutput::Document { page: None };
    assert_eq!(
        document.presentation(),
        Presentation { horizontal: ScrollPolicy::Never, ..plain }
    );
    let media = RenderOutput::Media { mounted: true };
    assert_eq!(media.presentation(), Presentation { autoplay: true, ..plain });
    assert_eq!(RenderOutput::Scroller.presentation(), plain);
    let icon = RenderOutput::Icon { system: false };
    assert_eq!(icon.presentation(), Presentation { scrolls: false, ..plain });
}
