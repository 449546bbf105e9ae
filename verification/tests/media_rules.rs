use walker_preview::media::{classify_media, file_kind, fit_image, swap_red_blue, FileKind};
use walker_preview::widget::{PreviewError, PreviewWidget};

fn pair(top: &str, sub: &str) -> Option<(String, String)> {
    Some((top.to_string(), sub.to_string()))
}

#[test]
fn media_types_pick_their_preview() {
    assert_eq!(classify_media(&pair("image", "png")), FileKind::Image);
    assert_eq!(classify_media(&pair("application", "pdf")), FileKind::Pdf);
    assert_eq!(classify_media(&pair("application", "zip")), FileKind::Generic);
    assert_eq!(classify_media(&pair("text", "plain")), FileKind::Text);
    assert_eq!(classify_media(&pair("video", "mp4")), FileKind::Video);
    assert_eq!(classify_media(&pair("audio", "mpeg")), FileKind::Generic);
    assert_eq!(classify_media(&None), FileKind::Generic);
}

#[test]
fn paths_are_classified_by_extension() {
    assert_eq!(file_kind("/tmp/photo.png"), FileKind::Image);
    assert_eq!(file_kind("/tmp/photo.JPG"), FileKind::Image);
    assert_eq!(file_kind("/tmp/paper.pdf"), FileKind::Pdf);
    assert_eq!(file_kind("/tmp/notes.txt"), FileKind::Text);
    assert_eq!(file_kind("/tmp/clip.mp4"), FileKind::Video);
    assert_eq!(file_kind("/tmp/archive.zip"), FileKind::Generic);
    assert_eq!(file_kind("/tmp/no_extension"), FileKind::Generic);
}

#[test]
fn images_within_the_bounds_keep_their_size() {
    assert_eq!(fit_image(800, 600), (800, 600));
    assert_eq!(fit_image(1, 1), (1, 1));
    assert_eq!(fit_image(640, 480), (640, 480));
}

#[test]
fn larger_images_are_scaled_with_their_aspect_ratio() {
    assert_eq!(fit_image(1600, 1200), (800, 600));
    assert_eq!(fit_image(1600, 600), (800, 300));
    assert_eq!(fit_image(400, 1200), (200, 600));
    assert_eq!(fit_image(801, 600), (800, 599));
    assert_eq!(fit_image(1000, 1000), (600, 600));
}

#[test]
fn empty_sizes_are_raised_to_one_pixel() {
    assert_eq!(fit_image(0, 0), (1, 1));
    assert_eq!(fit_image(0, 10), (1, 10));
    assert_eq!(fit_image(10, 0), (10, 1));
    assert_eq!(fit_image(0, 1200), (1, 600));
    assert_eq!(fit_image(1600, 0), (800, 1));
    assert_eq!(PreviewWidget::load_and_resize_image(Some((0, 0))), Ok((1, 1)));
}

#[test]
fn extreme_images_keep_one_pixel() {
    assert_eq!(fit_image(100_000, 1), (800, 1));
    assert_eq!(fit_image(1, 100_000), (1, 600));
    assert_eq!(fit_image(u32::MAX, u32::MAX), (600, 600));
}

#[test]
fn red_and_blue_are_exchanged_per_pixel() {
    let mut data = vec![1u8, 2, 3, 4, 5, 6, 7, 8, 9];
    swap_red_blue(&mut data);
    assert_eq!(data, vec![3u8, 2, 1, 4, 7, 6, 5, 8, 9]);
    let mut short = vec![1u8, 2, 3];
    swap_red_blue(&mut short);
    assert_eq!(short, vec![1u8, 2, 3]);
}

#[test]
fn rendered_page_has_rows_of_four_bytes_per_pixel() {
    let page = PreviewWidget::render_pdf_page(vec![10, 20, 30, 40, 50, 60, 70, 80], 2, 1);
    assert_eq!(page.width, 2);
    assert_eq!(page.height, 1);
    assert_eq!(page.stride, 8);
    assert_eq!(page.pixels, vec![30, 20, 10, 40, 70, 60, 50, 80]);
}

#[test]
fn resizing_needs_a_decoded_image() {
    assert_eq!(PreviewWidget::load_and_resize_image(Some((1600, 1200))), Ok((800, 600)));
    assert_eq!(PreviewWidget::load_and_resize_image(None), Err(PreviewError::DecodeFailure));
}
