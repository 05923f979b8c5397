use pageview::error::ViewerError;
use pageview::pixels::PixelBuffer;
use pageview::viewer::TextureMeta;
use pageview::viewer::ViewerState;
use pageview::viewer::ViewportColor;

fn page_buffer(width: u32, height: u32) -> PixelBuffer {
    PixelBuffer { width, height, bytes: vec![0u8; (width * height * 4) as usize] }
}

fn opened(page_count: u32) -> ViewerState {
    ViewerState::open(page_count, 3, 640, 480, Some(page_buffer(100, 150))).unwrap()
}

#[test]
fn open_starts_at_page_zero() {
    let s = opened(3);
    assert_eq!(s.current_index, 0);
    assert_eq!(s.page_count, 3);
    assert_eq!(s.scale, 3);
    assert_eq!(s.texture, TextureMeta { width: 100, height: 150, generation: 0 });
    assert_eq!(s.binding_generation, 0);
    assert_eq!(
        s.color,
        ViewportColor { red_num: 0, green_num: 0, blue_num: 0, alpha_num: 0, denom: 1 }
    );
}

#[test]
fn open_fails_on_decode_failure() {
    let r = ViewerState::open(3, 3, 640, 480, None);
    assert_eq!(r, Err(ViewerError::PageDecode));
}

#[test]
fn open_fails_on_empty_document() {
    // A zero-page document has no page zero: the source cannot rasterize it.
    let r = ViewerState::open(0, 3, 640, 480, None);
    assert_eq!(r, Err(ViewerError::PageDecode));
}

#[test]
fn zero_delta_is_a_noop() {
    let s = opened(3);
    assert_eq!(s.go_to_page(0), None);
}

#[test]
fn open_fails_on_short_buffer() {
    let bad = PixelBuffer { width: 10, height: 10, bytes: vec![0u8; 399] };
    let r = ViewerState::open(3, 3, 640, 480, Some(bad));
    assert_eq!(r, Err(ViewerError::InvalidBufferSize));
}

#[test]
fn navigation_moves_within_range() {
    let s = opened(3);
    assert_eq!(s.go_to_page(1), Some(1));
    assert_eq!(s.go_to_page(2), Some(2));
    assert_eq!(s.next_page(), Some(1));
    assert_eq!(s.previous_page(), None);
}

#[test]
fn navigation_clamps_past_the_end() {
    let mut s = opened(3);
    s.refresh_page_texture(2, Some(page_buffer(10, 10))).unwrap();
    assert_eq!(s.current_index, 2);
    // At the last page, forward navigation is a no-op.
    assert_eq!(s.next_page(), None);
    // A large jump still clamps to the last page.
    let t = opened(3);
    assert_eq!(t.go_to_page(100), Some(2));
}

#[test]
fn navigation_clamps_before_the_start() {
    let s = opened(3);
    assert_eq!(s.previous_page(), None);
    assert_eq!(s.go_to_page(-100), None);
    let mut t = opened(3);
    t.refresh_page_texture(1, Some(page_buffer(10, 10))).unwrap();
    assert_eq!(t.go_to_page(-100), Some(0));
}

#[test]
fn refresh_installs_buffer_dimensions() {
    let mut s = opened(3);
    let r = s.refresh_page_texture(1, Some(page_buffer(300, 450)));
    assert_eq!(r, Ok(()));
    assert_eq!(s.current_index, 1);
    assert_eq!(s.texture, TextureMeta { width: 300, height: 450, generation: 1 });
    assert_eq!(s.binding_generation, s.texture.generation);
}

#[test]
fn failed_refresh_changes_nothing() {
    let mut s = opened(3);
    let before = s;
    let r = s.refresh_page_texture(1, None);
    assert_eq!(r, Err(ViewerError::PageDecode));
    assert_eq!(s, before);
}

#[test]
fn mis_sized_refresh_changes_nothing() {
    let mut s = opened(3);
    let before = s;
    let bad = PixelBuffer { width: 20, height: 20, bytes: vec![0u8; 20 * 20 * 4 + 1] };
    let r = s.refresh_page_texture(1, Some(bad));
    assert_eq!(r, Err(ViewerError::InvalidBufferSize));
    assert_eq!(s, before);
}

#[test]
fn single_page_round_trip() {
    // Opening a one-page document and navigating forward zero times leaves
    // the texture installed at open; navigation has no target to offer.
    let s = ViewerState::open(1, 3, 640, 480, Some(page_buffer(64, 64))).unwrap();
    let after_open = s.texture;
    assert_eq!(s.next_page(), None);
    assert_eq!(s.previous_page(), None);
    assert_eq!(s.texture, after_open);
}

#[test]
fn three_page_walkthrough() {
    // Open a three-page document at scale 3; each page rasterizes to its
    // own dimensions so the displayed texture identifies the page.
    let pages = [(300, 400), (310, 410), (320, 420)];
    let mut s =
        ViewerState::open(3, 3, 640, 480, Some(page_buffer(pages[0].0, pages[0].1))).unwrap();
    assert_eq!(s.texture.width, 300);
    assert_eq!(s.texture.height, 400);

    // Down twice: page 1, then page 2.
    for _ in 0..2 {
        let target = s.next_page().unwrap();
        let page = pages[target as usize];
        s.refresh_page_texture(target, Some(page_buffer(page.0, page.1))).unwrap();
    }
    assert_eq!(s.current_index, 2);
    assert_eq!(s.texture.width, 320);
    assert_eq!(s.texture.height, 420);

    // Down once more: clamped, nothing to refresh.
    assert_eq!(s.next_page(), None);
    assert_eq!(s.current_index, 2);

    // Up three times: pages 1 and 0, then clamped at the start.
    for _ in 0..2 {
        let target = s.previous_page().unwrap();
        let page = pages[target as usize];
        s.refresh_page_texture(target, Some(page_buffer(page.0, page.1))).unwrap();
    }
    assert_eq!(s.previous_page(), None);
    assert_eq!(s.current_index, 0);
    assert_eq!(s.texture.width, 300);
    assert_eq!(s.texture.height, 400);
}

#[test]
fn refresh_generation_counts_up() {
    let mut s = opened(2);
    assert_eq!(s.texture.generation, 0);
    s.refresh_page_texture(1, Some(page_buffer(10, 10))).unwrap();
    assert_eq!(s.texture.generation, 1);
    s.refresh_page_texture(0, Some(page_buffer(10, 10))).unwrap();
    assert_eq!(s.texture.generation, 2);
    assert_eq!(s.binding_generation, 2);
}

#[test]
fn viewport_resize_keeps_texture() {
    let mut s = opened(3);
    let texture = s.texture;
    s.set_viewport_size(1024, 768);
    assert_eq!(s.viewport_width, 1024);
    assert_eq!(s.viewport_height, 768);
    assert_eq!(s.texture, texture);
    assert_eq!(s.current_index, 0);
}

#[test]
fn pointer_move_normalizes_by_width() {
    let mut s = opened(3);
    s.set_viewport_size(200, 100);
    s.handle_pointer_move(50, 150);
    assert_eq!(
        s.color,
        ViewportColor { red_num: 50, green_num: 150, blue_num: 200, alpha_num: 200, denom: 200 }
    );
}

#[test]
fn pointer_move_clamps_into_unit_range() {
    let mut s = opened(3);
    s.set_viewport_size(100, 100);
    s.handle_pointer_move(250, 50);
    assert_eq!(s.color.red_num, 100);
    assert_eq!(s.color.green_num, 50);
    assert_eq!(s.color.denom, 100);
}

#[test]
fn pointer_move_survives_zero_width() {
    let mut s = opened(3);
    s.set_viewport_size(0, 0);
    s.handle_pointer_move(7, 9);
    assert_eq!(s.color.denom, 1);
    assert_eq!(s.color.red_num, 1);
    assert_eq!(s.color.green_num, 1);
}
