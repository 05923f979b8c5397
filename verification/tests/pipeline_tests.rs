use pageview::error::ViewerError;
use pageview::frame::FrameAction;
use pageview::frame::SurfaceFault;
use pageview::frame::frame_fault_action;
use pageview::geometry::QuadVertex;
use pageview::geometry::quad_indices;
use pageview::geometry::quad_vertices;
use pageview::geometry::vertex_layout;
use pageview::input::KeyCommand;
use pageview::input::ViewerKey;
use pageview::input::key_command;
use pageview::pixels::PixelBuffer;

fn buffer_of_len(width: u32, height: u32, len: usize) -> PixelBuffer {
    PixelBuffer { width, height, bytes: vec![0u8; len] }
}

#[test]
fn exact_buffer_passes_size_check() {
    let b = buffer_of_len(100, 150, 100 * 150 * 4);
    assert!(b.check_size());
}

#[test]
fn short_buffer_fails_size_check() {
    let b = buffer_of_len(100, 150, 100 * 150 * 4 - 1);
    assert!(!b.check_size());
}

#[test]
fn long_buffer_fails_size_check() {
    let b = buffer_of_len(100, 150, 100 * 150 * 4 + 1);
    assert!(!b.check_size());
}

#[test]
fn empty_dimensions_fail_size_check() {
    assert!(!buffer_of_len(0, 150, 0).check_size());
    assert!(!buffer_of_len(100, 0, 0).check_size());
}

#[test]
fn largest_texture_passes_size_check() {
    let b = buffer_of_len(8192, 1, 8192 * 4);
    assert!(b.check_size());
    let too_wide = buffer_of_len(8193, 1, 8193 * 4);
    assert!(!too_wide.check_size());
}

#[test]
fn mis_sized_buffer_is_rejected_deterministically() {
    // The same mis-sized buffer is rejected with the same error each time.
    for _ in 0..3 {
        let b = buffer_of_len(10, 10, 399);
        let r = pageview::viewer::ViewerState::open(1, 3, 100, 100, Some(b));
        assert_eq!(r, Err(ViewerError::InvalidBufferSize));
    }
}

#[test]
fn quad_has_four_corners_and_six_indices() {
    let vs = quad_vertices();
    let is = quad_indices();
    assert_eq!(vs.len(), 4);
    assert_eq!(is, vec![0, 1, 3, 1, 2, 3]);
    for i in &is {
        assert!((*i as usize) < vs.len());
    }
}

#[test]
fn quad_corners_are_exact() {
    let vs = quad_vertices();
    assert_eq!(vs[0], QuadVertex { x: -1, y: 1, z: 0, u: 0, v: 0, shade: 255 });
    assert_eq!(vs[1], QuadVertex { x: -1, y: -1, z: 0, u: 0, v: 1, shade: 255 });
    assert_eq!(vs[2], QuadVertex { x: 1, y: -1, z: 0, u: 1, v: 1, shade: 255 });
    assert_eq!(vs[3], QuadVertex { x: 1, y: 1, z: 0, u: 1, v: 0, shade: 255 });
}

#[test]
fn vertex_layout_matches_three_two_three_floats() {
    let l = vertex_layout();
    assert_eq!(l.position_offset, 0);
    assert_eq!(l.tex_coord_offset, 12);
    assert_eq!(l.color_offset, 20);
    assert_eq!(l.stride, 32);
}

#[test]
fn keyboard_contract() {
    assert_eq!(key_command(ViewerKey::Escape), KeyCommand::Exit);
    assert_eq!(key_command(ViewerKey::Down), KeyCommand::Advance);
    assert_eq!(key_command(ViewerKey::Next), KeyCommand::Advance);
    assert_eq!(key_command(ViewerKey::Up), KeyCommand::Retreat);
    assert_eq!(key_command(ViewerKey::Previous), KeyCommand::Retreat);
    assert_eq!(key_command(ViewerKey::Other), KeyCommand::Ignore);
}

#[test]
fn frame_fault_policy() {
    assert_eq!(frame_fault_action(SurfaceFault::Unavailable), FrameAction::Reconfigure);
    assert_eq!(frame_fault_action(SurfaceFault::Lost), FrameAction::Exit);
    assert_eq!(frame_fault_action(SurfaceFault::OutOfMemory), FrameAction::Exit);
}
