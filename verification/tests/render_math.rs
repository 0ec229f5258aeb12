use teleprompter::render::{
    choose_present_mode, choose_surface_format, surface_size, text_layout, PresentMode,
    TextLayout,
};

#[test]
fn surface_size_is_clamped() {
    assert_eq!(surface_size(800, 600), (800, 600));
    assert_eq!(surface_size(0, 0), (1, 1));
    assert_eq!(surface_size(10_000, 8192), (8192, 8192));
    assert_eq!(surface_size(8193, 1), (8192, 1));
    assert_eq!(surface_size(u32::MAX, 5), (8192, 5));
}

#[test]
fn surface_size_is_idempotent() {
    let (w, h) = surface_size(12_345, 0);
    assert_eq!(surface_size(w, h), (w, h));
}

#[test]
fn present_mode_prefers_mailbox() {
    assert_eq!(
        choose_present_mode(&[PresentMode::Fifo, PresentMode::Mailbox]),
        PresentMode::Mailbox
    );
    assert_eq!(
        choose_present_mode(&[PresentMode::Immediate, PresentMode::AutoVsync]),
        PresentMode::Fifo
    );
    assert_eq!(choose_present_mode(&[]), PresentMode::Fifo);
}

#[test]
fn surface_format_prefers_first_srgb() {
    assert_eq!(choose_surface_format(&[false, true, true]), 1);
    assert_eq!(choose_surface_format(&[true, false]), 0);
    assert_eq!(choose_surface_format(&[false, false, false]), 0);
    assert_eq!(choose_surface_format(&[false, false, true]), 2);
}

#[test]
fn wide_window_layout() {
    // 60% of 1000 px is 600 px, centred with 200 px either side.
    assert_eq!(
        text_layout(1000, 800, 0),
        TextLayout { width: 600_000_000_000, left: 200_000_000_000, top: 400_000_000_000 }
    );
}

#[test]
fn narrow_window_layout() {
    // 60% of 500 px is 300 px, widened to 400 px.
    let l = text_layout(500, 100, 100_000_000_000);
    assert_eq!(l.width, 400_000_000_000);
    assert_eq!(l.left, 50_000_000_000);
    assert_eq!(l.top, -50_000_000_000);
    let tiny = text_layout(100, 100, 0);
    assert_eq!(tiny.left, -150_000_000_000);
    assert_eq!(tiny.left * 2 + tiny.width as i128, 100_000_000_000);
}

#[test]
fn scrolling_moves_text_up() {
    let a = text_layout(800, 600, 1_000_000_000);
    let b = text_layout(800, 600, 3_500_000_000);
    assert_eq!(a.top - b.top, 2_500_000_000);
    assert_eq!(a.left, b.left);
    let far = text_layout(8192, 8192, u64::MAX);
    assert_eq!(far.top, 8192i128 * 500_000_000 - u64::MAX as i128);
}
