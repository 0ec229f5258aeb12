use vstd::prelude::*;

use crate::render::spec_surface_side;
use crate::render::spec_text_layout;
use crate::render::MAX_TEXTURE_SIZE;
use crate::render::MIN_TEXT_WIDTH;
use crate::render::NANOPIXELS_PER_PIXEL;
use crate::font::FontFamily;
use crate::session::spec_command_for_scancode;
use crate::session::KeyCommand;
use crate::session::WindowEventKind;
use crate::session::Reaction;
use crate::session::SessionView;
use crate::teleprompter::TeleprompterView;
use crate::teleprompter::min_int;
use crate::teleprompter::DEFAULT_TRANSPARENCY;
use crate::teleprompter::MAX_FRAME_MICROS;
use crate::teleprompter::MAX_SPEED;
use crate::teleprompter::MIN_SPEED;
use crate::teleprompter::REDUCED_TRANSPARENCY;
use crate::teleprompter::SPEED_STEP;

verus! {

/// A step up in speed is undone by a step down, wherever the step up did
/// not hit the fastest speed.
pub proof fn lemma_speed_up_then_down(m: TeleprompterView)
    requires
        m.valid(),
        m.speed + SPEED_STEP <= MAX_SPEED,
    ensures
        m.sped_up().slowed_down() == m,
{
}

/// A step down in speed is undone by a step up, wherever the step down did
/// not hit the slowest speed.
pub proof fn lemma_speed_down_then_up(m: TeleprompterView)
    requires
        m.valid(),
        m.speed >= MIN_SPEED + SPEED_STEP,
    ensures
        m.slowed_down().sped_up() == m,
{
}

/// The speed keys never leave the range 10 to 200 px/s, and pressing one at
/// its end of the range changes nothing.
pub proof fn lemma_speed_bounds(m: TeleprompterView)
    requires
        m.valid(),
    ensures
        m.sped_up().valid(),
        m.slowed_down().valid(),
        m.speed == MAX_SPEED ==> m.sped_up() == m,
        m.speed == MIN_SPEED ==> m.slowed_down() == m,
{
}

/// The transparency toggle always lands on 0.3 or 0.95, and from either of
/// those a second toggle comes back.
pub proof fn lemma_transparency_toggle(m: TeleprompterView)
    ensures
        m.transparency_toggled().transparency == REDUCED_TRANSPARENCY
            || m.transparency_toggled().transparency == DEFAULT_TRANSPARENCY,
        m.transparency_toggled().transparency_toggled().transparency_toggled()
            == m.transparency_toggled(),
        (m.transparency == REDUCED_TRANSPARENCY || m.transparency == DEFAULT_TRANSPARENCY)
            ==> m.transparency_toggled().transparency_toggled() == m,
{
}

/// Pausing twice leaves the teleprompter as it was, but for the clock
/// restart at the second reading.
pub proof fn lemma_pause_toggle_twice(m: TeleprompterView, first: u128, second: u128)
    ensures
        m.pause_toggled_at(first).pause_toggled_at(second) == (TeleprompterView {
            last_update: second,
            ..m
        }),
        m.pause_toggled_at(first).paused != m.paused,
{
}

/// A reset goes back to the start, scrolling, keeps everything else, and a
/// second reset changes nothing.
pub proof fn lemma_reset(m: TeleprompterView)
    ensures
        m.rewound().scroll_position == 0,
        !m.rewound().paused,
        m.rewound().speed == m.speed,
        m.rewound().transparency == m.transparency,
        m.rewound().font_family == m.font_family,
        m.rewound().text == m.text,
        m.rewound().rewound() == m.rewound(),
{
}

/// A paused teleprompter does not move, however late a frame comes.
pub proof fn lemma_paused_frames_hold(m: TeleprompterView, now: u128)
    requires
        m.paused,
    ensures
        m.updated_at(now) == (TeleprompterView { last_update: now, ..m }),
{
}

/// Time spent paused never scrolls the script: the first frame after
/// resuming at `resumed` moves by the time since then only (at most 0.1 s of
/// it), whenever the pause began and however many frames came during it.
pub proof fn lemma_pause_time_not_counted(m: TeleprompterView, resumed: u128, now: u128)
    requires
        m.paused,
    ensures
        m.pause_toggled_at(resumed).updated_at(now).scroll_position == min_int(
            m.scroll_position + m.speed * TeleprompterView::frame_micros(
                if now > resumed { now - resumed } else { 0 },
            ),
            u64::MAX as int,
        ),
{
}

/// A frame never scrolls backwards, and a running one scrolls by no more
/// than its speed for 0.1 s.
pub proof fn lemma_frame_moves_forward(m: TeleprompterView, now: u128)
    requires
        m.valid(),
    ensures
        m.scroll_position <= m.updated_at(now).scroll_position,
        m.updated_at(now).scroll_position <= m.scroll_position + m.speed * MAX_FRAME_MICROS,
        m.updated_at(now).valid(),
{
    let dt = TeleprompterView::frame_micros(m.elapsed_until(now));
    assert(0 <= m.speed * dt <= m.speed * MAX_FRAME_MICROS) by (nonlinear_arith)
        requires
            0 <= dt <= MAX_FRAME_MICROS,
            0 <= m.speed,
    ;
}

/// Toggling full screen twice returns to the same window, and the two
/// toggles ask for opposite changes.
pub proof fn lemma_fullscreen_toggle_twice(s: SessionView, first: u128, second: u128)
    ensures
        s.after_command(KeyCommand::ToggleFullscreen, first).after_command(KeyCommand::ToggleFullscreen, second)
            == s,
        s.reaction_to_command(KeyCommand::ToggleFullscreen) == (if s.is_fullscreen {
            Reaction::LeaveFullscreen
        } else {
            Reaction::EnterFullscreen
        }),
        s.after_command(KeyCommand::ToggleFullscreen, first).reaction_to_command(
            KeyCommand::ToggleFullscreen,
        ) == (if s.is_fullscreen {
            Reaction::EnterFullscreen
        } else {
            Reaction::LeaveFullscreen
        }),
{
}

/// Hiding and showing the controls twice returns to the same session.
pub proof fn lemma_controls_toggle_twice(s: SessionView, first: u128, second: u128)
    ensures
        s.after_command(KeyCommand::ToggleControls, first).after_command(KeyCommand::ToggleControls, second)
            == s,
        s.after_command(KeyCommand::ToggleControls, first).show_controls != s.show_controls,
{
}

/// Every key command keeps a valid session valid, and only the exit key asks
/// to close the window.
pub proof fn lemma_commands_keep_validity(s: SessionView, command: KeyCommand, now: u128)
    requires
        s.valid(),
    ensures
        s.after_command(command, now).valid(),
        (s.reaction_to_command(command) == Reaction::Exit) <==> command == KeyCommand::Exit,
{
}

/// The drawing surface is at least a pixel and at most the largest texture
/// on each side, and fitting it again changes nothing.
pub proof fn lemma_surface_side(side: u32)
    ensures
        1 <= spec_surface_side(side) <= MAX_TEXTURE_SIZE,
        spec_surface_side(spec_surface_side(side)) == spec_surface_side(side),
        1 <= side <= MAX_TEXTURE_SIZE ==> spec_surface_side(side) == side,
{
}

/// The text column is centred across the window, at least 400 px wide, and
/// at least 60% of the window wide.
pub proof fn lemma_text_column_centred(width: u32, height: u32, scroll: u64)
    ensures
        spec_text_layout(width, height, scroll).left * 2 + spec_text_layout(
            width,
            height,
            scroll,
        ).width == width * NANOPIXELS_PER_PIXEL,
        spec_text_layout(width, height, scroll).width >= MIN_TEXT_WIDTH,
        spec_text_layout(width, height, scroll).width * 5 >= width * NANOPIXELS_PER_PIXEL * 3,
{
    lemma_text_layout_exact(width, height, scroll);
}

/// Scrolling further moves the first line of the script up by as much.
pub proof fn lemma_scroll_moves_text_up(width: u32, height: u32, scroll: u64, further: u64)
    requires
        scroll <= further,
    ensures
        spec_text_layout(width, height, further).top == spec_text_layout(width, height, scroll).top
            - (further - scroll),
        spec_text_layout(width, height, further).left == spec_text_layout(
            width,
            height,
            scroll,
        ).left,
{
}

} // verus!

verus! {

/// One press of the up key adds exactly 10 px/s, stopping at 200 px/s, and
/// one press of the down key takes exactly 10 px/s off, stopping at
/// 10 px/s; neither touches anything else.
pub proof fn lemma_speed_step_exact(m: TeleprompterView)
    ensures
        m.sped_up().speed == (if m.speed + 10_000 <= 200_000 {
            m.speed + 10_000
        } else {
            200_000
        }),
        m.slowed_down().speed == (if m.speed >= 20_000 {
            m.speed - 10_000
        } else {
            10_000
        }),
        m.sped_up() == (TeleprompterView { speed: m.sped_up().speed, ..m }),
        m.slowed_down() == (TeleprompterView { speed: m.slowed_down().speed, ..m }),
{
}

/// The transparency toggle turns any transparency above one half into 0.3,
/// and any other into 0.95, touching nothing else.
pub proof fn lemma_transparency_toggle_exact(m: TeleprompterView)
    ensures
        m.transparency_toggled().transparency == (if m.transparency > 500 {
            300u32
        } else {
            950u32
        }),
        m.transparency_toggled() == (TeleprompterView {
            transparency: m.transparency_toggled().transparency,
            ..m
        }),
{
}

/// A running frame at clock reading `now` scrolls by exactly the speed
/// times the time since the last reading, that time taken as nothing if the
/// reading went back and as 0.1 s if it was longer, holding at the largest
/// position; it counts the frame and keeps the reading. Every frame, however
/// short, scrolls in proportion to its length.
pub proof fn lemma_running_frame_exact(m: TeleprompterView, now: u128)
    requires
        !m.paused,
        m.frame_count < u32::MAX,
    ensures
        m.updated_at(now).scroll_position as int == ({
            let elapsed: int = if now > m.last_update { now - m.last_update } else { 0 };
            let frame: int = if elapsed < 100_000 { elapsed } else { 100_000 };
            let moved: int = m.scroll_position + m.speed * frame;
            if moved <= 18_446_744_073_709_551_615 { moved } else { 18_446_744_073_709_551_615 }
        }),
        m.updated_at(now).frame_count == m.frame_count + 1,
        m.updated_at(now).last_update == now,
        m.updated_at(now).paused == m.paused,
        m.updated_at(now).speed == m.speed,
        m.updated_at(now).transparency == m.transparency,
        m.updated_at(now).font_family == m.font_family,
        m.updated_at(now).text == m.text,
{
}

/// Two running frames whose lengths add up, each under 0.1 s, scroll as far
/// as one frame of the summed length would (short of the largest position).
pub proof fn lemma_frames_add_up(m: TeleprompterView, mid: u128, now: u128)
    requires
        m.valid(),
        !m.paused,
        m.last_update <= mid <= now,
        now - m.last_update <= 100_000,
        m.scroll_position + m.speed * 100_000 <= u64::MAX,
    ensures
        m.updated_at(mid).updated_at(now).scroll_position == m.updated_at(now).scroll_position,
{
    let a: int = mid - m.last_update;
    let b: int = now - mid;
    assert(m.speed * a + m.speed * b == m.speed * (a + b)) by (nonlinear_arith);
    assert(0 <= m.speed * a <= m.speed * (a + b)) by (nonlinear_arith)
        requires
            0 <= a,
            0 <= b,
            0 <= m.speed,
    ;
    assert(m.speed * (a + b) <= m.speed * 100_000) by (nonlinear_arith)
        requires
            a + b <= 100_000,
            0 <= m.speed,
    ;
}

/// The text column is exactly 60% of the window wide, or 400 px where that
/// is narrower; it is centred, and its first line starts half a window
/// down, raised by the scrolled distance.
pub proof fn lemma_text_layout_exact(width: u32, height: u32, scroll: u64)
    ensures
        spec_text_layout(width, height, scroll).width == (if width * 600_000_000 >= 400_000_000_000 {
            width * 600_000_000
        } else {
            400_000_000_000
        }),
        spec_text_layout(width, height, scroll).left * 2 == width * 1_000_000_000 - spec_text_layout(
            width,
            height,
            scroll,
        ).width,
        spec_text_layout(width, height, scroll).top == height * 500_000_000 - scroll,
{
}

/// Only the full-screen key asks for a change of window, and only the exit
/// key asks to close; every other key asks for nothing.
pub proof fn lemma_reactions_exact(s: SessionView, command: KeyCommand)
    ensures
        s.reaction_to_command(command) == (if command == KeyCommand::ToggleFullscreen {
            if s.is_fullscreen {
                Reaction::LeaveFullscreen
            } else {
                Reaction::EnterFullscreen
            }
        } else if command == KeyCommand::Exit {
            Reaction::Exit
        } else {
            Reaction::Nothing
        }),
{
}

/// Only the full-screen key changes the full-screen flag, only the controls
/// key changes whether the controls show, and those two and the exit key
/// leave the teleprompter as it is.
pub proof fn lemma_command_effects(s: SessionView, command: KeyCommand, now: u128)
    ensures
        s.after_command(command, now).is_fullscreen == (if command == KeyCommand::ToggleFullscreen {
            !s.is_fullscreen
        } else {
            s.is_fullscreen
        }),
        s.after_command(command, now).show_controls == (if command == KeyCommand::ToggleControls {
            !s.show_controls
        } else {
            s.show_controls
        }),
        (command == KeyCommand::ToggleFullscreen || command == KeyCommand::ToggleControls || command
            == KeyCommand::Exit) ==> s.after_command(command, now).teleprompter == s.teleprompter,
        command == KeyCommand::ToggleTransparency ==> s.after_command(command, now).teleprompter
            == s.teleprompter.transparency_toggled(),
{
}

} // verus!

verus! {

/// Each side of the drawing surface is the window's side, raised to one
/// pixel and lowered to 8192 pixels.
pub proof fn lemma_surface_side_exact(side: u32)
    ensures
        spec_surface_side(side) == (if side > 8192 {
            8192
        } else if side == 0 {
            1
        } else {
            side
        }),
{
}

/// The key table: space pauses, the arrows change speed, F, T, R and H
/// toggle full screen, toggle transparency, reset and toggle the controls,
/// escape exits, and no other key does anything.
pub proof fn lemma_key_table(code: u32)
    ensures
        (spec_command_for_scancode(code) == Some(KeyCommand::TogglePause)) <==> code == 49,
        (spec_command_for_scancode(code) == Some(KeyCommand::IncreaseSpeed)) <==> code == 126,
        (spec_command_for_scancode(code) == Some(KeyCommand::DecreaseSpeed)) <==> code == 125,
        (spec_command_for_scancode(code) == Some(KeyCommand::ToggleFullscreen)) <==> code == 3,
        (spec_command_for_scancode(code) == Some(KeyCommand::ToggleTransparency)) <==> code == 17,
        (spec_command_for_scancode(code) == Some(KeyCommand::Reset)) <==> code == 15,
        (spec_command_for_scancode(code) == Some(KeyCommand::ToggleControls)) <==> code == 4,
        (spec_command_for_scancode(code) == Some(KeyCommand::Exit)) <==> code == 53,
        spec_command_for_scancode(code) is None <==> !(code == 49 || code == 126 || code == 125
            || code == 3 || code == 17 || code == 15 || code == 4 || code == 53),
{
}

/// A keyboard event carries a command exactly when the controls did not take
/// it, the key went down, and the key is bound; no other event carries one.
pub proof fn lemma_key_events(event: WindowEventKind, consumed_by_ui: bool)
    ensures
        SessionView::key_command(event, consumed_by_ui) is Some <==> (match event {
            WindowEventKind::KeyboardInput { pressed, scancode } => {
                &&& !consumed_by_ui
                &&& pressed
                &&& scancode is Some
                &&& spec_command_for_scancode(scancode->0) is Some
            },
            _ => false,
        }),
        SessionView::key_command(event, consumed_by_ui) is Some ==> SessionView::key_command(
            event,
            consumed_by_ui,
        ) == spec_command_for_scancode(event->scancode->0),
{
}

/// A fresh teleprompter shows its text from the top, running at 50 px/s,
/// 0.95 transparent, in a sans-serif face, with no frame drawn and its clock
/// at zero.
pub proof fn lemma_initial_state(text: Seq<char>)
    ensures
        TeleprompterView::initial(text) == (TeleprompterView {
            text,
            scroll_position: 0,
            speed: 50_000,
            paused: false,
            transparency: 950,
            font_family: FontFamily::SansSerif,
            frame_count: 0,
            last_update: 0,
        }),
        TeleprompterView::initial(text).valid(),
{
}

/// Toggling the pause flips only the pause flag and restarts the clock at
/// the given reading; a reset only rewinds to the top and resumes.
pub proof fn lemma_pause_and_reset_exact(m: TeleprompterView, now: u128)
    ensures
        m.pause_toggled_at(now) == (TeleprompterView { paused: !m.paused, last_update: now, ..m }),
        m.rewound() == (TeleprompterView { scroll_position: 0, paused: false, ..m }),
{
}

/// A view is valid exactly when its speed is 10 to 200 px/s and its
/// transparency at most full.
pub proof fn lemma_valid_exact(m: TeleprompterView)
    ensures
        m.valid() <==> (10_000 <= m.speed <= 200_000 && m.transparency <= 1000),
{
}

} // verus!

verus! {

/// Each typeface family is offered under its own name, and no two share one.
pub proof fn lemma_font_labels(f: FontFamily, g: FontFamily)
    ensures
        f.label() == (if f == FontFamily::SansSerif {
            "Sans Serif"@
        } else if f == FontFamily::Serif {
            "Serif"@
        } else {
            "Monospace"@
        }),
        f != g ==> f.label() != g.label(),
{
    reveal_strlit("Sans Serif");
    reveal_strlit("Serif");
    reveal_strlit("Monospace");
    if f != g {
        if f.label().len() == g.label().len() {
            assert(f.label()[0] != g.label()[0]);
        }
    }
}

} // verus!
