use vstd::prelude::*;

use crate::teleprompter::TeleprompterState;
use crate::teleprompter::TeleprompterView;

verus! {

/// Scancode of the space bar.
pub const SCANCODE_SPACE: u32 = 49;

/// Scancode of the up arrow.
pub const SCANCODE_UP: u32 = 126;

/// Scancode of the down arrow.
pub const SCANCODE_DOWN: u32 = 125;

/// Scancode of the F key.
pub const SCANCODE_F: u32 = 3;

/// Scancode of the T key.
pub const SCANCODE_T: u32 = 17;

/// Scancode of the R key.
pub const SCANCODE_R: u32 = 15;

/// Scancode of the H key.
pub const SCANCODE_H: u32 = 4;

/// Scancode of the escape key.
pub const SCANCODE_ESCAPE: u32 = 53;

/// Side of the square that a full-screen window asks for, in physical
/// pixels: the largest texture the renderer accepts.
pub const FULLSCREEN_EXTENT: u32 = 8192;

/// Width of a windowed teleprompter, in logical pixels.
pub const WINDOWED_WIDTH: u32 = 800;

/// Height of a windowed teleprompter, in logical pixels.
pub const WINDOWED_HEIGHT: u32 = 600;

/// What a bound key asks for.
#[derive(Debug, Clone, Copy, PartialEq, Eq, Structural)]
pub enum KeyCommand {
    TogglePause,
    IncreaseSpeed,
    DecreaseSpeed,
    ToggleFullscreen,
    ToggleTransparency,
    Reset,
    ToggleControls,
    Exit,
}

/// The key bindings.
pub open spec fn spec_command_for_scancode(scancode: u32) -> Option<KeyCommand> {
    if scancode == SCANCODE_SPACE {
        Some(KeyCommand::TogglePause)
    } else if scancode == SCANCODE_UP {
        Some(KeyCommand::IncreaseSpeed)
    } else if scancode == SCANCODE_DOWN {
        Some(KeyCommand::DecreaseSpeed)
    } else if scancode == SCANCODE_F {
        Some(KeyCommand::ToggleFullscreen)
    } else if scancode == SCANCODE_T {
        Some(KeyCommand::ToggleTransparency)
    } else if scancode == SCANCODE_R {
        Some(KeyCommand::Reset)
    } else if scancode == SCANCODE_H {
        Some(KeyCommand::ToggleControls)
    } else if scancode == SCANCODE_ESCAPE {
        Some(KeyCommand::Exit)
    } else {
        None
    }
}

/// The command bound to a key, if any.
pub fn command_for_scancode(scancode: u32) -> (r: Option<KeyCommand>)
    ensures
        r == spec_command_for_scancode(scancode),
{
    if scancode == SCANCODE_SPACE {
        Some(KeyCommand::TogglePause)
    } else if scancode == SCANCODE_UP {
        Some(KeyCommand::IncreaseSpeed)
    } else if scancode == SCANCODE_DOWN {
        Some(KeyCommand::DecreaseSpeed)
    } else if scancode == SCANCODE_F {
        Some(KeyCommand::ToggleFullscreen)
    } else if scancode == SCANCODE_T {
        Some(KeyCommand::ToggleTransparency)
    } else if scancode == SCANCODE_R {
        Some(KeyCommand::Reset)
    } else if scancode == SCANCODE_H {
        Some(KeyCommand::ToggleControls)
    } else if scancode == SCANCODE_ESCAPE {
        Some(KeyCommand::Exit)
    } else {
        None
    }
}

/// The caption of the button that pauses and resumes scrolling.
pub fn pause_button_label(paused: bool) -> (r: &'static str)
    ensures
        r@ == (if paused { "Resume"@ } else { "Pause"@ }),
{
    if paused {
        "Resume"
    } else {
        "Pause"
    }
}

/// What happened to the window, as far as the teleprompter cares.
#[derive(Debug, Clone, Copy, PartialEq, Eq, Structural)]
pub enum WindowEventKind {
    CloseRequested,
    Resized { width: u32, height: u32 },
    KeyboardInput { pressed: bool, scancode: Option<u32> },
    RedrawRequested,
    Other,
}

/// What the window has to do after an event.
#[derive(Debug, Clone, Copy, PartialEq, Eq, Structural)]
pub enum Reaction {
    /// Nothing.
    Nothing,
    /// Close the application.
    Exit,
    /// Fit the drawing surface to a new size, in physical pixels.
    Resize { width: u32, height: u32 },
    /// Drop the decorations, move to the corner and grow to
    /// `FULLSCREEN_EXTENT` physical pixels square.
    EnterFullscreen,
    /// Restore the decorations and the `WINDOWED_WIDTH` by `WINDOWED_HEIGHT`
    /// logical size.
    LeaveFullscreen,
    /// Draw a frame of the (already advanced) teleprompter.
    Redraw,
}

/// What a session is: the teleprompter's state and the window's flags.
pub struct SessionView {
    pub teleprompter: TeleprompterView,
    pub is_fullscreen: bool,
    pub show_controls: bool,
}

impl SessionView {
    /// The teleprompter's state is valid.
    pub open spec fn valid(self) -> bool {
        self.teleprompter.valid()
    }

    /// The session after a key command given when the clock reads `now`.
    pub open spec fn after_command(self, command: KeyCommand, now: u128) -> SessionView {
        match command {
            KeyCommand::TogglePause => SessionView {
                teleprompter: self.teleprompter.pause_toggled_at(now),
                ..self
            },
            KeyCommand::IncreaseSpeed => SessionView {
                teleprompter: self.teleprompter.sped_up(),
                ..self
            },
            KeyCommand::DecreaseSpeed => SessionView {
                teleprompter: self.teleprompter.slowed_down(),
                ..self
            },
            KeyCommand::ToggleFullscreen => SessionView {
                is_fullscreen: !self.is_fullscreen,
                ..self
            },
            KeyCommand::ToggleTransparency => SessionView {
                teleprompter: self.teleprompter.transparency_toggled(),
                ..self
            },
            KeyCommand::Reset => SessionView { teleprompter: self.teleprompter.rewound(), ..self },
            KeyCommand::ToggleControls => SessionView {
                show_controls: !self.show_controls,
                ..self
            },
            KeyCommand::Exit => self,
        }
    }

    /// What the window has to do after a key command.
    pub open spec fn reaction_to_command(self, command: KeyCommand) -> Reaction {
        match command {
            KeyCommand::ToggleFullscreen => if self.is_fullscreen {
                Reaction::LeaveFullscreen
            } else {
                Reaction::EnterFullscreen
            },
            KeyCommand::Exit => Reaction::Exit,
            _ => Reaction::Nothing,
        }
    }

    /// The key command that a keyboard event carries, if the interface did
    /// not take the event for itself and the key is bound.
    pub open spec fn key_command(
        event: WindowEventKind,
        consumed_by_ui: bool,
    ) -> Option<KeyCommand> {
        match event {
            WindowEventKind::KeyboardInput { pressed, scancode } => {
                if !consumed_by_ui && pressed && scancode is Some {
                    spec_command_for_scancode(scancode->0)
                } else {
                    None
                }
            },
            _ => None,
        }
    }
}

/// A running teleprompter and the state of its window.
pub struct Session {
    pub teleprompter: TeleprompterState,
    pub is_fullscreen: bool,
    pub show_controls: bool,
}

impl View for Session {
    type V = SessionView;

    open spec fn view(&self) -> SessionView {
        SessionView {
            teleprompter: self.teleprompter@,
            is_fullscreen: self.is_fullscreen,
            show_controls: self.show_controls,
        }
    }
}

impl Session {
    /// A windowed session with the controls shown, at the start of `text`.
    pub fn new(text: String) -> (s: Self)
        ensures
            s@ == (SessionView {
                teleprompter: TeleprompterView::initial(text@),
                is_fullscreen: false,
                show_controls: true,
            }),
            s@.valid(),
    {
        Session {
            teleprompter: TeleprompterState::new(text),
            is_fullscreen: false,
            show_controls: true,
        }
    }

    /// Carries out a key command given when the teleprompter's clock reads
    /// `now` (see `TeleprompterState::clock_micros`).
    pub fn apply_command(&mut self, command: KeyCommand, now: u128) -> (r: Reaction)
        ensures
            final(self)@ == old(self)@.after_command(command, now),
            r == old(self)@.reaction_to_command(command),
            final(self)@.valid(),
    {
        proof {
            use_type_invariant(&self.teleprompter);
        }
        match command {
            KeyCommand::TogglePause => {
                self.teleprompter.toggle_pause_at(now);
                Reaction::Nothing
            },
            KeyCommand::IncreaseSpeed => {
                self.teleprompter.increase_speed();
                Reaction::Nothing
            },
            KeyCommand::DecreaseSpeed => {
                self.teleprompter.decrease_speed();
                Reaction::Nothing
            },
            KeyCommand::ToggleFullscreen => {
                self.is_fullscreen = !self.is_fullscreen;
                if self.is_fullscreen {
                    Reaction::EnterFullscreen
                } else {
                    Reaction::LeaveFullscreen
                }
            },
            KeyCommand::ToggleTransparency => {
                self.teleprompter.toggle_transparency();
                Reaction::Nothing
            },
            KeyCommand::Reset => {
                self.teleprompter.reset();
                Reaction::Nothing
            },
            KeyCommand::ToggleControls => {
                self.show_controls = !self.show_controls;
                Reaction::Nothing
            },
            KeyCommand::Exit => Reaction::Exit,
        }
    }

    /// Handles one window event. `consumed_by_ui` tells whether the
    /// on-screen controls took the event for themselves; they never keep
    /// close, resize or redraw events from the teleprompter, only keys.
    /// `now` is the teleprompter's clock reading when the event came (see
    /// `TeleprompterState::clock_micros`); a redraw draws a frame at it.
    pub fn handle_event(&mut self, event: WindowEventKind, consumed_by_ui: bool, now: u128) -> (r: Reaction)
        requires
            event is RedrawRequested ==> old(self)@.teleprompter.can_advance(),
        ensures
            final(self)@.valid(),
            match event {
                WindowEventKind::CloseRequested => {
                    &&& r == Reaction::Exit
                    &&& final(self)@ == old(self)@
                },
                WindowEventKind::Resized { width, height } => {
                    &&& r == (Reaction::Resize { width, height })
                    &&& final(self)@ == old(self)@
                },
                WindowEventKind::KeyboardInput { .. } => {
                    match SessionView::key_command(event, consumed_by_ui) {
                        Some(command) => {
                            &&& r == old(self)@.reaction_to_command(command)
                            &&& final(self)@ == old(self)@.after_command(command, now)
                        },
                        None => {
                            &&& r == Reaction::Nothing
                            &&& final(self)@ == old(self)@
                        },
                    }
                },
                WindowEventKind::RedrawRequested => {
                    &&& r == Reaction::Redraw
                    &&& final(self)@.is_fullscreen == old(self)@.is_fullscreen
                    &&& final(self)@.show_controls == old(self)@.show_controls
                    &&& final(self)@.teleprompter == old(self)@.teleprompter.updated_at(now)
                },
                WindowEventKind::Other => {
                    &&& r == Reaction::Nothing
                    &&& final(self)@ == old(self)@
                },
            },
    {
        proof {
            use_type_invariant(&self.teleprompter);
        }
        match event {
            WindowEventKind::CloseRequested => Reaction::Exit,
            WindowEventKind::Resized { width, height } => Reaction::Resize { width, height },
            WindowEventKind::KeyboardInput { pressed, scancode } => {
                if consumed_by_ui || !pressed {
                    return Reaction::Nothing;
                }
                match scancode {
                    Some(code) => match command_for_scancode(code) {
                        Some(command) => self.apply_command(command, now),
                        None => Reaction::Nothing,
                    },
                    None => Reaction::Nothing,
                }
            },
            WindowEventKind::RedrawRequested => {
                self.teleprompter.update_at(now);
                Reaction::Redraw
            },
            WindowEventKind::Other => Reaction::Nothing,
        }
    }
}

} // verus!
