use vstd::prelude::*;
use crate::controller::CameraController;
use crate::input::Key;

verus! {

/// A window event, as far as the viewer reads it.
#[derive(Clone, Copy, Debug, PartialEq, Eq, Structural)]
pub enum WindowInput {
    /// A key went down (`pressed`) or up.
    Keyboard { key: Key, pressed: bool },
    /// The cursor moved inside the window.
    CursorMoved,
    CloseRequested,
    /// The window's drawable area has a new size in pixels.
    Resized { width: u32, height: u32 },
    RedrawRequested,
    /// Any other event.
    Other,
}

/// What the viewer does about one window event.
#[derive(Clone, Copy, Debug, PartialEq, Eq, Structural)]
pub enum Reaction {
    /// The event is consumed: recolor the background from the cursor position.
    TrackCursor,
    /// The event is consumed and nothing more is done.
    Consumed,
    /// Close the window and leave the event loop.
    Exit,
    /// Configure the surface and the camera's aspect ratio for the current size.
    Reconfigure,
    /// Nothing to do.
    Ignore,
    /// Ask for the next frame; also update and render this one when `draw`.
    Redraw { draw: bool },
}

/// How presenting a frame went.
#[derive(Clone, Copy, Debug, PartialEq, Eq, Structural)]
pub enum RenderOutcome {
    Presented,
    /// The surface was lost.
    Lost,
    /// The surface no longer matches the window.
    Outdated,
    OutOfMemory,
    /// The frame took too long to present.
    Timeout,
}

/// What the viewer does after a frame.
#[derive(Clone, Copy, Debug, PartialEq, Eq, Structural)]
pub enum AfterRender {
    Continue,
    /// Configure the surface again for the current size.
    Reconfigure,
    /// Report the failure and leave the event loop.
    Exit,
    /// Report the slow frame and go on.
    Warn,
}

/// The drawable area's size, and whether a size has been reported yet.
/// Frames are drawn only once the window has reported a size.
#[derive(Clone, Copy, Debug, PartialEq, Eq, Structural)]
pub struct Viewport {
    pub width: u32,
    pub height: u32,
    pub surface_configured: bool,
}

/// Whether a surface of this size can be configured: neither side is zero.
pub open spec fn drawable(width: u32, height: u32) -> bool {
    width > 0 && height > 0
}

impl Viewport {
    /// The viewport after a resize to `width` by `height`: taken when
    /// drawable, else the old size is kept.
    pub open spec fn resized(self, width: u32, height: u32) -> Viewport {
        if drawable(width, height) {
            Viewport { width, height, ..self }
        } else {
            self
        }
    }

    /// The viewport after `input`.
    pub open spec fn after_input(self, input: WindowInput) -> Viewport {
        match input {
            WindowInput::Resized { width, height } => Viewport {
                surface_configured: true,
                ..self.resized(width, height)
            },
            _ => self,
        }
    }

    /// The reaction to `input`.
    pub open spec fn reaction(self, input: WindowInput) -> Reaction {
        match input {
            WindowInput::CursorMoved => Reaction::TrackCursor,
            WindowInput::Keyboard { key: Key::Space, pressed: true } => Reaction::Consumed,
            WindowInput::Keyboard { key: Key::Escape, pressed: true } => Reaction::Exit,
            WindowInput::CloseRequested => Reaction::Exit,
            WindowInput::Resized { width, height } => if drawable(width, height) {
                Reaction::Reconfigure
            } else {
                Reaction::Ignore
            },
            WindowInput::RedrawRequested => Reaction::Redraw { draw: self.surface_configured },
            _ => Reaction::Ignore,
        }
    }

    /// The step after a frame that ended with `outcome`.
    pub open spec fn after_render_spec(self, outcome: RenderOutcome) -> AfterRender {
        match outcome {
            RenderOutcome::Presented => AfterRender::Continue,
            RenderOutcome::Lost | RenderOutcome::Outdated => if drawable(self.width, self.height) {
                AfterRender::Reconfigure
            } else {
                AfterRender::Continue
            },
            RenderOutcome::OutOfMemory => AfterRender::Exit,
            RenderOutcome::Timeout => AfterRender::Warn,
        }
    }

    /// A viewport of the window's first size, before any size was reported.
    pub fn new(width: u32, height: u32) -> (r: Viewport)
        ensures
            r == (Viewport { width, height, surface_configured: false }),
    {
        Viewport { width, height, surface_configured: false }
    }

    /// Takes the new size if neither side is zero and returns true; else
    /// keeps the old size and returns false.
    pub fn resize(&mut self, width: u32, height: u32) -> (accepted: bool)
        ensures
            accepted == drawable(width, height),
            *final(self) == old(self).resized(width, height),
    {
        if width > 0 && height > 0 {
            self.width = width;
            self.height = height;
            true
        } else {
            false
        }
    }

    /// Answers one window event. A key event first goes to the camera
    /// `controller`, whatever else it means. A moved cursor and a pressed
    /// space bar are consumed. Closing the window or pressing escape exits. A
    /// resize marks the surface as configured and is taken when drawable. A
    /// redraw request draws a frame once the surface is configured.
    pub fn handle<S>(&mut self, input: WindowInput, controller: &mut CameraController<S>) -> (r:
        Reaction)
        ensures
            r == old(self).reaction(input),
            *final(self) == old(self).after_input(input),
            *final(controller) == match input {
                WindowInput::Keyboard { key, pressed } => old(controller).after_key(key, pressed),
                _ => *old(controller),
            },
    {
        match input {
            WindowInput::Keyboard { key, pressed } => {
                controller.process_events(key, pressed);
                match key {
                    Key::Space if pressed => Reaction::Consumed,
                    Key::Escape if pressed => Reaction::Exit,
                    _ => Reaction::Ignore,
                }
            },
            WindowInput::CursorMoved => Reaction::TrackCursor,
            WindowInput::CloseRequested => Reaction::Exit,
            WindowInput::Resized { width, height } => {
                self.surface_configured = true;
                if self.resize(width, height) {
                    Reaction::Reconfigure
                } else {
                    Reaction::Ignore
                }
            },
            WindowInput::RedrawRequested => Reaction::Redraw { draw: self.surface_configured },
            WindowInput::Other => Reaction::Ignore,
        }
    }

    /// Decides what follows a frame that ended with `outcome`: a lost or
    /// outdated surface is configured again for the current size (when
    /// drawable), running out of memory exits, a timeout is reported.
    pub fn after_render(&self, outcome: RenderOutcome) -> (r: AfterRender)
        ensures
            r == self.after_render_spec(outcome),
    {
        match outcome {
            RenderOutcome::Presented => AfterRender::Continue,
            RenderOutcome::Lost | RenderOutcome::Outdated => {
                if self.width > 0 && self.height > 0 {
                    AfterRender::Reconfigure
                } else {
                    AfterRender::Continue
                }
            },
            RenderOutcome::OutOfMemory => AfterRender::Exit,
            RenderOutcome::Timeout => AfterRender::Warn,
        }
    }

    /// Once the window has reported a size, it stays configured and every
    /// redraw request draws a frame.
    pub proof fn lemma_configured_stays(self, input: WindowInput)
        requires
            self.surface_configured,
        ensures
            self.after_input(input).surface_configured,
            self.after_input(input).reaction(WindowInput::RedrawRequested) == (Reaction::Redraw {
                draw: true,
            }),
    {
    }

    /// A drawable size stays drawable whatever event comes: a zero side is
    /// never taken, so the aspect ratio never divides by zero.
    pub proof fn lemma_drawable_stays(self, input: WindowInput)
        requires
            drawable(self.width, self.height),
        ensures
            drawable(self.after_input(input).width, self.after_input(input).height),
    {
    }
}

} // verus!
