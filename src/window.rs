use crate::render::{on_surface_failure, FrameAction, SurfaceFailure, SurfaceSize};
use vstd::prelude::*;

verus! {

/// The window events the application reacts to.
#[derive(Clone, Copy, Debug, PartialEq, Eq, Structural)]
pub enum WindowInput {
    Resumed,
    CloseRequested,
    Resized(SurfaceSize),
    RedrawRequested,
    Other,
}

/// What the event-loop thread is to do, in order.
#[derive(Clone, Copy, Debug, PartialEq, Eq, Structural)]
pub enum Command {
    /// Open the window.
    CreateWindow,
    /// Acquire the GPU and start the pipeline.
    CreateRenderState,
    /// Run the shutdown cascade of the pipeline.
    StopRenderer,
    /// Drop the window.
    DropWindow,
    /// Leave the event loop.
    ExitLoop,
    /// Hand the new size to the surface.
    Resize(SurfaceSize),
    /// Ask the window for the next redraw.
    RequestRedraw,
    /// Render one frame.
    RenderFrame,
    /// Configure the surface again at its current size.
    Reconfigure,
}

/// Whether the window and the render state exist.
#[derive(Clone, Copy, Debug, PartialEq, Eq, Structural)]
pub struct Application {
    pub has_window: bool,
    pub has_state: bool,
}

/// The commands for a window event.
pub open spec fn window_commands(a: Application, input: WindowInput) -> Seq<Command> {
    match input {
        WindowInput::Resumed => seq![Command::CreateWindow, Command::CreateRenderState],
        WindowInput::CloseRequested => (if a.has_state {
            seq![Command::StopRenderer]
        } else {
            Seq::empty()
        }) + seq![Command::DropWindow, Command::ExitLoop],
        WindowInput::Resized(s) => if a.has_state {
            seq![Command::Resize(s)]
        } else {
            Seq::empty()
        },
        WindowInput::RedrawRequested => (if a.has_window {
            seq![Command::RequestRedraw]
        } else {
            Seq::empty()
        }) + (if a.has_state {
            seq![Command::RenderFrame]
        } else {
            Seq::empty()
        }),
        WindowInput::Other => Seq::empty(),
    }
}

/// The application after a window event.
pub open spec fn after_window_event(a: Application, input: WindowInput) -> Application {
    match input {
        WindowInput::Resumed => Application { has_window: true, has_state: true },
        WindowInput::CloseRequested => Application { has_window: false, has_state: false },
        _ => a,
    }
}

/// The commands after a frame: a failure is handled as `on_surface_failure` says.
pub open spec fn frame_commands(result: Result<(), SurfaceFailure>) -> Seq<Command> {
    match result {
        Ok(_) => Seq::empty(),
        Err(f) => match f {
            SurfaceFailure::Lost | SurfaceFailure::Outdated => seq![Command::Reconfigure],
            SurfaceFailure::Timeout => Seq::empty(),
            SurfaceFailure::OutOfMemory | SurfaceFailure::Other => seq![Command::ExitLoop],
        },
    }
}

impl Application {
    /// No window and no render state yet.
    pub fn new() -> (r: Application)
        ensures
            r == (Application { has_window: false, has_state: false }),
    {
        Application { has_window: false, has_state: false }
    }

    /// Reacts to a window event. Resuming opens the window and starts the
    /// pipeline. Closing stops the pipeline (downstream first), then drops the
    /// window and leaves the loop. A resize goes to the surface. A redraw asks for
    /// the next one and renders a frame.
    pub fn on_window_event(&mut self, input: WindowInput) -> (r: Vec<Command>)
        ensures
            r@ == window_commands(*old(self), input),
            *final(self) == after_window_event(*old(self), input),
    {
        let mut out: Vec<Command> = Vec::new();
        match input {
            WindowInput::Resumed => {
                out.push(Command::CreateWindow);
                out.push(Command::CreateRenderState);
                self.has_window = true;
                self.has_state = true;
            },
            WindowInput::CloseRequested => {
                if self.has_state {
                    out.push(Command::StopRenderer);
                }
                out.push(Command::DropWindow);
                out.push(Command::ExitLoop);
                self.has_window = false;
                self.has_state = false;
            },
            WindowInput::Resized(s) => {
                if self.has_state {
                    out.push(Command::Resize(s));
                }
            },
            WindowInput::RedrawRequested => {
                if self.has_window {
                    out.push(Command::RequestRedraw);
                }
                if self.has_state {
                    out.push(Command::RenderFrame);
                }
            },
            WindowInput::Other => {},
        }
        assert(out@ =~= window_commands(*old(self), input));
        out
    }

    /// Reacts to the outcome of a frame.
    pub fn on_frame_result(&self, result: Result<(), SurfaceFailure>) -> (r: Vec<Command>)
        ensures
            r@ == frame_commands(result),
    {
        let mut out: Vec<Command> = Vec::new();
        if let Err(f) = result {
            match on_surface_failure(f) {
                FrameAction::Reconfigure => out.push(Command::Reconfigure),
                FrameAction::Skip => {},
                FrameAction::Abort => out.push(Command::ExitLoop),
            }
        }
        assert(out@ =~= frame_commands(result));
        out
    }
}

} // verus!
