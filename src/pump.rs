use vstd::prelude::*;

verus! {

/// A signal from the platform window's event pump.
#[derive(Clone, Copy, Debug, PartialEq, Eq, Structural)]
pub enum WindowSignal {
    /// The application may create its window and device.
    Resumed,
    /// The window's inner size changed, in pixels.
    Resized { width: u32, height: u32 },
    CloseRequested,
    RedrawRequested,
    /// Any other window event, for the application to handle.
    Other,
}

/// Where the pump stands: before the window and device exist, running, or closing.
#[derive(Clone, Copy, Debug, PartialEq, Eq, Structural)]
pub enum PumpStage {
    Waiting,
    Running,
    Closed,
}

/// What the shell does for a signal.
#[derive(Clone, Copy, Debug, PartialEq, Eq, Structural)]
pub enum PumpAction {
    /// Create the window, the device and the pipeline (once).
    Start,
    /// Recreate the surface on the existing window and configure it again.
    ResumeSurface,
    /// Resize the surface.
    Resize { width: u32, height: u32 },
    /// Leave the event pump; no further frame is started.
    Exit,
    /// Run one pass of the frame gate, rendering if it allows.
    Redraw,
    /// Hand the event to the application.
    Forward,
    /// Nothing to do.
    Ignore,
}

pub open spec fn pump_step(stage: PumpStage, signal: WindowSignal) -> (PumpStage, PumpAction) {
    match stage {
        PumpStage::Closed => (PumpStage::Closed, PumpAction::Ignore),
        PumpStage::Waiting => match signal {
            WindowSignal::Resumed => (PumpStage::Running, PumpAction::Start),
            WindowSignal::CloseRequested => (PumpStage::Closed, PumpAction::Exit),
            _ => (PumpStage::Waiting, PumpAction::Ignore),
        },
        PumpStage::Running => match signal {
            WindowSignal::Resumed => (PumpStage::Running, PumpAction::ResumeSurface),
            WindowSignal::Resized { width, height } => (
                PumpStage::Running,
                PumpAction::Resize { width, height },
            ),
            WindowSignal::CloseRequested => (PumpStage::Closed, PumpAction::Exit),
            WindowSignal::RedrawRequested => (PumpStage::Running, PumpAction::Redraw),
            WindowSignal::Other => (PumpStage::Running, PumpAction::Forward),
        },
    }
}

/// The decisions of the single-threaded event pump.
pub struct EventPump {
    stage: PumpStage,
}

impl View for EventPump {
    type V = PumpStage;

    closed spec fn view(&self) -> PumpStage {
        self.stage
    }
}

impl EventPump {
    pub fn new() -> (r: Self)
        ensures
            r@ == PumpStage::Waiting,
    {
        EventPump { stage: PumpStage::Waiting }
    }

    pub fn stage(&self) -> (r: PumpStage)
        ensures
            r == self@,
    {
        self.stage
    }

    /// Takes one signal and says what to do with it.
    pub fn on_signal(&mut self, signal: WindowSignal) -> (r: PumpAction)
        ensures
            (final(self)@, r) == pump_step(old(self)@, signal),
    {
        let (stage, action) = match self.stage {
            PumpStage::Closed => (PumpStage::Closed, PumpAction::Ignore),
            PumpStage::Waiting => match signal {
                WindowSignal::Resumed => (PumpStage::Running, PumpAction::Start),
                WindowSignal::CloseRequested => (PumpStage::Closed, PumpAction::Exit),
                _ => (PumpStage::Waiting, PumpAction::Ignore),
            },
            PumpStage::Running => match signal {
                WindowSignal::Resumed => (PumpStage::Running, PumpAction::ResumeSurface),
                WindowSignal::Resized { width, height } => (
                    PumpStage::Running,
                    PumpAction::Resize { width, height },
                ),
                WindowSignal::CloseRequested => (PumpStage::Closed, PumpAction::Exit),
                WindowSignal::RedrawRequested => (PumpStage::Running, PumpAction::Redraw),
                WindowSignal::Other => (PumpStage::Running, PumpAction::Forward),
            },
        };
        self.stage = stage;
        action
    }
}

/// No frame is drawn before the device exists, and none after a close request: once closed
/// the pump stays closed. The device is set up at most once, leaving the waiting stage for
/// good; every later resume sets the surface up again.
pub proof fn lemma_frames_only_while_running(stage: PumpStage, signal: WindowSignal)
    ensures
        pump_step(stage, signal).1 == PumpAction::Redraw ==> stage == PumpStage::Running,
        stage == PumpStage::Closed ==> pump_step(stage, signal).0 == PumpStage::Closed,
        pump_step(stage, signal).1 == PumpAction::Start ==> stage == PumpStage::Waiting,
        pump_step(stage, signal).1 == PumpAction::Start ==> pump_step(stage, signal).0
            == PumpStage::Running,
        stage == PumpStage::Running && signal == WindowSignal::Resumed ==> pump_step(stage, signal).1
            == PumpAction::ResumeSurface,
        signal == WindowSignal::CloseRequested ==> pump_step(stage, signal).0 == PumpStage::Closed,
{
}

} // verus!
