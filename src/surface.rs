use vstd::prelude::*;

verus! {

/// The part of a presentable surface's configuration that this engine decides:
/// its size in pixels, and whether the view variant is the sRGB one.
#[derive(Clone, Copy, Debug, PartialEq, Eq, Structural)]
pub struct SurfaceConfig {
    pub width: u32,
    pub height: u32,
    pub srgb: bool,
}

/// A dimension clamped to at least one pixel.
pub open spec fn at_least_one(x: u32) -> u32 {
    if x == 0 {
        1
    } else {
        x
    }
}

/// The configuration built for a surface of `width` x `height`.
pub open spec fn configured(width: u32, height: u32, srgb: bool) -> SurfaceConfig {
    SurfaceConfig { width: at_least_one(width), height: at_least_one(height), srgb }
}

/// `c` after a resize to `width` x `height`: only the dimensions change.
pub open spec fn resized(c: SurfaceConfig, width: u32, height: u32) -> SurfaceConfig {
    SurfaceConfig { width: at_least_one(width), height: at_least_one(height), ..c }
}

fn clamp_dimension(x: u32) -> (r: u32)
    ensures
        r == at_least_one(x),
{
    if x == 0 {
        1
    } else {
        x
    }
}

/// Builds the configuration for a surface of `width` x `height`, each clamped to at least 1.
pub fn configure(width: u32, height: u32, srgb: bool) -> (r: SurfaceConfig)
    ensures
        r == configured(width, height, srgb),
        r.width >= 1 && r.height >= 1,
{
    SurfaceConfig { width: clamp_dimension(width), height: clamp_dimension(height), srgb }
}

/// Lifecycle of the one presentable surface: no configuration until the first
/// `resume`, then configured for good.
pub struct SurfaceWrapper {
    config: Option<SurfaceConfig>,
}

impl View for SurfaceWrapper {
    type V = Option<SurfaceConfig>;

    closed spec fn view(&self) -> Option<SurfaceConfig> {
        self.config
    }
}

impl SurfaceWrapper {
    /// A surface that has not been configured yet.
    pub fn new() -> (r: Self)
        ensures
            r@ == None::<SurfaceConfig>,
    {
        SurfaceWrapper { config: None }
    }

    /// Configures the surface for a window of `width` x `height`; returns the configuration
    /// to apply to the device.
    pub fn resume(&mut self, width: u32, height: u32, srgb: bool) -> (r: SurfaceConfig)
        ensures
            r == configured(width, height, srgb),
            final(self)@ == Some(r),
    {
        let c = configure(width, height, srgb);
        self.config = Some(c);
        c
    }

    /// Re-clamps the new size into the configuration; returns the configuration to apply.
    pub fn resize(&mut self, width: u32, height: u32) -> (r: SurfaceConfig)
        requires
            old(self)@.is_some(),
        ensures
            r == resized(old(self)@.unwrap(), width, height),
            final(self)@ == Some(r),
    {
        let c = self.config.unwrap();
        let n = SurfaceConfig { width: clamp_dimension(width), height: clamp_dimension(height), ..c };
        self.config = Some(n);
        n
    }

    /// The current configuration, if the surface has been configured.
    pub fn config(&self) -> (r: Option<SurfaceConfig>)
        ensures
            r == self@,
    {
        self.config
    }
}

/// Resizing twice to the same size changes nothing the second time.
pub proof fn lemma_resize_idempotent(c: SurfaceConfig, width: u32, height: u32)
    ensures
        resized(resized(c, width, height), width, height) == resized(c, width, height),
{
}

/// A configuration never has a zero dimension, whatever size it was asked for.
pub proof fn lemma_configured_nonzero(width: u32, height: u32, srgb: bool)
    ensures
        configured(width, height, srgb).width >= 1,
        configured(width, height, srgb).height >= 1,
        resized(configured(width, height, srgb), width, height) == configured(width, height, srgb),
{
}

/// What one request for the next frame reported.
#[derive(Clone, Copy, Debug, PartialEq, Eq, Structural)]
pub enum FrameStatus {
    Acquired,
    Timeout,
    Outdated,
    Lost,
    OutOfMemory,
}

/// What to do after a request for the next frame.
#[derive(Clone, Copy, Debug, PartialEq, Eq, Structural)]
pub enum AcquireAction {
    /// Use the frame that was just acquired.
    UseFrame,
    /// Ask again, unmodified.
    Retry,
    /// Reconfigure the surface with its current configuration, then ask again.
    ReconfigureAndRetry,
    /// The retry failed too: no further recovery.
    Fatal,
}

/// Where an acquisition stands.
#[derive(Clone, Copy, Debug, PartialEq, Eq, Structural)]
pub enum AcquireStage {
    FirstAttempt,
    Retrying,
    Finished,
}

/// The recovery policy: one retry, after a reconfigure when the surface was
/// outdated, lost or out of memory.
pub open spec fn acquire_step(stage: AcquireStage, status: FrameStatus) -> (
    AcquireStage,
    AcquireAction,
) {
    match status {
        FrameStatus::Acquired => (AcquireStage::Finished, AcquireAction::UseFrame),
        FrameStatus::Timeout => if stage == AcquireStage::FirstAttempt {
            (AcquireStage::Retrying, AcquireAction::Retry)
        } else {
            (AcquireStage::Finished, AcquireAction::Fatal)
        },
        _ => if stage == AcquireStage::FirstAttempt {
            (AcquireStage::Retrying, AcquireAction::ReconfigureAndRetry)
        } else {
            (AcquireStage::Finished, AcquireAction::Fatal)
        },
    }
}

/// One acquisition of the next frame, fed with what each request reported.
pub struct Acquisition {
    stage: AcquireStage,
}

impl View for Acquisition {
    type V = AcquireStage;

    closed spec fn view(&self) -> AcquireStage {
        self.stage
    }
}

impl Acquisition {
    pub fn new() -> (r: Self)
        ensures
            r@ == AcquireStage::FirstAttempt,
    {
        Acquisition { stage: AcquireStage::FirstAttempt }
    }

    /// Whether the acquisition is over (a frame was taken, or recovery failed).
    pub fn is_finished(&self) -> (r: bool)
        ensures
            r == (self@ == AcquireStage::Finished),
    {
        self.stage == AcquireStage::Finished
    }

    /// Records what the latest request reported and says what to do next.
    pub fn next(&mut self, status: FrameStatus) -> (r: AcquireAction)
        requires
            old(self)@ != AcquireStage::Finished,
        ensures
            (final(self)@, r) == acquire_step(old(self)@, status),
    {
        let first = self.stage == AcquireStage::FirstAttempt;
        let (stage, action) = match status {
            FrameStatus::Acquired => (AcquireStage::Finished, AcquireAction::UseFrame),
            FrameStatus::Timeout => if first {
                (AcquireStage::Retrying, AcquireAction::Retry)
            } else {
                (AcquireStage::Finished, AcquireAction::Fatal)
            },
            _ => if first {
                (AcquireStage::Retrying, AcquireAction::ReconfigureAndRetry)
            } else {
                (AcquireStage::Finished, AcquireAction::Fatal)
            },
        };
        self.stage = stage;
        action
    }
}

/// An acquisition ends after at most two requests.
pub proof fn lemma_acquire_at_most_two_requests(first: FrameStatus, second: FrameStatus)
    ensures
        acquire_step(AcquireStage::FirstAttempt, first).0 == AcquireStage::Finished
            || acquire_step(acquire_step(AcquireStage::FirstAttempt, first).0, second).0
            == AcquireStage::Finished,
        acquire_step(AcquireStage::Retrying, second).1 != AcquireAction::Retry,
        acquire_step(AcquireStage::Retrying, second).1 != AcquireAction::ReconfigureAndRetry,
{
}

} // verus!
