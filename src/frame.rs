//! The frame lifecycle: acquire, record, submit and present, with recovery
//! when the swapchain goes out of date. The controller decides; the caller
//! performs the graphics-API work it asks for and reports the outcome.
use vstd::prelude::*;

verus! {

/// Where the controller is in the frame cycle.
#[derive(Clone, Copy, PartialEq, Eq, Structural, Debug)]
pub enum FrameStage {
    /// Ready to begin a frame.
    Idle,
    /// A swapchain image is acquired and commands are being recorded.
    Recording,
    /// The swapchain must be rebuilt before the next frame.
    Invalid,
}

/// A swapchain with its images and one view per image.
#[derive(Clone, Debug)]
pub struct Swapchain {
    pub handle: u64,
    pub images: Vec<u64>,
    pub image_views: Vec<u64>,
}

/// What acquiring the next swapchain image returned.
#[derive(Clone, Copy, PartialEq, Eq, Structural, Debug)]
pub enum AcquireOutcome {
    Acquired(u32),
    OutOfDate,
    /// Any other failure, with the graphics API's result code.
    Failed(i32),
}

/// What presenting the recorded frame returned.
#[derive(Clone, Copy, PartialEq, Eq, Structural, Debug)]
pub enum PresentOutcome {
    Presented,
    OutOfDate,
    /// Any other failure, with the graphics API's result code.
    Failed(i32),
}

/// What the caller does next.
#[derive(Clone, Copy, PartialEq, Eq, Structural, Debug)]
pub enum FrameAction {
    /// Record the frame into the acquired image.
    Record { image: u32 },
    /// Rebuild the swapchain and its views; this frame is skipped.
    Recreate,
    /// Wait for the device to go idle; the frame is done.
    WaitIdle,
}

/// A failure that ends the frame.
#[derive(Clone, Copy, PartialEq, Eq, Structural, Debug)]
pub enum FrameError {
    /// A graphics-API call failed with this result code.
    Device(i32),
    /// There is no usable swapchain.
    NoSwapchain,
    /// The acquired image index is past the swapchain's images.
    ImageOutOfRange,
}

/// The frame controller's state: its stage, the swapchain and the image
/// being recorded.
#[derive(Clone, Debug)]
pub struct FrameController {
    pub stage: FrameStage,
    pub swapchain: Option<Swapchain>,
    pub current_image_index: u32,
}

impl FrameController {
    /// Every image has a view, and a stage other than `Invalid` has a
    /// swapchain; while recording, the current image is one of its images.
    pub open spec fn wf(&self) -> bool {
        &&& self.swapchain is Some ==> self.swapchain->0.images@.len() == self.swapchain->0.image_views@.len()
        &&& self.stage != FrameStage::Invalid ==> self.swapchain is Some
        &&& self.stage == FrameStage::Recording ==> self.current_image_index < self.swapchain->0.images@.len()
    }

    /// The controller before its first swapchain.
    pub open spec fn new_spec() -> FrameController {
        FrameController { stage: FrameStage::Invalid, swapchain: None, current_image_index: 0 }
    }

    /// A controller without a swapchain, which must be built before the
    /// first frame.
    pub fn new() -> (r: FrameController)
        ensures
            r == Self::new_spec(),
            r.stage == FrameStage::Invalid,
            r.swapchain is None,
            r.wf(),
    {
        FrameController { stage: FrameStage::Invalid, swapchain: None, current_image_index: 0 }
    }

    /// Starts a frame from the outcome of image acquisition. An acquired image
    /// is recorded into; an out-of-date swapchain skips the frame and asks for
    /// a rebuild, without an error; any other failure is returned.
    pub fn begin(&mut self, outcome: AcquireOutcome) -> (r: Result<FrameAction, FrameError>)
        requires
            old(self).wf(),
            old(self).stage == FrameStage::Idle,
        ensures
            final(self).wf(),
            (*final(self), r) == old(self).spec_begin(outcome),
            final(self).swapchain == old(self).swapchain,
            outcome matches AcquireOutcome::Acquired(i) ==> {
                if i < old(self).swapchain->0.images@.len() {
                    &&& r == Ok::<FrameAction, FrameError>(FrameAction::Record { image: i })
                    &&& final(self).stage == FrameStage::Recording
                    &&& final(self).current_image_index == i
                } else {
                    &&& r == Err::<FrameAction, FrameError>(FrameError::ImageOutOfRange)
                    &&& final(self).stage == FrameStage::Idle
                }
            },
            outcome is OutOfDate ==> r == Ok::<FrameAction, FrameError>(FrameAction::Recreate)
                && final(self).stage == FrameStage::Invalid,
            outcome matches AcquireOutcome::Failed(c) ==> r == Err::<FrameAction, FrameError>(FrameError::Device(c))
                && final(self).stage == FrameStage::Idle,
    {
        match outcome {
            AcquireOutcome::Acquired(i) => {
                let count = match &self.swapchain {
                    Some(s) => s.images.len(),
                    None => 0,
                };
                if (i as usize) < count {
                    self.stage = FrameStage::Recording;
                    self.current_image_index = i;
                    Ok(FrameAction::Record { image: i })
                } else {
                    Err(FrameError::ImageOutOfRange)
                }
            },
            AcquireOutcome::OutOfDate => {
                self.stage = FrameStage::Invalid;
                Ok(FrameAction::Recreate)
            },
            AcquireOutcome::Failed(c) => Err(FrameError::Device(c)),
        }
    }

    /// The state and result after image acquisition returned `outcome`.
    pub open spec fn spec_begin(self, outcome: AcquireOutcome) -> (FrameController, Result<FrameAction, FrameError>) {
        match outcome {
            AcquireOutcome::Acquired(i) => if i < self.swapchain->0.images@.len() {
                (FrameController { stage: FrameStage::Recording, current_image_index: i, ..self },
                    Ok(FrameAction::Record { image: i }))
            } else {
                (self, Err(FrameError::ImageOutOfRange))
            },
            AcquireOutcome::OutOfDate => (FrameController { stage: FrameStage::Invalid, ..self }, Ok(FrameAction::Recreate)),
            AcquireOutcome::Failed(c) => (self, Err(FrameError::Device(c))),
        }
    }

    /// The state and result after presentation returned `outcome`.
    pub open spec fn spec_end(self, outcome: PresentOutcome) -> (FrameController, Result<FrameAction, FrameError>) {
        match outcome {
            PresentOutcome::Presented => (FrameController { stage: FrameStage::Idle, ..self }, Ok(FrameAction::WaitIdle)),
            PresentOutcome::OutOfDate => (FrameController { stage: FrameStage::Invalid, ..self }, Ok(FrameAction::Recreate)),
            PresentOutcome::Failed(c) => (FrameController { stage: FrameStage::Idle, ..self }, Err(FrameError::Device(c))),
        }
    }

    /// The state after installing the rebuilt `swapchain`, and the swapchain
    /// handed back for destruction.
    pub open spec fn spec_recreate(self, swapchain: Swapchain) -> (FrameController, Option<Swapchain>) {
        (FrameController { stage: FrameStage::Idle, swapchain: Some(swapchain), current_image_index: 0 }, self.swapchain)
    }

    /// Ends a frame from the outcome of presentation. A presented frame is
    /// followed by a wait for device idle; an out-of-date swapchain is not an
    /// error: the controller asks for a rebuild and the frame is not shown;
    /// any other failure is returned.
    pub fn end(&mut self, outcome: PresentOutcome) -> (r: Result<FrameAction, FrameError>)
        requires
            old(self).wf(),
            old(self).stage == FrameStage::Recording,
        ensures
            final(self).wf(),
            (*final(self), r) == old(self).spec_end(outcome),
            final(self).swapchain == old(self).swapchain,
            outcome is Presented ==> r == Ok::<FrameAction, FrameError>(FrameAction::WaitIdle)
                && final(self).stage == FrameStage::Idle,
            outcome is OutOfDate ==> r == Ok::<FrameAction, FrameError>(FrameAction::Recreate)
                && final(self).stage == FrameStage::Invalid,
            outcome matches PresentOutcome::Failed(c) ==> r == Err::<FrameAction, FrameError>(FrameError::Device(c))
                && final(self).stage == FrameStage::Idle,
    {
        match outcome {
            PresentOutcome::Presented => {
                self.stage = FrameStage::Idle;
                Ok(FrameAction::WaitIdle)
            },
            PresentOutcome::OutOfDate => {
                self.stage = FrameStage::Invalid;
                Ok(FrameAction::Recreate)
            },
            PresentOutcome::Failed(c) => {
                self.stage = FrameStage::Idle;
                Err(FrameError::Device(c))
            },
        }
    }

    /// Installs a rebuilt swapchain whose images and views already exist and
    /// makes the controller ready for the next frame. Returns the previous
    /// swapchain, whose views and handle the caller destroys only now.
    pub fn recreate(&mut self, swapchain: Swapchain) -> (retired: Option<Swapchain>)
        requires
            swapchain.images@.len() == swapchain.image_views@.len(),
        ensures
            final(self).wf(),
            (*final(self), retired) == old(self).spec_recreate(swapchain),
            final(self).stage == FrameStage::Idle,
            final(self).swapchain == Some(swapchain),
            final(self).current_image_index == 0,
            retired == old(self).swapchain,
    {
        let retired = self.swapchain.take();
        self.swapchain = Some(swapchain);
        self.stage = FrameStage::Idle;
        self.current_image_index = 0;
        retired
    }

    /// The swapchain handle and image index to present.
    pub fn present_target(&self) -> (r: Result<(u64, u32), FrameError>)
        requires
            self.wf(),
        ensures
            self.stage == FrameStage::Recording ==> r == Ok::<(u64, u32), FrameError>(
                (self.swapchain->0.handle, self.current_image_index)),
            self.stage != FrameStage::Recording ==> r == Err::<(u64, u32), FrameError>(FrameError::NoSwapchain),
    {
        match (&self.swapchain, self.stage) {
            (Some(s), FrameStage::Recording) => Ok((s.handle, self.current_image_index)),
            _ => Err(FrameError::NoSwapchain),
        }
    }
}

/// Presentation reporting an out-of-date swapchain surfaces no error and
/// the frame is not shown; the controller asks for a rebuild. After the
/// rebuild it holds the new swapchain, a different one, with one view per
/// image, is ready for the next frame, and hands the old swapchain back for
/// destruction.
pub proof fn lemma_out_of_date_present_recovers(recording: FrameController, fresh: Swapchain)
    requires
        recording.wf(),
        recording.stage == FrameStage::Recording,
        fresh.images@.len() == fresh.image_views@.len(),
        fresh.handle != recording.swapchain->0.handle,
    ensures
        ({
            let (ended, result) = recording.spec_end(PresentOutcome::OutOfDate);
            let (rebuilt, retired) = ended.spec_recreate(fresh);
            &&& result == Ok::<FrameAction, FrameError>(FrameAction::Recreate)
            &&& ended.stage == FrameStage::Invalid
            &&& rebuilt.wf()
            &&& rebuilt.stage == FrameStage::Idle
            &&& rebuilt.swapchain->0.handle != recording.swapchain->0.handle
            &&& rebuilt.swapchain->0.images@.len() == fresh.images@.len()
            &&& rebuilt.swapchain->0.image_views@.len() == fresh.images@.len()
            &&& retired == recording.swapchain
        }),
{
}

} // verus!
