//! The frame scheduler: the order in which one frame's steps are issued, and
//! which of the two in-flight slots each frame uses.
//!
//! The scheduler performs nothing itself. It names the next action; the
//! caller carries it out against the device and reports back with an event.
//! Once an action has failed, the scheduler answers every further report
//! with the same `Abort`, until the caller asks it to recover.
//!
//! Completion is tracked per image as well as per slot. The images of the
//! swap chain come back in an order of their own, so the image that a frame
//! acquires may last have been submitted under the other slot, whose gate
//! the frame has not waited on. The scheduler remembers under which slot
//! each image was last submitted, and has that slot's gate waited on before
//! the image's uniform buffer is written again.

use vstd::prelude::*;
use crate::error::FrameError;

verus! {

/// Number of frames the CPU may have outstanding on the GPU.
pub const FRAMES_IN_FLIGHT: usize = 2;

/// The action that is outstanding, if any.
#[derive(Clone, Copy, Debug, PartialEq, Eq)]
pub enum FramePhase {
    /// Between frames.
    Idle,
    /// Waiting for the slot's completion gate.
    Waiting,
    /// Resetting the slot's completion gate.
    Resetting,
    /// Acquiring the next presentable image.
    Acquiring,
    /// Waiting for the completion gate of `slot`, under which `image` was
    /// last submitted.
    WaitingImage { image: u32, slot: usize },
    /// Writing the frame's uniform state into the buffer of `image`.
    Updating { image: u32 },
    /// Submitting the command buffer of `image`.
    Submitting { image: u32 },
    /// Presenting `image`.
    Presenting { image: u32 },
    /// A step failed; no frame is scheduled until the caller recovers.
    Failed { error: FrameError },
}

/// What the caller reports to the scheduler.
#[derive(Clone, Copy, Debug, PartialEq, Eq)]
pub enum FrameEvent {
    /// The loop came round; `visible` says whether the overlay is shown.
    Tick { visible: bool },
    /// The outstanding action succeeded.
    Completed,
    /// The outstanding acquire succeeded and yielded this image index.
    Acquired { image: u32 },
    /// The outstanding action failed.
    Failed,
    /// The caller has dealt with a failure and wants frames to be scheduled
    /// again. An action that is outstanding is taken not to have happened.
    Recover,
}

/// What the caller is to do next.
#[derive(Clone, Copy, Debug, PartialEq, Eq)]
pub enum FrameAction {
    /// Nothing: the overlay is hidden, or the frame is complete.
    Rest,
    /// Block until the completion gate of `slot` is signaled.
    WaitGate { slot: usize },
    /// Reset the completion gate of `slot`.
    ResetGate { slot: usize },
    /// Acquire the next image, signaling the image-available signal of `slot`.
    AcquireImage { slot: usize },
    /// Produce this frame's uniform state and write it to the buffer of `image`.
    UpdateUniforms { image: u32 },
    /// Submit the command buffer of `image`: wait on the slot's image-available
    /// signal, signal its render-finished signal and its completion gate.
    Submit { image: u32, slot: usize },
    /// Present `image`, waiting on the slot's render-finished signal.
    Present { image: u32, slot: usize },
    /// Stop the frame loop with this error.
    Abort { error: FrameError },
}

/// The scheduler's state as contracts see it.
pub struct FrameState {
    /// The in-flight slot of the current frame, or of the next one when idle.
    pub slot: usize,
    pub phase: FramePhase,
    /// For each image of the swap chain, the slot under which it was last
    /// submitted, as long as that slot's completion gate has not been
    /// reported complete since; `None` for an image that no submit is known
    /// to be reading.
    pub in_flight: Seq<Option<usize>>,
}

/// The state before the first frame of a swap chain of `image_count` images.
pub open spec fn initial_state(image_count: nat) -> FrameState {
    FrameState {
        slot: 0,
        phase: FramePhase::Idle,
        in_flight: Seq::new(image_count, |i: int| None::<usize>),
    }
}

/// The slot that follows `slot` in the cycle.
pub open spec fn next_slot(slot: usize) -> usize {
    if slot + 1 < FRAMES_IN_FLIGHT {
        (slot + 1) as usize
    } else {
        0
    }
}

/// What is in flight once the completion gate of `slot` has been reported
/// complete:
/// every submit under that slot is over.
pub open spec fn gate_completed(in_flight: Seq<Option<usize>>, slot: usize) -> Seq<Option<usize>> {
    Seq::new(
        in_flight.len(),
        |i: int|
            if in_flight[i] == Some(slot) {
                None
            } else {
                in_flight[i]
            },
    )
}

/// The slot whose gate the scheduler is having waited on, if it is.
pub open spec fn awaited_gate(state: FrameState) -> Option<usize> {
    match state.phase {
        FramePhase::Waiting => Some(state.slot),
        FramePhase::WaitingImage { slot, .. } => Some(slot),
        _ => None,
    }
}

/// The phase that follows an acquire that yielded `image`: the wait for
/// the image's last submit where one may still be reading it, the write of
/// its uniform buffer where none is, and a failure for an index that names
/// no image.
pub open spec fn phase_after_acquire(in_flight: Seq<Option<usize>>, image: u32) -> FramePhase {
    if image >= in_flight.len() {
        FramePhase::Failed { error: FrameError::UnknownImage }
    } else {
        match in_flight[image as int] {
            Some(slot) => FramePhase::WaitingImage { image, slot },
            None => FramePhase::Updating { image },
        }
    }
}

/// The error recorded when `event` arrives in `phase` and the phase cannot
/// go on: the failure of the outstanding action where the event reports one,
/// a protocol error where the event does not answer that action.
pub open spec fn failure_of(phase: FramePhase, event: FrameEvent) -> FrameError {
    match (phase, event) {
        (FramePhase::Failed { error }, _) => error,
        (FramePhase::Waiting, FrameEvent::Failed) => FrameError::GateWait,
        (FramePhase::Resetting, FrameEvent::Failed) => FrameError::GateReset,
        (FramePhase::Acquiring, FrameEvent::Failed) => FrameError::Acquire,
        (FramePhase::WaitingImage { .. }, FrameEvent::Failed) => FrameError::GateWait,
        (FramePhase::Updating { .. }, FrameEvent::Failed) => FrameError::UniformWrite,
        (FramePhase::Submitting { .. }, FrameEvent::Failed) => FrameError::Submit,
        (FramePhase::Presenting { .. }, FrameEvent::Failed) => FrameError::Present,
        _ => FrameError::Protocol,
    }
}

/// The state that follows `state` on `event`.
pub open spec fn next_state(state: FrameState, event: FrameEvent) -> FrameState {
    match (state.phase, event) {
        (_, FrameEvent::Recover) => FrameState { phase: FramePhase::Idle, ..state },
        (FramePhase::Idle, FrameEvent::Tick { visible }) => FrameState {
            phase: if visible { FramePhase::Waiting } else { FramePhase::Idle },
            ..state
        },
        (FramePhase::Waiting, FrameEvent::Completed) => FrameState {
            phase: FramePhase::Resetting,
            in_flight: gate_completed(state.in_flight, state.slot),
            ..state
        },
        (FramePhase::Resetting, FrameEvent::Completed) => FrameState {
            phase: FramePhase::Acquiring,
            ..state
        },
        (FramePhase::Acquiring, FrameEvent::Acquired { image }) => FrameState {
            phase: phase_after_acquire(state.in_flight, image),
            ..state
        },
        (FramePhase::WaitingImage { image, slot }, FrameEvent::Completed) => FrameState {
            phase: FramePhase::Updating { image },
            in_flight: gate_completed(state.in_flight, slot),
            ..state
        },
        (FramePhase::Updating { image }, FrameEvent::Completed) => FrameState {
            phase: FramePhase::Submitting { image },
            ..state
        },
        (FramePhase::Submitting { image }, FrameEvent::Completed) => FrameState {
            phase: FramePhase::Presenting { image },
            in_flight: state.in_flight.update(image as int, Some(state.slot)),
            ..state
        },
        (FramePhase::Presenting { .. }, FrameEvent::Completed) => FrameState {
            slot: next_slot(state.slot),
            phase: FramePhase::Idle,
            ..state
        },
        _ => FrameState {
            phase: FramePhase::Failed { error: failure_of(state.phase, event) },
            ..state
        },
    }
}

/// The action that the scheduler hands out when it enters `state`.
pub open spec fn action_of(state: FrameState) -> FrameAction {
    match state.phase {
        FramePhase::Idle => FrameAction::Rest,
        FramePhase::Waiting => FrameAction::WaitGate { slot: state.slot },
        FramePhase::Resetting => FrameAction::ResetGate { slot: state.slot },
        FramePhase::Acquiring => FrameAction::AcquireImage { slot: state.slot },
        FramePhase::WaitingImage { slot, .. } => FrameAction::WaitGate { slot },
        FramePhase::Updating { image } => FrameAction::UpdateUniforms { image },
        FramePhase::Submitting { image } => FrameAction::Submit { image, slot: state.slot },
        FramePhase::Presenting { image } => FrameAction::Present { image, slot: state.slot },
        FramePhase::Failed { error } => FrameAction::Abort { error },
    }
}

/// Whether a state is one that a scheduler can be in: its slots are
/// in-flight slots, the image it works on is one of the swap chain's, an
/// image wait is for the slot the image is in flight under, and the image
/// being written or submitted is in flight under no slot.
pub open spec fn well_formed(state: FrameState) -> bool {
    &&& state.slot < FRAMES_IN_FLIGHT
    &&& forall|i: int|
        0 <= i < state.in_flight.len() ==> (#[trigger] state.in_flight[i] matches Some(slot)
            ==> slot < FRAMES_IN_FLIGHT)
    &&& match state.phase {
        FramePhase::WaitingImage { image, slot } => image < state.in_flight.len()
            && state.in_flight[image as int] == Some(slot),
        FramePhase::Updating { image } => image < state.in_flight.len()
            && state.in_flight[image as int] is None,
        FramePhase::Submitting { image } => image < state.in_flight.len()
            && state.in_flight[image as int] is None,
        FramePhase::Presenting { image } => image < state.in_flight.len(),
        _ => true,
    }
}

/// What is in flight once the completion gate of slot `gate` is complete.
fn without_gate(in_flight: &Vec<Option<usize>>, gate: usize) -> (rest: Vec<Option<usize>>)
    ensures
        rest@ == gate_completed(in_flight@, gate),
{
    let mut rest: Vec<Option<usize>> = Vec::with_capacity(in_flight.len());
    let mut i: usize = 0;
    while i < in_flight.len()
        invariant
            i <= in_flight@.len(),
            rest@.len() == i,
            forall|j: int| 0 <= j < i ==> rest@[j] == gate_completed(in_flight@, gate)[j],
        decreases in_flight@.len() - i,
    {
        let kept = match in_flight[i] {
            Some(slot) => if slot == gate {
                None
            } else {
                Some(slot)
            },
            None => None,
        };
        rest.push(kept);
        i += 1;
    }
    assert(rest@ =~= gate_completed(in_flight@, gate));
    rest
}

/// What is in flight once `image` has been submitted under `slot`.
fn with_submit(in_flight: &Vec<Option<usize>>, image: usize, slot: usize) -> (all: Vec<
    Option<usize>,
>)
    requires
        image < in_flight@.len(),
    ensures
        all@ == in_flight@.update(image as int, Some(slot)),
{
    let mut all: Vec<Option<usize>> = Vec::with_capacity(in_flight.len());
    let mut i: usize = 0;
    while i < in_flight.len()
        invariant
            i <= in_flight@.len(),
            image < in_flight@.len(),
            all@.len() == i,
            forall|j: int|
                0 <= j < i ==> all@[j] == in_flight@.update(image as int, Some(slot))[j],
        decreases in_flight@.len() - i,
    {
        let entry = if i == image {
            Some(slot)
        } else {
            in_flight[i]
        };
        all.push(entry);
        i += 1;
    }
    assert(all@ =~= in_flight@.update(image as int, Some(slot)));
    all
}

/// Decides the order of a frame's steps, cycles through the in-flight
/// slots, and keeps track of the images that submits may still be reading.
pub struct FrameScheduler {
    slot: usize,
    phase: FramePhase,
    in_flight: Vec<Option<usize>>,
}

impl View for FrameScheduler {
    type V = FrameState;

    closed spec fn view(&self) -> FrameState {
        FrameState { slot: self.slot, phase: self.phase, in_flight: self.in_flight@ }
    }
}

impl FrameScheduler {
    #[verifier::type_invariant]
    closed spec fn inv(self) -> bool {
        well_formed(self@)
    }

    /// A scheduler before the first frame of a swap chain of `image_count`
    /// images: idle, on slot 0, with no image in flight.
    pub fn new(image_count: usize) -> (scheduler: Self)
        ensures
            scheduler@ == initial_state(image_count as nat),
    {
        let mut in_flight: Vec<Option<usize>> = Vec::with_capacity(image_count);
        let mut i: usize = 0;
        while i < image_count
            invariant
                i <= image_count,
                in_flight@.len() == i,
                forall|j: int| 0 <= j < i ==> in_flight@[j] is None,
            decreases image_count - i,
        {
            in_flight.push(None);
            i += 1;
        }
        assert(in_flight@ =~= initial_state(image_count as nat).in_flight);
        FrameScheduler { slot: 0, phase: FramePhase::Idle, in_flight }
    }

    /// The slot of the current frame, or of the next one when idle.
    pub fn slot(&self) -> (slot: usize)
        ensures
            slot == self@.slot,
            slot < FRAMES_IN_FLIGHT,
    {
        proof {
            use_type_invariant(self);
        }
        self.slot
    }

    /// The outstanding action's phase.
    pub fn phase(&self) -> (phase: FramePhase)
        ensures
            phase == self@.phase,
    {
        self.phase
    }

    /// The number of images the scheduler keeps track of.
    pub fn image_count(&self) -> (count: usize)
        ensures
            count == self@.in_flight.len(),
    {
        self.in_flight.len()
    }

    /// The slot under which `image` is in flight, if it is.
    pub fn in_flight(&self, image: u32) -> (slot: Option<usize>)
        ensures
            slot == if image < self@.in_flight.len() {
                self@.in_flight[image as int]
            } else {
                None
            },
    {
        if (image as usize) < self.in_flight.len() {
            self.in_flight[image as usize]
        } else {
            None
        }
    }

    /// Takes the caller's report and names the next action. Every slot it
    /// names is an in-flight slot, and every image one of the swap chain's.
    pub fn step(&mut self, event: FrameEvent) -> (action: FrameAction)
        ensures
            final(self)@ == next_state(old(self)@, event),
            action == action_of(final(self)@),
            match action {
                FrameAction::WaitGate { slot } => slot < FRAMES_IN_FLIGHT,
                FrameAction::ResetGate { slot } => slot < FRAMES_IN_FLIGHT,
                FrameAction::AcquireImage { slot } => slot < FRAMES_IN_FLIGHT,
                FrameAction::UpdateUniforms { image } => image < final(self)@.in_flight.len(),
                FrameAction::Submit { image, slot } => slot < FRAMES_IN_FLIGHT
                    && image < final(self)@.in_flight.len(),
                FrameAction::Present { image, slot } => slot < FRAMES_IN_FLIGHT
                    && image < final(self)@.in_flight.len(),
                _ => true,
            },
    {
        proof {
            use_type_invariant(&*self);
        }
        let slot = self.slot;
        match (self.phase, event) {
            (_, FrameEvent::Recover) => {
                self.phase = FramePhase::Idle;
            },
            (FramePhase::Idle, FrameEvent::Tick { visible }) => {
                if visible {
                    self.phase = FramePhase::Waiting;
                }
            },
            (FramePhase::Waiting, FrameEvent::Completed) => {
                self.in_flight = without_gate(&self.in_flight, slot);
                self.phase = FramePhase::Resetting;
            },
            (FramePhase::Resetting, FrameEvent::Completed) => {
                self.phase = FramePhase::Acquiring;
            },
            (FramePhase::Acquiring, FrameEvent::Acquired { image }) => {
                if (image as usize) < self.in_flight.len() {
                    match self.in_flight[image as usize] {
                        Some(gate) => {
                            self.phase = FramePhase::WaitingImage { image, slot: gate };
                        },
                        None => {
                            self.phase = FramePhase::Updating { image };
                        },
                    }
                } else {
                    self.phase = FramePhase::Failed { error: FrameError::UnknownImage };
                }
            },
            (FramePhase::WaitingImage { image, slot: gate }, FrameEvent::Completed) => {
                self.phase = FramePhase::Presenting { image };
                self.in_flight = without_gate(&self.in_flight, gate);
                self.phase = FramePhase::Updating { image };
            },
            (FramePhase::Updating { image }, FrameEvent::Completed) => {
                self.phase = FramePhase::Submitting { image };
            },
            (FramePhase::Submitting { image }, FrameEvent::Completed) => {
                self.phase = FramePhase::Presenting { image };
                self.in_flight = with_submit(&self.in_flight, image as usize, slot);
            },
            (FramePhase::Presenting { .. }, FrameEvent::Completed) => {
                self.phase = FramePhase::Idle;
                self.slot = if slot + 1 < FRAMES_IN_FLIGHT {
                    slot + 1
                } else {
                    0
                };
            },
            (FramePhase::Failed { .. }, _) => {},
            (FramePhase::Waiting, FrameEvent::Failed) => {
                self.phase = FramePhase::Failed { error: FrameError::GateWait };
            },
            (FramePhase::Resetting, FrameEvent::Failed) => {
                self.phase = FramePhase::Failed { error: FrameError::GateReset };
            },
            (FramePhase::Acquiring, FrameEvent::Failed) => {
                self.phase = FramePhase::Failed { error: FrameError::Acquire };
            },
            (FramePhase::WaitingImage { .. }, FrameEvent::Failed) => {
                self.phase = FramePhase::Failed { error: FrameError::GateWait };
            },
            (FramePhase::Updating { .. }, FrameEvent::Failed) => {
                self.phase = FramePhase::Failed { error: FrameError::UniformWrite };
            },
            (FramePhase::Submitting { .. }, FrameEvent::Failed) => {
                self.phase = FramePhase::Failed { error: FrameError::Submit };
            },
            (FramePhase::Presenting { .. }, FrameEvent::Failed) => {
                self.phase = FramePhase::Failed { error: FrameError::Present };
            },
            _ => {
                self.phase = FramePhase::Failed { error: FrameError::Protocol };
            },
        }
        assert(self@.in_flight =~= next_state(old(self)@, event).in_flight);
        let slot = self.slot;
        match self.phase {
            FramePhase::Idle => FrameAction::Rest,
            FramePhase::Waiting => FrameAction::WaitGate { slot },
            FramePhase::Resetting => FrameAction::ResetGate { slot },
            FramePhase::Acquiring => FrameAction::AcquireImage { slot },
            FramePhase::WaitingImage { slot: gate, .. } => FrameAction::WaitGate { slot: gate },
            FramePhase::Updating { image } => FrameAction::UpdateUniforms { image },
            FramePhase::Submitting { image } => FrameAction::Submit { image, slot },
            FramePhase::Presenting { image } => FrameAction::Present { image, slot },
            FramePhase::Failed { error } => FrameAction::Abort { error },
        }
    }

    /// Takes a scheduler back to idle, on the slot it stands on and with
    /// what it knows of the images in flight, for a caller that wants to
    /// try again after a failure. It is `step(FrameEvent::Recover)`.
    ///
    /// Whether the device can go on is the caller's to judge. In
    /// particular, a frame that failed between the reset of its gate and
    /// its submit leaves a gate that nothing will signal: the caller has
    /// to replace or signal it, because the next frame on that slot begins
    /// by waiting on it.
    pub fn recover(&mut self)
        ensures
            final(self)@ == (FrameState { phase: FramePhase::Idle, ..old(self)@ }),
    {
        self.step(FrameEvent::Recover);
    }
}

/// The state reached from `state` after `events`, taken in order.
pub open spec fn run(state: FrameState, events: Seq<FrameEvent>) -> FrameState
    decreases events.len(),
{
    if events.len() == 0 {
        state
    } else {
        next_state(run(state, events.drop_last()), events.last())
    }
}

/// The state of a scheduler for `image_count` images that started fresh
/// and has taken the first `count` of `events`.
pub open spec fn state_after(image_count: nat, events: Seq<FrameEvent>, count: int) -> FrameState {
    run(initial_state(image_count), events.take(count))
}

/// Position of a phase within a frame.
pub open spec fn phase_rank(phase: FramePhase) -> int {
    match phase {
        FramePhase::Idle => 0,
        FramePhase::Waiting => 1,
        FramePhase::Resetting => 2,
        FramePhase::Acquiring => 3,
        FramePhase::WaitingImage { .. } => 4,
        FramePhase::Updating { .. } => 5,
        FramePhase::Submitting { .. } => 6,
        FramePhase::Presenting { .. } => 7,
        FramePhase::Failed { .. } => 8,
    }
}

/// The slot under which `image` is still in flight once a frame that
/// begins in `state` has waited on its own slot's gate.
pub open spec fn image_gate(state: FrameState, image: u32) -> Option<usize> {
    gate_completed(state.in_flight, state.slot)[image as int]
}

/// The reports of one frame in which every step succeeds and the acquire
/// yields `image`; `image_waits` says whether the frame has to wait for the
/// image's last submit.
pub open spec fn frame_events(image_waits: bool, image: u32) -> Seq<FrameEvent> {
    if image_waits {
        seq![
            FrameEvent::Tick { visible: true },
            FrameEvent::Completed,
            FrameEvent::Completed,
            FrameEvent::Acquired { image },
            FrameEvent::Completed,
            FrameEvent::Completed,
            FrameEvent::Completed,
            FrameEvent::Completed,
        ]
    } else {
        seq![
            FrameEvent::Tick { visible: true },
            FrameEvent::Completed,
            FrameEvent::Completed,
            FrameEvent::Acquired { image },
            FrameEvent::Completed,
            FrameEvent::Completed,
            FrameEvent::Completed,
        ]
    }
}

/// The steps of one frame on `slot` that draws into `image`, in the order
/// in which they must be issued. Where the image is still in flight under
/// the slot `gate`, the wait on that slot's gate stands before the write.
pub open spec fn frame_actions(slot: usize, image: u32, gate: Option<usize>) -> Seq<FrameAction> {
    match gate {
        Some(gate) => seq![
            FrameAction::WaitGate { slot },
            FrameAction::ResetGate { slot },
            FrameAction::AcquireImage { slot },
            FrameAction::WaitGate { slot: gate },
            FrameAction::UpdateUniforms { image },
            FrameAction::Submit { image, slot },
            FrameAction::Present { image, slot },
            FrameAction::Rest,
        ],
        None => seq![
            FrameAction::WaitGate { slot },
            FrameAction::ResetGate { slot },
            FrameAction::AcquireImage { slot },
            FrameAction::UpdateUniforms { image },
            FrameAction::Submit { image, slot },
            FrameAction::Present { image, slot },
            FrameAction::Rest,
        ],
    }
}

/// The state after one successful frame per entry of `images`, starting
/// fresh with `image_count` images; entry `k` is the image that frame `k`
/// acquired.
pub open spec fn after_frames(image_count: nat, images: Seq<u32>) -> FrameState
    decreases images.len(),
{
    if images.len() == 0 {
        initial_state(image_count)
    } else {
        let before = after_frames(image_count, images.drop_last());
        run(before, frame_events(image_gate(before, images.last()) is Some, images.last()))
    }
}

/// Whether report `at` of `events` says that the submit of `image` under
/// `slot` succeeded.
pub open spec fn submit_reported(
    image_count: nat,
    events: Seq<FrameEvent>,
    at: int,
    image: u32,
    slot: usize,
) -> bool {
    &&& 0 <= at < events.len()
    &&& state_after(image_count, events, at).phase == (FramePhase::Submitting { image })
    &&& state_after(image_count, events, at).slot == slot
    &&& events[at] is Completed
}

/// Whether a report after `from` and before `to` says that a wait on the
/// gate of `slot` returned.
pub open spec fn wait_reported_between(
    image_count: nat,
    events: Seq<FrameEvent>,
    from: int,
    to: int,
    slot: usize,
) -> bool {
    exists|at: int|
        {
            &&& from < at < to
            &&& 0 <= at < events.len()
            &&& awaited_gate(#[trigger] state_after(image_count, events, at)) == Some(slot)
            &&& events[at] is Completed
        }
}

/// Taking one more report is taking a step from where the scheduler stood.
pub proof fn lemma_state_after_step(image_count: nat, events: Seq<FrameEvent>, at: int)
    requires
        0 <= at < events.len(),
    ensures
        state_after(image_count, events, at + 1) == next_state(
            state_after(image_count, events, at),
            events[at],
        ),
{
    assert(events.take(at + 1).drop_last() =~= events.take(at));
    assert(events.take(at + 1).last() == events[at]);
}

/// A step leads from a well-formed state to a well-formed state over the
/// same images.
pub proof fn lemma_step_keeps_well_formed(state: FrameState, event: FrameEvent)
    requires
        well_formed(state),
    ensures
        well_formed(next_state(state, event)),
        next_state(state, event).in_flight.len() == state.in_flight.len(),
{
}

/// Whatever was reported, the scheduler is in a well-formed state over
/// the images it began with.
pub proof fn lemma_reachable_is_well_formed(
    image_count: nat,
    events: Seq<FrameEvent>,
    count: int,
)
    requires
        0 <= count <= events.len(),
    ensures
        well_formed(state_after(image_count, events, count)),
        state_after(image_count, events, count).in_flight.len() == image_count,
    decreases count,
{
    if count == 0 {
        assert(events.take(0).len() == 0);
    } else {
        lemma_reachable_is_well_formed(image_count, events, count - 1);
        lemma_state_after_step(image_count, events, count - 1);
        lemma_step_keeps_well_formed(
            state_after(image_count, events, count - 1),
            events[count - 1],
        );
    }
}

/// No step of a frame is ever skipped. Whatever was reported, the scheduler
/// either has failed, or was taken back to idle by the caller, or stays
/// idle while the overlay is hidden, or moves from one phase to the very
/// next on the same slot, or goes from the acquire straight to the write
/// because the image is not in flight, or completes the frame after
/// presenting. In particular a slot's completion gate is reset, and
/// everything after that is done, only once the wait on it has returned.
pub proof fn lemma_no_step_skipped(state: FrameState, event: FrameEvent)
    ensures
        ({
            let next = next_state(state, event);
            ||| next.phase is Failed
            ||| event is Recover && next.phase is Idle && next.slot == state.slot
            ||| state.phase is Idle && next.phase is Idle && next.slot == state.slot
            ||| phase_rank(next.phase) == phase_rank(state.phase) + 1 && next.slot == state.slot
            ||| state.phase is Acquiring && next.phase is Updating && next.slot == state.slot
            ||| state.phase is Presenting && next.phase is Idle && next.slot == next_slot(state.slot)
        }),
        next_state(state, event).phase is Resetting ==> state.phase is Waiting && event
            is Completed,
{
}

/// Whatever was reported to it, a scheduler that stands at a step of a
/// frame after the wait on the slot's gate has had that wait issued and
/// reported complete earlier in the same frame: at some earlier report the
/// scheduler was waiting on the completion gate of its present slot, the
/// report was one of success, and ever since it has been at work on this
/// frame and slot. So nothing is reset, acquired, written, submitted or
/// presented unless the wait on the slot's gate has returned.
pub proof fn lemma_gate_waited_in_frame(image_count: nat, events: Seq<FrameEvent>, count: int)
    requires
        0 <= count <= events.len(),
        2 <= phase_rank(state_after(image_count, events, count).phase) <= 7,
    ensures
        exists|wait: int|
            {
                &&& 0 <= wait < count
                &&& (#[trigger] state_after(image_count, events, wait)).phase is Waiting
                &&& state_after(image_count, events, wait).slot == state_after(
                    image_count,
                    events,
                    count,
                ).slot
                &&& events[wait] is Completed
                &&& forall|later: int|
                    wait < later <= count ==> {
                        &&& 2 <= phase_rank(
                            (#[trigger] state_after(image_count, events, later)).phase,
                        ) <= 7
                        &&& state_after(image_count, events, later).slot == state_after(
                            image_count,
                            events,
                            count,
                        ).slot
                    }
            },
    decreases count,
{
    if count == 0 {
        assert(events.take(0).len() == 0);
    } else {
        let before = state_after(image_count, events, count - 1);
        lemma_state_after_step(image_count, events, count - 1);
        lemma_no_step_skipped(before, events[count - 1]);
        if before.phase is Waiting {
            assert(state_after(image_count, events, count - 1).phase is Waiting);
        } else {
            lemma_gate_waited_in_frame(image_count, events, count - 1);
        }
    }
}

/// A successful frame issues exactly the steps of `frame_actions`, in that
/// order: all on the slot the frame began with, and with a wait on the
/// gate of the acquired image's last submit where the image is still in
/// flight. It ends idle on the other slot, with the image in flight under
/// the frame's slot.
pub proof fn lemma_frame_runs_in_order(state: FrameState, image: u32)
    requires
        state.phase is Idle,
        image < state.in_flight.len(),
    ensures
        ({
            let gate = image_gate(state, image);
            let events = frame_events(gate is Some, image);
            let end = run(state, events);
            &&& forall|i: int|
                0 <= i < events.len() ==> action_of(#[trigger] run(state, events.take(i + 1)))
                    == frame_actions(state.slot, image, gate)[i]
            &&& end.phase is Idle
            &&& end.slot == next_slot(state.slot)
            &&& end.in_flight.len() == state.in_flight.len()
            &&& end.in_flight[image as int] == Some(state.slot)
        }),
{
    let gate = image_gate(state, image);
    let events = frame_events(gate is Some, image);
    let e0 = events.take(0);
    let e1 = events.take(1);
    let e2 = events.take(2);
    let e3 = events.take(3);
    let e4 = events.take(4);
    let e5 = events.take(5);
    let e6 = events.take(6);
    let e7 = events.take(7);
    assert(e1.drop_last() =~= e0);
    assert(e2.drop_last() =~= e1);
    assert(e3.drop_last() =~= e2);
    assert(e4.drop_last() =~= e3);
    assert(e5.drop_last() =~= e4);
    assert(e6.drop_last() =~= e5);
    assert(e7.drop_last() =~= e6);
    assert(run(state, e0) == state);
    let s1 = next_state(state, events[0]);
    let s2 = next_state(s1, events[1]);
    let s3 = next_state(s2, events[2]);
    let s4 = next_state(s3, events[3]);
    let s5 = next_state(s4, events[4]);
    let s6 = next_state(s5, events[5]);
    let s7 = next_state(s6, events[6]);
    assert(run(state, e1) == s1);
    assert(run(state, e2) == s2);
    assert(run(state, e3) == s3);
    assert(run(state, e4) == s4);
    assert(run(state, e5) == s5);
    assert(run(state, e6) == s6);
    assert(run(state, e7) == s7);
    assert(s3.in_flight == gate_completed(state.in_flight, state.slot));
    if gate is Some {
        let e8 = events.take(8);
        assert(e8.drop_last() =~= e7);
        assert(e8 =~= events);
        let s8 = next_state(s7, events[7]);
        assert(run(state, e8) == s8);
        assert(s4.phase == (FramePhase::WaitingImage { image, slot: gate->0 }));
        assert(s5.phase == (FramePhase::Updating { image }));
        assert(s7.phase == (FramePhase::Presenting { image }));
        assert forall|i: int| 0 <= i < events.len() implies action_of(
            #[trigger] run(state, events.take(i + 1)),
        ) == frame_actions(state.slot, image, gate)[i] by {
            if i == 0 {
            } else if i == 1 {
            } else if i == 2 {
            } else if i == 3 {
            } else if i == 4 {
            } else if i == 5 {
            } else if i == 6 {
            } else {
            }
        }
    } else {
        assert(e7 =~= events);
        assert(s4.phase == (FramePhase::Updating { image }));
        assert(s6.phase == (FramePhase::Presenting { image }));
        assert forall|i: int| 0 <= i < events.len() implies action_of(
            #[trigger] run(state, events.take(i + 1)),
        ) == frame_actions(state.slot, image, gate)[i] by {
            if i == 0 {
            } else if i == 1 {
            } else if i == 2 {
            } else if i == 3 {
            } else if i == 4 {
            } else if i == 5 {
            } else {
            }
        }
    }
}

/// After `k` frames the scheduler is idle on slot `k mod 2`, whichever
/// images the frames acquired.
pub proof fn lemma_slot_cycles(image_count: nat, images: Seq<u32>)
    requires
        forall|k: int| 0 <= k < images.len() ==> images[k] < image_count,
    ensures
        after_frames(image_count, images).phase is Idle,
        after_frames(image_count, images).slot == images.len() % 2,
        after_frames(image_count, images).in_flight.len() == image_count,
    decreases images.len(),
{
    if images.len() > 0 {
        lemma_slot_cycles(image_count, images.drop_last());
        lemma_frame_runs_in_order(after_frames(image_count, images.drop_last()), images.last());
    }
}

/// An image that was submitted stays in flight under the submit's slot
/// until a wait on that slot's gate is reported to have returned.
pub proof fn lemma_in_flight_until_waited(
    image_count: nat,
    events: Seq<FrameEvent>,
    submit: int,
    count: int,
    image: u32,
    slot: usize,
)
    requires
        0 <= submit < count <= events.len(),
        submit_reported(image_count, events, submit, image, slot),
    ensures
        image < image_count,
        wait_reported_between(image_count, events, submit, count, slot) || state_after(
            image_count,
            events,
            count,
        ).in_flight[image as int] == Some(slot),
    decreases count,
{
    let before = state_after(image_count, events, count - 1);
    lemma_reachable_is_well_formed(image_count, events, count - 1);
    lemma_state_after_step(image_count, events, count - 1);
    if count - 1 > submit {
        lemma_in_flight_until_waited(image_count, events, submit, count - 1, image, slot);
        if wait_reported_between(image_count, events, submit, count - 1, slot) {
            let at = choose|at: int|
                {
                    &&& submit < at < count - 1
                    &&& 0 <= at < events.len()
                    &&& awaited_gate(#[trigger] state_after(image_count, events, at)) == Some(
                        slot,
                    )
                    &&& events[at] is Completed
                };
            assert(submit < at < count);
        } else if awaited_gate(before) == Some(slot) && events[count - 1] is Completed {
            assert(awaited_gate(state_after(image_count, events, count - 1)) == Some(slot));
        }
    }
}

/// The uniform buffer of an image is written only after every earlier
/// submit of that image is known to be over. Whatever was reported to the
/// scheduler: when it asks for the buffer of `image` to be written, then
/// for each earlier submit of `image`, under whichever slot, a wait on
/// that slot's gate has been reported to have returned since the submit.
pub proof fn lemma_write_waits_for_submit(
    image_count: nat,
    events: Seq<FrameEvent>,
    submit: int,
    count: int,
    image: u32,
    slot: usize,
)
    requires
        0 <= submit < count <= events.len(),
        submit_reported(image_count, events, submit, image, slot),
        action_of(state_after(image_count, events, count)) == (FrameAction::UpdateUniforms {
            image,
        }),
    ensures
        wait_reported_between(image_count, events, submit, count, slot),
{
    lemma_in_flight_until_waited(image_count, events, submit, count, image, slot);
    lemma_reachable_is_well_formed(image_count, events, count);
}

} // verus!
