//! The frame controller: what the loop does next.
//!
//! The controller owns the [`LocalState`] and knows where in a frame the loop
//! stands. The driver performs what the controller asks for (poll the input,
//! draw, recreate the swapchain, rebuild the renderer) and reports how it went;
//! [`FrameController::step`] takes the report and answers with the next thing
//! to do.

use vstd::prelude::*;
use gfx_hal::window::Suboptimal;
use crate::geometry::Coord;
use crate::input::UserInput;
use crate::outcome::{DrawingError, Recovery};
use crate::state::LocalState;

verus! {

/// The states of the loop.
#[derive(Clone, Copy, Debug, PartialEq, Eq)]
pub enum ControllerState {
    /// Frames are being drawn.
    Running,
    /// The swapchain is being recreated.
    RecreatingSwapchain,
    /// The renderer was released and a new one is being built.
    RebuildingRenderer,
    /// The loop has ended because the user asked for it.
    ExitingClean,
    /// The loop has ended because a recovery failed.
    ExitingError,
}

/// Where in a frame the loop stands, and so which report the controller
/// waits for.
#[derive(Clone, Copy, Debug, PartialEq, Eq)]
pub enum Phase {
    /// Running, and waiting for the next snapshot of the input.
    AwaitingInput,
    /// Running, and waiting for the outcome of the draw that was asked for.
    AwaitingDraw,
    /// Recreating the swapchain because the frame changed its size. `input` is
    /// the snapshot that brought the new size; it is taken into the state once
    /// the swapchain is there.
    ResizingSwapchain { input: UserInput },
    /// Recreating the swapchain because a draw found it stale.
    RefreshingSwapchain,
    /// Rebuilding the renderer after a draw failed on a fence.
    RebuildingRenderer,
    /// Ended at the user's request.
    ExitedClean,
    /// Ended because a recovery failed.
    ExitedWithError,
}

/// What the driver reports to the controller.
#[derive(Debug)]
pub enum Event {
    /// A snapshot of the input was taken.
    Input(UserInput),
    /// The swapchain was recreated, or could not be.
    SwapchainRecreated { succeeded: bool },
    /// A draw was submitted, and ended so.
    Drawn(Result<Option<Suboptimal>, DrawingError>),
    /// A new renderer was built after the old one had been released, or could
    /// not be.
    RendererRebuilt { succeeded: bool },
}

/// What the controller asks the driver to do next.
#[derive(Clone, Copy, Debug, PartialEq, Eq)]
pub enum Action {
    /// Take a snapshot of the input and report it.
    PollInput,
    /// Recreate the swapchain on the renderer at hand and report how it went.
    RecreateSwapchain,
    /// Scale every sprite to the frame's new size, then draw as for `Draw`.
    RescaleAndDraw(Coord),
    /// Submit a draw with the controller's current state and report the
    /// outcome.
    Draw,
    /// Release the renderer entirely, then build a new one and report how it
    /// went.
    RebuildRenderer,
    /// Leave the loop.
    Stop,
}

impl Phase {
    /// The state of the loop that a phase belongs to.
    pub open spec fn state_of(self) -> ControllerState {
        match self {
            Phase::AwaitingInput | Phase::AwaitingDraw => ControllerState::Running,
            Phase::ResizingSwapchain { .. } | Phase::RefreshingSwapchain =>
                ControllerState::RecreatingSwapchain,
            Phase::RebuildingRenderer => ControllerState::RebuildingRenderer,
            Phase::ExitedClean => ControllerState::ExitingClean,
            Phase::ExitedWithError => ControllerState::ExitingError,
        }
    }
}

impl ControllerState {
    /// The loop has ended.
    pub open spec fn is_terminal(self) -> bool {
        self is ExitingClean || self is ExitingError
    }
}

/// The state that the loop carries, and where in a frame it stands.
#[derive(Clone, Copy, Debug, PartialEq, Eq)]
pub struct FrameController {
    pub local_state: LocalState,
    pub phase: Phase,
}

impl FrameController {
    /// The report that the controller waits for is of `event`'s kind. Once the
    /// loop has ended it waits for none.
    pub open spec fn expects(self, event: Event) -> bool {
        match self.phase {
            Phase::AwaitingInput => event is Input,
            Phase::AwaitingDraw => event is Drawn,
            Phase::ResizingSwapchain { .. } | Phase::RefreshingSwapchain =>
                event is SwapchainRecreated,
            Phase::RebuildingRenderer => event is RendererRebuilt,
            Phase::ExitedClean | Phase::ExitedWithError => false,
        }
    }

    /// The controller in the given phase, with the state as it is.
    pub open spec fn moved_to(self, phase: Phase) -> FrameController {
        FrameController { local_state: self.local_state, phase }
    }

    /// The controller after `input` was taken into the state, with a draw
    /// asked for.
    pub open spec fn drawing_after(self, input: UserInput) -> FrameController {
        FrameController {
            local_state: self.local_state.updated(input),
            phase: Phase::AwaitingDraw,
        }
    }

    /// The controller and its request after a snapshot of the input. A request
    /// to close ends the loop before anything else is looked at. A new frame
    /// size has the swapchain recreated first, with the state untouched until
    /// that is done. Otherwise the snapshot is taken into the state and a draw
    /// is asked for.
    pub open spec fn after_input(self, input: UserInput) -> (FrameController, Action) {
        if input.end_requested {
            (self.moved_to(Phase::ExitedClean), Action::Stop)
        } else if input.new_frame_size is Some {
            (self.moved_to(Phase::ResizingSwapchain { input }), Action::RecreateSwapchain)
        } else {
            (self.drawing_after(input), Action::Draw)
        }
    }

    /// The controller and its request after the swapchain was recreated. A
    /// failure ends the loop. After a resize the snapshot that brought the new
    /// size is taken into the state, and the frame is drawn with the sprites
    /// scaled to it. After a stale swapchain the frame is over.
    pub open spec fn after_swapchain(self, succeeded: bool) -> (FrameController, Action) {
        if !succeeded {
            (self.moved_to(Phase::ExitedWithError), Action::Stop)
        } else {
            match self.phase {
                Phase::ResizingSwapchain { input } => (
                    self.drawing_after(input),
                    Action::RescaleAndDraw(self.local_state.updated(input).frame_dimensions),
                ),
                _ => (self.moved_to(Phase::AwaitingInput), Action::PollInput),
            }
        }
    }

    /// The controller and its request after a draw. A draw that went through
    /// ends the frame, whether or not the swapchain was found suboptimal. A
    /// failed one starts the recovery that the failure calls for.
    pub open spec fn after_draw(self, outcome: Result<Option<Suboptimal>, DrawingError>) -> (
        FrameController,
        Action,
    ) {
        match outcome {
            Ok(_) => (self.moved_to(Phase::AwaitingInput), Action::PollInput),
            Err(error) => match error.recovery_of() {
                Recovery::RecreateSwapchain => (
                    self.moved_to(Phase::RefreshingSwapchain),
                    Action::RecreateSwapchain,
                ),
                Recovery::RebuildRenderer => (
                    self.moved_to(Phase::RebuildingRenderer),
                    Action::RebuildRenderer,
                ),
            },
        }
    }

    /// The controller and its request after the renderer was rebuilt: the
    /// frame is over, or, where no renderer could be built, the loop.
    pub open spec fn after_rebuild(self, succeeded: bool) -> (FrameController, Action) {
        if succeeded {
            (self.moved_to(Phase::AwaitingInput), Action::PollInput)
        } else {
            (self.moved_to(Phase::ExitedWithError), Action::Stop)
        }
    }

    /// The controller and its request after a report that it waited for.
    pub open spec fn next(self, event: Event) -> (FrameController, Action) {
        match event {
            Event::Input(input) => self.after_input(input),
            Event::SwapchainRecreated { succeeded } => self.after_swapchain(succeeded),
            Event::Drawn(outcome) => self.after_draw(outcome),
            Event::RendererRebuilt { succeeded } => self.after_rebuild(succeeded),
        }
    }

    /// While the swapchain is recreated for a resize, the snapshot that is
    /// held back is one that brought a new size and did not ask to close.
    pub open spec fn well_formed(self) -> bool {
        self.phase matches Phase::ResizingSwapchain { input } ==> input.new_frame_size is Some
            && !input.end_requested
    }

    /// The snapshot that a report has the controller take into the state, if
    /// it has it take one: the one reported, where it neither asks to close nor
    /// brings a new size, or the one held back for a resize, once the
    /// swapchain is there.
    pub open spec fn snapshot_taken(self, event: Event) -> Option<UserInput> {
        match (self.phase, event) {
            (Phase::AwaitingInput, Event::Input(input)) => if !input.end_requested
                && input.new_frame_size is None {
                Some(input)
            } else {
                None
            },
            (Phase::ResizingSwapchain { input }, Event::SwapchainRecreated { succeeded: true }) =>
                Some(input),
            _ => None,
        }
    }

    /// The controller after a run of reports, taken in order.
    pub open spec fn after_all(self, events: Seq<Event>) -> FrameController
        decreases events.len(),
    {
        if events.len() == 0 {
            self
        } else {
            self.after_all(events.drop_last()).next(events.last()).0
        }
    }

    /// Every report of the run is the one that the controller waits for when
    /// it comes.
    pub open spec fn in_turn(self, events: Seq<Event>) -> bool
        decreases events.len(),
    {
        events.len() > 0 ==> self.in_turn(events.drop_last()) && self.after_all(
            events.drop_last(),
        ).expects(events.last())
    }

    /// The snapshots that a run of reports has the controller take into the
    /// state, in order.
    pub open spec fn snapshots_taken(self, events: Seq<Event>) -> Seq<UserInput>
        decreases events.len(),
    {
        if events.len() == 0 {
            Seq::empty()
        } else {
            let before = self.snapshots_taken(events.drop_last());
            match self.after_all(events.drop_last()).snapshot_taken(events.last()) {
                Some(input) => before.push(input),
                None => before,
            }
        }
    }

    /// A controller at the start of the loop: running, with the state of a
    /// frame of the given size, and waiting for the first snapshot.
    pub fn new(frame_dimensions: Coord) -> (controller: FrameController)
        ensures
            controller.local_state == LocalState::initial(frame_dimensions),
            controller.phase == Phase::AwaitingInput,
            controller.well_formed(),
    {
        FrameController { local_state: LocalState::new(frame_dimensions), phase: Phase::AwaitingInput }
    }

    /// The state of the loop.
    pub fn state(&self) -> (state: ControllerState)
        ensures
            state == self.phase.state_of(),
    {
        match self.phase {
            Phase::AwaitingInput => ControllerState::Running,
            Phase::AwaitingDraw => ControllerState::Running,
            Phase::ResizingSwapchain { .. } => ControllerState::RecreatingSwapchain,
            Phase::RefreshingSwapchain => ControllerState::RecreatingSwapchain,
            Phase::RebuildingRenderer => ControllerState::RebuildingRenderer,
            Phase::ExitedClean => ControllerState::ExitingClean,
            Phase::ExitedWithError => ControllerState::ExitingError,
        }
    }

    /// Whether `event` is the report that the controller waits for.
    pub fn accepts(&self, event: &Event) -> (accepted: bool)
        ensures
            accepted == self.expects(*event),
    {
        match self.phase {
            Phase::AwaitingInput => matches!(event, Event::Input(_)),
            Phase::AwaitingDraw => matches!(event, Event::Drawn(_)),
            Phase::ResizingSwapchain { .. } => matches!(event, Event::SwapchainRecreated { .. }),
            Phase::RefreshingSwapchain => matches!(event, Event::SwapchainRecreated { .. }),
            Phase::RebuildingRenderer => matches!(event, Event::RendererRebuilt { .. }),
            Phase::ExitedClean => false,
            Phase::ExitedWithError => false,
        }
    }

    /// Takes the report that the controller waited for and answers with what
    /// is to be done next.
    pub fn step(&mut self, event: Event) -> (action: Action)
        requires
            old(self).expects(event),
        ensures
            (*final(self), action) == old(self).next(event),
            old(self).well_formed() ==> final(self).well_formed(),
            old(self).local_state.within_one_step() ==> final(self).local_state.within_one_step(),
    {
        match event {
            Event::Input(input) => {
                if input.end_requested {
                    self.phase = Phase::ExitedClean;
                    Action::Stop
                } else if input.new_frame_size.is_some() {
                    self.phase = Phase::ResizingSwapchain { input };
                    Action::RecreateSwapchain
                } else {
                    self.local_state.update_from_input(&input);
                    self.phase = Phase::AwaitingDraw;
                    Action::Draw
                }
            },
            Event::SwapchainRecreated { succeeded } => {
                if !succeeded {
                    self.phase = Phase::ExitedWithError;
                    Action::Stop
                } else {
                    match self.phase {
                        Phase::ResizingSwapchain { input } => {
                            self.local_state.update_from_input(&input);
                            self.phase = Phase::AwaitingDraw;
                            Action::RescaleAndDraw(self.local_state.frame_dimensions)
                        },
                        _ => {
                            self.phase = Phase::AwaitingInput;
                            Action::PollInput
                        },
                    }
                }
            },
            Event::Drawn(outcome) => {
                match outcome {
                    Ok(_) => {
                        self.phase = Phase::AwaitingInput;
                        Action::PollInput
                    },
                    Err(error) => {
                        match error.recovery() {
                            Recovery::RecreateSwapchain => {
                                self.phase = Phase::RefreshingSwapchain;
                                Action::RecreateSwapchain
                            },
                            Recovery::RebuildRenderer => {
                                self.phase = Phase::RebuildingRenderer;
                                Action::RebuildRenderer
                            },
                        }
                    },
                }
            },
            Event::RendererRebuilt { succeeded } => {
                if succeeded {
                    self.phase = Phase::AwaitingInput;
                    Action::PollInput
                } else {
                    self.phase = Phase::ExitedWithError;
                    Action::Stop
                }
            },
        }
    }
}

/// A request to close takes precedence over everything else in the snapshot:
/// the loop ends cleanly, no draw and no recreation is asked for, and the state
/// is left as it was.
pub proof fn lemma_close_takes_precedence(controller: FrameController, input: UserInput)
    requires
        controller.expects(Event::Input(input)),
        input.end_requested,
    ensures
        controller.next(Event::Input(input)).1 == Action::Stop,
        controller.next(Event::Input(input)).0.phase.state_of() == ControllerState::ExitingClean,
        controller.next(Event::Input(input)).0.local_state == controller.local_state,
{
}

/// Once the loop has ended the controller waits for no report, so nothing
/// follows an exit.
pub proof fn lemma_exit_is_final(controller: FrameController, event: Event)
    requires
        controller.phase.state_of().is_terminal(),
    ensures
        !controller.expects(event),
{
}

/// What the controller asks for and what it then waits for go together: it
/// asks to stop exactly when the loop has ended, and otherwise waits for the
/// report of what it asked for.
pub proof fn lemma_request_matches_phase(controller: FrameController, event: Event)
    requires
        controller.expects(event),
    ensures
        controller.next(event).1 == Action::Stop
            <==> controller.next(event).0.phase.state_of().is_terminal(),
        controller.next(event).1 == Action::PollInput
            <==> controller.next(event).0.phase is AwaitingInput,
        controller.next(event).1 is Draw || controller.next(event).1 is RescaleAndDraw
            <==> controller.next(event).0.phase is AwaitingDraw,
        controller.next(event).1 == Action::RecreateSwapchain
            <==> controller.next(event).0.phase.state_of() == ControllerState::RecreatingSwapchain,
        controller.next(event).1 == Action::RebuildRenderer
            <==> controller.next(event).0.phase.state_of() == ControllerState::RebuildingRenderer,
{
}

/// A draw that fails to acquire or to present an image has the swapchain
/// recreated, once, on the renderer at hand. Where that succeeds the loop runs
/// on with the next frame; where it fails the loop ends with an error. The
/// state is the same throughout.
pub proof fn lemma_soft_failure_recreates_swapchain(
    controller: FrameController,
    error: DrawingError,
    succeeded: bool,
)
    requires
        controller.phase is AwaitingDraw,
        error is AcquireAnImageFromSwapchain || error is PresentIntoSwapchain,
    ensures
        ({
            let (recovering, asked) = controller.next(Event::Drawn(Err(error)));
            let (after, then) = recovering.next(Event::SwapchainRecreated { succeeded });
            &&& asked == Action::RecreateSwapchain
            &&& recovering.phase.state_of() == ControllerState::RecreatingSwapchain
            &&& recovering.expects(Event::SwapchainRecreated { succeeded })
            &&& after.local_state == controller.local_state
            &&& succeeded ==> after.phase == Phase::AwaitingInput && then == Action::PollInput
            &&& !succeeded ==> after.phase == Phase::ExitedWithError && then == Action::Stop
        }),
{
}

/// A draw that fails on a fence has the renderer released and built anew,
/// once. Where that succeeds the loop runs on with the next frame; where it
/// fails the loop ends with an error. The state is the same throughout.
pub proof fn lemma_hard_failure_rebuilds_renderer(
    controller: FrameController,
    error: DrawingError,
    succeeded: bool,
)
    requires
        controller.phase is AwaitingDraw,
        error is ResetFence || error is WaitOnFence,
    ensures
        ({
            let (recovering, asked) = controller.next(Event::Drawn(Err(error)));
            let (after, then) = recovering.next(Event::RendererRebuilt { succeeded });
            &&& asked == Action::RebuildRenderer
            &&& recovering.phase.state_of() == ControllerState::RebuildingRenderer
            &&& recovering.expects(Event::RendererRebuilt { succeeded })
            &&& after.local_state == controller.local_state
            &&& succeeded ==> after.phase == Phase::AwaitingInput && then == Action::PollInput
            &&& !succeeded ==> after.phase == Phase::ExitedWithError && then == Action::Stop
        }),
{
}

/// A draw that went through leaves the loop running, whatever it says of the
/// swapchain.
pub proof fn lemma_success_keeps_running(
    controller: FrameController,
    suboptimal: Option<Suboptimal>,
)
    requires
        controller.phase is AwaitingDraw,
    ensures
        controller.next(Event::Drawn(Ok(suboptimal))) == (
            controller.moved_to(Phase::AwaitingInput),
            Action::PollInput,
        ),
{
}

/// The frame's size changes at one point only: when the swapchain has been
/// recreated for a resize, and then to the size that the snapshot brought.
pub proof fn lemma_frame_dimensions_change_only_on_resize(
    controller: FrameController,
    event: Event,
)
    requires
        controller.expects(event),
        controller.next(event).0.local_state.frame_dimensions
            != controller.local_state.frame_dimensions,
    ensures
        event == (Event::SwapchainRecreated { succeeded: true }),
        controller.phase is ResizingSwapchain,
        controller.phase->input.new_frame_size == Some(
            controller.next(event).0.local_state.frame_dimensions,
        ),
{
}

/// No report takes the accumulator out of the last step before zero, and none
/// has the controller hold back a snapshot that it should not.
pub proof fn lemma_step_keeps_invariants(controller: FrameController, event: Event)
    ensures
        controller.local_state.within_one_step() ==> controller.next(
            event,
        ).0.local_state.within_one_step(),
        controller.well_formed() ==> controller.next(event).0.well_formed(),
{
}

/// A report changes the state only where it has the controller take a
/// snapshot into it, and then as that snapshot does.
pub proof fn lemma_state_changes_by_snapshots_only(controller: FrameController, event: Event)
    requires
        controller.expects(event),
    ensures
        controller.next(event).0.local_state == match controller.snapshot_taken(event) {
            Some(input) => controller.local_state.updated(input),
            None => controller.local_state,
        },
{
}

/// After a run of reports, each in its turn, the state is the one at the
/// start, updated by the snapshots that were taken into it, in order.
pub proof fn lemma_run_updates_state_by_snapshots_taken(
    controller: FrameController,
    events: Seq<Event>,
)
    requires
        controller.in_turn(events),
    ensures
        controller.after_all(events).local_state == controller.local_state.updated_by_all(
            controller.snapshots_taken(events),
        ),
    decreases events.len(),
{
    if events.len() > 0 {
        let earlier = events.drop_last();
        lemma_run_updates_state_by_snapshots_taken(controller, earlier);
        let before = controller.after_all(earlier);
        lemma_state_changes_by_snapshots_only(before, events.last());
        match before.snapshot_taken(events.last()) {
            Some(input) => {
                let taken = controller.snapshots_taken(earlier);
                assert(taken.push(input).drop_last() =~= taken);
            },
            None => {},
        }
    }
}

/// After a run of reports, the accumulator is within the last step before
/// zero where it was at the start, and the controller holds back no snapshot
/// that it should not where it held none at the start.
pub proof fn lemma_run_keeps_invariants(controller: FrameController, events: Seq<Event>)
    ensures
        controller.local_state.within_one_step() ==> controller.after_all(
            events,
        ).local_state.within_one_step(),
        controller.well_formed() ==> controller.after_all(events).well_formed(),
    decreases events.len(),
{
    if events.len() > 0 {
        lemma_run_keeps_invariants(controller, events.drop_last());
        lemma_step_keeps_invariants(controller.after_all(events.drop_last()), events.last());
    }
}

/// Nothing follows an exit: a run of reports, each in its turn, has ended the
/// loop with its last report at the earliest.
pub proof fn lemma_run_ends_with_exit(controller: FrameController, events: Seq<Event>, at: int)
    requires
        controller.in_turn(events),
        0 <= at <= events.len(),
        controller.after_all(events.take(at)).phase.state_of().is_terminal(),
    ensures
        at == events.len(),
    decreases events.len(),
{
    if at < events.len() {
        let earlier = events.drop_last();
        if at < earlier.len() {
            assert(earlier.take(at) =~= events.take(at));
            lemma_run_ends_with_exit(controller, earlier, at);
        } else {
            assert(events.take(at) =~= earlier);
        }
    }
}

} // verus!
