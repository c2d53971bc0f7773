use frame_controller::{
    Action, ControllerState, Coord, DrawingError, Event, FrameController, LocalState, Phase,
    Recovery, UserInput,
};
use gfx_hal::window::Suboptimal;

/// A renderer that only counts what is asked of it, and answers from a script.
struct StubRenderer {
    draws: Vec<Result<Option<Suboptimal>, DrawingError>>,
    recreations_succeed: bool,
    rebuilds_succeed: bool,
    draw_calls: usize,
    rescales: Vec<Coord>,
    recreations: usize,
    rebuilds: usize,
}

impl StubRenderer {
    fn new(mut draws: Vec<Result<Option<Suboptimal>, DrawingError>>) -> StubRenderer {
        draws.reverse();
        StubRenderer {
            draws,
            recreations_succeed: true,
            rebuilds_succeed: true,
            draw_calls: 0,
            rescales: Vec::new(),
            recreations: 0,
            rebuilds: 0,
        }
    }

    fn draw(&mut self) -> Result<Option<Suboptimal>, DrawingError> {
        self.draw_calls += 1;
        self.draws.pop().unwrap_or(Ok(None))
    }
}

/// Feeds the snapshots to the controller one by one and performs on the stub
/// what the controller asks for, until the snapshots are used up or the loop
/// has ended.
fn drive(controller: &mut FrameController, renderer: &mut StubRenderer, inputs: Vec<UserInput>) {
    let mut inputs = inputs.into_iter();
    let mut action = Action::PollInput;
    loop {
        let event = match action {
            Action::PollInput => match inputs.next() {
                Some(input) => Event::Input(input),
                None => return,
            },
            Action::RecreateSwapchain => {
                renderer.recreations += 1;
                Event::SwapchainRecreated { succeeded: renderer.recreations_succeed }
            }
            Action::RescaleAndDraw(size) => {
                renderer.rescales.push(size);
                Event::Drawn(renderer.draw())
            }
            Action::Draw => Event::Drawn(renderer.draw()),
            Action::RebuildRenderer => {
                renderer.rebuilds += 1;
                Event::RendererRebuilt { succeeded: renderer.rebuilds_succeed }
            }
            Action::Stop => return,
        };
        assert!(controller.accepts(&event));
        action = controller.step(event);
    }
}

fn passing(elapsed_ticks: u64) -> UserInput {
    UserInput { end_requested: false, new_frame_size: None, new_mouse_position: None, elapsed_ticks }
}

fn closing() -> UserInput {
    UserInput { end_requested: true, new_frame_size: None, new_mouse_position: None, elapsed_ticks: 0 }
}

fn resizing(x: i32, y: i32, elapsed_ticks: u64) -> UserInput {
    UserInput {
        end_requested: false,
        new_frame_size: Some(Coord::new(x, y)),
        new_mouse_position: None,
        elapsed_ticks,
    }
}

fn awaiting_draw() -> FrameController {
    let mut controller = FrameController::new(Coord::new(1280, 720));
    assert_eq!(controller.step(Event::Input(passing(0))), Action::Draw);
    controller
}

#[test]
fn a_new_controller_runs_and_waits_for_input() {
    let controller = FrameController::new(Coord::new(1280, 720));
    assert_eq!(controller.phase, Phase::AwaitingInput);
    assert_eq!(controller.state(), ControllerState::Running);
    assert_eq!(controller.local_state, LocalState::new(Coord::new(1280, 720)));
}

#[test]
fn each_failure_has_its_recovery() {
    assert_eq!(DrawingError::AcquireAnImageFromSwapchain.recovery(), Recovery::RecreateSwapchain);
    assert_eq!(DrawingError::PresentIntoSwapchain.recovery(), Recovery::RecreateSwapchain);
    assert_eq!(DrawingError::ResetFence.recovery(), Recovery::RebuildRenderer);
    assert_eq!(DrawingError::WaitOnFence.recovery(), Recovery::RebuildRenderer);
}

#[test]
fn a_plain_frame_updates_draws_and_polls_again() {
    let mut controller = FrameController::new(Coord::new(1280, 720));
    let action = controller.step(Event::Input(passing(1_250_000)));
    assert_eq!(action, Action::Draw);
    assert_eq!(controller.phase, Phase::AwaitingDraw);
    assert_eq!(controller.state(), ControllerState::Running);
    assert_eq!(controller.local_state.spare_time, -750_000);

    let action = controller.step(Event::Drawn(Ok(None)));
    assert_eq!(action, Action::PollInput);
    assert_eq!(controller.phase, Phase::AwaitingInput);
    assert_eq!(controller.state(), ControllerState::Running);
    assert_eq!(controller.local_state.spare_time, -750_000);
}

#[test]
fn a_suboptimal_draw_still_counts_as_done() {
    let mut controller = awaiting_draw();
    let action = controller.step(Event::Drawn(Ok(Some(Suboptimal))));
    assert_eq!(action, Action::PollInput);
    assert_eq!(controller.state(), ControllerState::Running);
}

#[test]
fn a_soft_failure_is_recovered_by_one_recreation() {
    let mut controller = FrameController::new(Coord::new(1280, 720));
    let mut renderer = StubRenderer::new(vec![Err(DrawingError::AcquireAnImageFromSwapchain)]);
    drive(&mut controller, &mut renderer, vec![passing(10), passing(10), passing(10)]);
    assert_eq!(renderer.recreations, 1);
    assert_eq!(renderer.rebuilds, 0);
    assert_eq!(renderer.draw_calls, 3);
    assert_eq!(controller.state(), ControllerState::Running);
    assert_ne!(controller.state(), ControllerState::ExitingError);
    assert_eq!(controller.phase, Phase::AwaitingInput);
}

#[test]
fn a_failed_presentation_is_soft_too() {
    let mut controller = awaiting_draw();
    let action = controller.step(Event::Drawn(Err(DrawingError::PresentIntoSwapchain)));
    assert_eq!(action, Action::RecreateSwapchain);
    assert_eq!(controller.phase, Phase::RefreshingSwapchain);
    assert_eq!(controller.state(), ControllerState::RecreatingSwapchain);
    let action = controller.step(Event::SwapchainRecreated { succeeded: true });
    assert_eq!(action, Action::PollInput);
    assert_eq!(controller.state(), ControllerState::Running);
}

#[test]
fn a_soft_failure_whose_recreation_fails_ends_with_an_error() {
    let mut controller = FrameController::new(Coord::new(1280, 720));
    let mut renderer = StubRenderer::new(vec![Err(DrawingError::PresentIntoSwapchain)]);
    renderer.recreations_succeed = false;
    drive(&mut controller, &mut renderer, vec![passing(10), passing(10)]);
    assert_eq!(renderer.recreations, 1);
    assert_eq!(renderer.draw_calls, 1);
    assert_eq!(controller.state(), ControllerState::ExitingError);
    assert_eq!(controller.phase, Phase::ExitedWithError);
}

#[test]
fn a_hard_failure_is_recovered_by_one_rebuild() {
    let mut controller = FrameController::new(Coord::new(1280, 720));
    let mut renderer = StubRenderer::new(vec![Err(DrawingError::WaitOnFence)]);
    drive(&mut controller, &mut renderer, vec![passing(10), passing(10), passing(10)]);
    assert_eq!(renderer.rebuilds, 1);
    assert_eq!(renderer.recreations, 0);
    assert_eq!(renderer.draw_calls, 3);
    assert_eq!(controller.state(), ControllerState::Running);
}

#[test]
fn a_hard_failure_whose_rebuild_fails_ends_with_an_error() {
    let mut controller = FrameController::new(Coord::new(1280, 720));
    let mut renderer = StubRenderer::new(vec![Err(DrawingError::WaitOnFence)]);
    renderer.rebuilds_succeed = false;
    drive(&mut controller, &mut renderer, vec![passing(10), passing(10), passing(10)]);
    assert_eq!(renderer.rebuilds, 1);
    assert_eq!(renderer.recreations, 0);
    assert_eq!(renderer.draw_calls, 1);
    assert_eq!(controller.state(), ControllerState::ExitingError);
}

#[test]
fn a_failed_fence_reset_is_hard_too() {
    let mut controller = awaiting_draw();
    let action = controller.step(Event::Drawn(Err(DrawingError::ResetFence)));
    assert_eq!(action, Action::RebuildRenderer);
    assert_eq!(controller.phase, Phase::RebuildingRenderer);
    assert_eq!(controller.state(), ControllerState::RebuildingRenderer);
    let action = controller.step(Event::RendererRebuilt { succeeded: true });
    assert_eq!(action, Action::PollInput);
    assert_eq!(controller.phase, Phase::AwaitingInput);
}

#[test]
fn a_request_to_close_ends_the_loop_without_a_draw() {
    let mut controller = FrameController::new(Coord::new(1280, 720));
    let mut renderer = StubRenderer::new(vec![]);
    drive(&mut controller, &mut renderer, vec![passing(10), closing(), passing(10)]);
    assert_eq!(renderer.draw_calls, 1);
    assert_eq!(controller.state(), ControllerState::ExitingClean);
    assert_eq!(controller.phase, Phase::ExitedClean);
}

#[test]
fn a_request_to_close_comes_before_a_resize_in_the_same_snapshot() {
    let mut controller = FrameController::new(Coord::new(1280, 720));
    let input = UserInput {
        end_requested: true,
        new_frame_size: Some(Coord::new(800, 600)),
        new_mouse_position: Some(Coord::new(5, 5)),
        elapsed_ticks: 77,
    };
    let action = controller.step(Event::Input(input));
    assert_eq!(action, Action::Stop);
    assert_eq!(controller.state(), ControllerState::ExitingClean);
    assert_eq!(controller.local_state, LocalState::new(Coord::new(1280, 720)));
}

#[test]
fn a_resize_recreates_the_swapchain_then_rescales_and_draws() {
    let mut controller = FrameController::new(Coord::new(1280, 720));
    let input = resizing(800, 600, 400_000);
    let action = controller.step(Event::Input(input));
    assert_eq!(action, Action::RecreateSwapchain);
    assert_eq!(controller.phase, Phase::ResizingSwapchain { input });
    assert_eq!(controller.state(), ControllerState::RecreatingSwapchain);
    assert_eq!(controller.local_state, LocalState::new(Coord::new(1280, 720)));

    let action = controller.step(Event::SwapchainRecreated { succeeded: true });
    assert_eq!(action, Action::RescaleAndDraw(Coord { x: 800, y: 600 }));
    assert_eq!(controller.phase, Phase::AwaitingDraw);
    assert_eq!(controller.local_state.frame_dimensions, Coord { x: 800, y: 600 });
    assert_eq!(controller.local_state.spare_time, -600_000);

    let action = controller.step(Event::Drawn(Ok(None)));
    assert_eq!(action, Action::PollInput);
}

#[test]
fn a_resize_whose_recreation_fails_ends_with_an_error_and_keeps_the_size() {
    let mut controller = FrameController::new(Coord::new(1280, 720));
    let mut renderer = StubRenderer::new(vec![]);
    renderer.recreations_succeed = false;
    drive(&mut controller, &mut renderer, vec![resizing(800, 600, 400_000), passing(1)]);
    assert_eq!(renderer.recreations, 1);
    assert_eq!(renderer.draw_calls, 0);
    assert!(renderer.rescales.is_empty());
    assert_eq!(controller.state(), ControllerState::ExitingError);
    assert_eq!(controller.local_state, LocalState::new(Coord::new(1280, 720)));
}

#[test]
fn the_frame_size_follows_the_latest_resize_through_the_loop() {
    let mut controller = FrameController::new(Coord::new(1280, 720));
    let mut renderer = StubRenderer::new(vec![]);
    let inputs = vec![passing(1), resizing(800, 600, 2), passing(3), resizing(1920, 1080, 4), passing(5)];
    drive(&mut controller, &mut renderer, inputs);
    assert_eq!(controller.local_state.frame_dimensions, Coord { x: 1920, y: 1080 });
    assert_eq!(renderer.rescales, vec![Coord { x: 800, y: 600 }, Coord { x: 1920, y: 1080 }]);
    assert_eq!(renderer.recreations, 2);
    assert_eq!(renderer.draw_calls, 5);
    assert_eq!(controller.local_state.spare_time, -999_985);
    assert_eq!(controller.state(), ControllerState::Running);
}

#[test]
fn a_stale_swapchain_right_after_a_resize_is_recreated_again() {
    let mut controller = FrameController::new(Coord::new(1280, 720));
    let mut renderer = StubRenderer::new(vec![Err(DrawingError::AcquireAnImageFromSwapchain)]);
    drive(&mut controller, &mut renderer, vec![resizing(640, 480, 0), passing(0)]);
    assert_eq!(renderer.recreations, 2);
    assert_eq!(renderer.draw_calls, 2);
    assert_eq!(renderer.rescales, vec![Coord { x: 640, y: 480 }]);
    assert_eq!(controller.state(), ControllerState::Running);
}

#[test]
fn the_controller_accepts_only_the_report_it_waits_for() {
    let reports = || {
        vec![
            Event::Input(passing(0)),
            Event::Drawn(Ok(None)),
            Event::Drawn(Err(DrawingError::ResetFence)),
            Event::SwapchainRecreated { succeeded: true },
            Event::SwapchainRecreated { succeeded: false },
            Event::RendererRebuilt { succeeded: true },
        ]
    };
    let local_state = LocalState::new(Coord::new(1280, 720));
    let table = vec![
        (Phase::AwaitingInput, vec![true, false, false, false, false, false]),
        (Phase::AwaitingDraw, vec![false, true, true, false, false, false]),
        (Phase::ResizingSwapchain { input: resizing(1, 1, 0) }, vec![false, false, false, true, true, false]),
        (Phase::RefreshingSwapchain, vec![false, false, false, true, true, false]),
        (Phase::RebuildingRenderer, vec![false, false, false, false, false, true]),
        (Phase::ExitedClean, vec![false, false, false, false, false, false]),
        (Phase::ExitedWithError, vec![false, false, false, false, false, false]),
    ];
    for (phase, expected) in table {
        let controller = FrameController { local_state, phase };
        let accepted: Vec<bool> = reports().iter().map(|report| controller.accepts(report)).collect();
        assert_eq!(accepted, expected);
    }
}

#[test]
fn every_phase_belongs_to_one_state() {
    let local_state = LocalState::new(Coord::new(1280, 720));
    let of = |phase: Phase| FrameController { local_state, phase }.state();
    assert_eq!(of(Phase::AwaitingInput), ControllerState::Running);
    assert_eq!(of(Phase::AwaitingDraw), ControllerState::Running);
    assert_eq!(of(Phase::ResizingSwapchain { input: resizing(1, 1, 0) }), ControllerState::RecreatingSwapchain);
    assert_eq!(of(Phase::RefreshingSwapchain), ControllerState::RecreatingSwapchain);
    assert_eq!(of(Phase::RebuildingRenderer), ControllerState::RebuildingRenderer);
    assert_eq!(of(Phase::ExitedClean), ControllerState::ExitingClean);
    assert_eq!(of(Phase::ExitedWithError), ControllerState::ExitingError);
}
