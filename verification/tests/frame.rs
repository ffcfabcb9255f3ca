use radial_overlay::error::FrameError;
use radial_overlay::frame::{
    FrameAction, FrameEvent, FramePhase, FrameScheduler, FRAMES_IN_FLIGHT,
};

/// Runs one frame in which every step succeeds; returns the actions issued.
fn run_frame(scheduler: &mut FrameScheduler, image: u32) -> Vec<FrameAction> {
    let mut actions = vec![
        scheduler.step(FrameEvent::Tick { visible: true }),
        scheduler.step(FrameEvent::Completed),
        scheduler.step(FrameEvent::Completed),
        scheduler.step(FrameEvent::Acquired { image }),
    ];
    while *actions.last().unwrap() != FrameAction::Rest {
        actions.push(scheduler.step(FrameEvent::Completed));
    }
    actions
}

/// Brings a fresh scheduler to the point where `steps` steps of its first
/// frame have been issued.
fn scheduler_after(steps: usize) -> FrameScheduler {
    let events = [
        FrameEvent::Tick { visible: true },
        FrameEvent::Completed,
        FrameEvent::Completed,
        FrameEvent::Acquired { image: 1 },
        FrameEvent::Completed,
        FrameEvent::Completed,
    ];
    let mut scheduler = FrameScheduler::new(3);
    for event in events.iter().take(steps) {
        scheduler.step(*event);
    }
    scheduler
}

#[test]
fn scheduler_starts_idle_on_slot_zero() {
    let scheduler = FrameScheduler::new(3);
    assert_eq!(scheduler.slot(), 0);
    assert_eq!(scheduler.phase(), FramePhase::Idle);
    assert_eq!(scheduler.image_count(), 3);
    for image in 0..5 {
        assert_eq!(scheduler.in_flight(image), None);
    }
    assert_eq!(FrameScheduler::new(0).image_count(), 0);
    assert_eq!(FRAMES_IN_FLIGHT, 2);
}

#[test]
fn frame_issues_its_steps_in_order() {
    let mut scheduler = FrameScheduler::new(3);
    assert_eq!(
        run_frame(&mut scheduler, 2),
        vec![
            FrameAction::WaitGate { slot: 0 },
            FrameAction::ResetGate { slot: 0 },
            FrameAction::AcquireImage { slot: 0 },
            FrameAction::UpdateUniforms { image: 2 },
            FrameAction::Submit { image: 2, slot: 0 },
            FrameAction::Present { image: 2, slot: 0 },
            FrameAction::Rest,
        ]
    );
    assert_eq!(scheduler.slot(), 1);
    assert_eq!(scheduler.phase(), FramePhase::Idle);
}

#[test]
fn phases_follow_the_steps() {
    let expected = [
        FramePhase::Idle,
        FramePhase::Waiting,
        FramePhase::Resetting,
        FramePhase::Acquiring,
        FramePhase::Updating { image: 1 },
        FramePhase::Submitting { image: 1 },
        FramePhase::Presenting { image: 1 },
    ];
    for (steps, phase) in expected.iter().enumerate() {
        assert_eq!(scheduler_after(steps).phase(), *phase);
        assert_eq!(scheduler_after(steps).slot(), 0);
    }
}

#[test]
fn slot_after_k_frames_is_k_mod_two() {
    let mut scheduler = FrameScheduler::new(3);
    for k in 0..25usize {
        assert_eq!(scheduler.slot(), k % 2);
        // The image index wanders on its own: three images against two slots.
        let image = (k % 3) as u32;
        let actions = run_frame(&mut scheduler, image);
        assert_eq!(actions[0], FrameAction::WaitGate { slot: k % 2 });
        assert!(actions.contains(&FrameAction::UpdateUniforms { image }));
        assert!(actions.contains(&FrameAction::Submit { image, slot: k % 2 }));
        assert_eq!(scheduler.in_flight(image), Some(k % 2));
    }
    assert_eq!(scheduler.slot(), 1);
}

#[test]
fn every_frame_begins_with_the_wait_on_its_slot() {
    let mut scheduler = FrameScheduler::new(3);
    for k in 0..6usize {
        // Always the same image: from the second frame on it is waited for.
        let actions = run_frame(&mut scheduler, 0);
        assert_eq!(actions[0], FrameAction::WaitGate { slot: k % 2 });
        assert_eq!(actions[1], FrameAction::ResetGate { slot: k % 2 });
        assert_eq!(actions[2], FrameAction::AcquireImage { slot: k % 2 });
        assert_eq!(scheduler.slot(), (k + 1) % 2);
    }
}

#[test]
fn hidden_overlay_issues_no_work() {
    let mut scheduler = FrameScheduler::new(3);
    for _ in 0..5 {
        assert_eq!(scheduler.step(FrameEvent::Tick { visible: false }), FrameAction::Rest);
        assert_eq!(scheduler.phase(), FramePhase::Idle);
        assert_eq!(scheduler.slot(), 0);
    }
    run_frame(&mut scheduler, 0);
    assert_eq!(scheduler.step(FrameEvent::Tick { visible: false }), FrameAction::Rest);
    assert_eq!(scheduler.slot(), 1);
}

#[test]
fn failure_of_each_step_has_its_error() {
    let errors = [
        FrameError::GateWait,
        FrameError::GateReset,
        FrameError::Acquire,
        FrameError::UniformWrite,
        FrameError::Submit,
        FrameError::Present,
    ];
    for (i, error) in errors.iter().enumerate() {
        let mut scheduler = scheduler_after(i + 1);
        assert_eq!(scheduler.step(FrameEvent::Failed), FrameAction::Abort { error: *error });
        assert_eq!(scheduler.phase(), FramePhase::Failed { error: *error });
        assert_eq!(scheduler.slot(), 0);
    }
}

#[test]
fn failure_is_final() {
    let mut scheduler = scheduler_after(3);
    assert_eq!(
        scheduler.step(FrameEvent::Failed),
        FrameAction::Abort { error: FrameError::Acquire }
    );
    // Until the caller recovers.
    for event in [
        FrameEvent::Tick { visible: true },
        FrameEvent::Tick { visible: false },
        FrameEvent::Completed,
        FrameEvent::Acquired { image: 0 },
        FrameEvent::Failed,
    ] {
        assert_eq!(scheduler.step(event), FrameAction::Abort { error: FrameError::Acquire });
        assert_eq!(scheduler.phase(), FramePhase::Failed { error: FrameError::Acquire });
    }
}

#[test]
fn event_out_of_turn_is_a_protocol_error() {
    let protocol = FrameAction::Abort { error: FrameError::Protocol };

    let mut idle = FrameScheduler::new(3);
    assert_eq!(idle.step(FrameEvent::Completed), protocol);

    let mut idle = FrameScheduler::new(3);
    assert_eq!(idle.step(FrameEvent::Failed), protocol);

    let mut idle = FrameScheduler::new(3);
    assert_eq!(idle.step(FrameEvent::Acquired { image: 0 }), protocol);

    // A tick while a step is outstanding.
    for steps in 1..=6 {
        let mut busy = scheduler_after(steps);
        assert_eq!(busy.step(FrameEvent::Tick { visible: true }), protocol);
    }

    // An image where none was asked for, and none where one was.
    let mut waiting = scheduler_after(1);
    assert_eq!(waiting.step(FrameEvent::Acquired { image: 0 }), protocol);
    let mut acquiring = scheduler_after(3);
    assert_eq!(acquiring.step(FrameEvent::Completed), protocol);
}

#[test]
fn image_last_submitted_under_the_other_slot_is_waited_for() {
    let mut scheduler = FrameScheduler::new(3);
    // Frame 0 on slot 0 draws into image 1.
    run_frame(&mut scheduler, 1);
    assert_eq!(scheduler.in_flight(1), Some(0));
    // Frame 1 on slot 1 acquires image 1 again: slot 0's gate, which
    // the submit of frame 0 signals, has not been waited on since.
    assert_eq!(
        run_frame(&mut scheduler, 1),
        vec![
            FrameAction::WaitGate { slot: 1 },
            FrameAction::ResetGate { slot: 1 },
            FrameAction::AcquireImage { slot: 1 },
            FrameAction::WaitGate { slot: 0 },
            FrameAction::UpdateUniforms { image: 1 },
            FrameAction::Submit { image: 1, slot: 1 },
            FrameAction::Present { image: 1, slot: 1 },
            FrameAction::Rest,
        ]
    );
    assert_eq!(scheduler.in_flight(1), Some(1));
    assert_eq!(scheduler.slot(), 0);
}

#[test]
fn image_wait_has_its_own_phase() {
    let mut scheduler = FrameScheduler::new(2);
    run_frame(&mut scheduler, 0);
    scheduler.step(FrameEvent::Tick { visible: true });
    scheduler.step(FrameEvent::Completed);
    scheduler.step(FrameEvent::Completed);
    assert_eq!(
        scheduler.step(FrameEvent::Acquired { image: 0 }),
        FrameAction::WaitGate { slot: 0 }
    );
    assert_eq!(scheduler.phase(), FramePhase::WaitingImage { image: 0, slot: 0 });
    assert_eq!(scheduler.slot(), 1);
    assert_eq!(
        scheduler.step(FrameEvent::Completed),
        FrameAction::UpdateUniforms { image: 0 }
    );
    assert_eq!(scheduler.in_flight(0), None);
}

#[test]
fn failed_image_wait_is_a_gate_wait_failure() {
    let mut scheduler = FrameScheduler::new(2);
    run_frame(&mut scheduler, 0);
    scheduler.step(FrameEvent::Tick { visible: true });
    scheduler.step(FrameEvent::Completed);
    scheduler.step(FrameEvent::Completed);
    scheduler.step(FrameEvent::Acquired { image: 0 });
    assert_eq!(
        scheduler.step(FrameEvent::Failed),
        FrameAction::Abort { error: FrameError::GateWait }
    );
    // The image is still taken to be in flight.
    assert_eq!(scheduler.in_flight(0), Some(0));
}

#[test]
fn image_last_submitted_under_the_same_slot_needs_no_second_wait() {
    let mut scheduler = FrameScheduler::new(3);
    run_frame(&mut scheduler, 2); // slot 0
    run_frame(&mut scheduler, 0); // slot 1
    // Frame 2 is on slot 0 again; its first step waits on that gate which
    // the submit of image 2 signals.
    let actions = run_frame(&mut scheduler, 2);
    assert_eq!(actions.len(), 7);
    assert_eq!(actions[3], FrameAction::UpdateUniforms { image: 2 });
}

#[test]
fn waiting_on_a_gate_frees_every_image_of_its_slot() {
    let mut scheduler = FrameScheduler::new(3);
    run_frame(&mut scheduler, 0); // slot 0
    run_frame(&mut scheduler, 1); // slot 1
    assert_eq!(scheduler.in_flight(0), Some(0));
    assert_eq!(scheduler.in_flight(1), Some(1));
    scheduler.step(FrameEvent::Tick { visible: true });
    assert_eq!(scheduler.in_flight(0), Some(0));
    scheduler.step(FrameEvent::Completed);
    assert_eq!(scheduler.in_flight(0), None);
    assert_eq!(scheduler.in_flight(1), Some(1));
}

#[test]
fn two_images_against_two_slots_in_step_never_wait_twice() {
    let mut scheduler = FrameScheduler::new(2);
    for k in 0..10u32 {
        assert_eq!(run_frame(&mut scheduler, k % 2).len(), 7);
    }
}

#[test]
fn one_image_is_waited_for_in_every_frame_but_the_first() {
    let mut scheduler = FrameScheduler::new(1);
    assert_eq!(run_frame(&mut scheduler, 0).len(), 7);
    for k in 1..8usize {
        let actions = run_frame(&mut scheduler, 0);
        assert_eq!(actions.len(), 8);
        assert_eq!(actions[3], FrameAction::WaitGate { slot: (k + 1) % 2 });
    }
}

#[test]
fn image_index_out_of_range_is_a_failure() {
    let mut scheduler = scheduler_after(3);
    assert_eq!(
        scheduler.step(FrameEvent::Acquired { image: 3 }),
        FrameAction::Abort { error: FrameError::UnknownImage }
    );
    assert_eq!(scheduler.phase(), FramePhase::Failed { error: FrameError::UnknownImage });
    let mut scheduler = scheduler_after(3);
    assert_eq!(
        scheduler.step(FrameEvent::Acquired { image: u32::MAX }),
        FrameAction::Abort { error: FrameError::UnknownImage }
    );
    let mut scheduler = scheduler_after(3);
    assert_eq!(
        scheduler.step(FrameEvent::Acquired { image: 2 }),
        FrameAction::UpdateUniforms { image: 2 }
    );
}

#[test]
fn recover_takes_a_failed_scheduler_back_to_idle() {
    let mut scheduler = FrameScheduler::new(3);
    run_frame(&mut scheduler, 1);
    scheduler.step(FrameEvent::Tick { visible: true });
    scheduler.step(FrameEvent::Completed);
    scheduler.step(FrameEvent::Completed);
    assert_eq!(
        scheduler.step(FrameEvent::Failed),
        FrameAction::Abort { error: FrameError::Acquire }
    );
    scheduler.recover();
    assert_eq!(scheduler.phase(), FramePhase::Idle);
    // The slot of the failed frame and what is in flight are kept.
    assert_eq!(scheduler.slot(), 1);
    assert_eq!(scheduler.in_flight(1), Some(0));
    assert_eq!(scheduler.image_count(), 3);
    assert_eq!(
        scheduler.step(FrameEvent::Tick { visible: true }),
        FrameAction::WaitGate { slot: 1 }
    );
}

#[test]
fn recover_as_a_report_from_any_phase() {
    for steps in 0..=6 {
        let mut scheduler = scheduler_after(steps);
        assert_eq!(scheduler.step(FrameEvent::Recover), FrameAction::Rest);
        assert_eq!(scheduler.phase(), FramePhase::Idle);
        assert_eq!(scheduler.slot(), 0);
    }
    // A submit that was not reported leaves no trace.
    let mut scheduler = scheduler_after(5);
    assert_eq!(scheduler.phase(), FramePhase::Submitting { image: 1 });
    scheduler.recover();
    assert_eq!(scheduler.in_flight(1), None);
    // One that was reported does.
    let mut scheduler = scheduler_after(6);
    assert_eq!(scheduler.phase(), FramePhase::Presenting { image: 1 });
    scheduler.recover();
    assert_eq!(scheduler.in_flight(1), Some(0));
}
