use raec::scheduler::{Action, Cause, Command, Outcome, Phase, Signal, Worker};

#[test]
fn session_goes_from_idle_to_running_to_stopped() {
    let phase = Phase::Idle;
    let phase = phase.apply(Command::Start).unwrap();
    assert_eq!(phase, Phase::Running);
    let phase = phase.apply(Command::Stop).unwrap();
    assert_eq!(phase, Phase::StopRequested);
    let phase = phase.apply(Command::Join).unwrap();
    assert_eq!(phase, Phase::Stopped);
    assert_eq!(phase.apply(Command::Start), Some(Phase::Running));
}

#[test]
fn commands_out_of_order_are_refused() {
    assert_eq!(Phase::Idle.apply(Command::Stop), None);
    assert_eq!(Phase::Idle.apply(Command::Join), None);
    assert_eq!(Phase::Running.apply(Command::Start), None);
    assert_eq!(Phase::Running.apply(Command::Join), None);
    assert_eq!(Phase::StopRequested.apply(Command::Start), None);
    assert_eq!(Phase::StopRequested.apply(Command::Stop), None);
    assert_eq!(Phase::Stopped.apply(Command::Stop), None);
    assert_eq!(Phase::Stopped.apply(Command::Join), None);
}

#[test]
fn worker_polls_first() {
    assert_eq!(Worker::new(), Worker::Checking);
    assert_eq!(Worker::new().action(), Action::Poll);
}

#[test]
fn stop_right_after_start_ends_the_thread_at_its_first_poll() {
    let worker = Worker::new();
    assert_eq!(worker.action(), Action::Poll);
    let worker = worker.advance(Outcome::Polled(Signal::Kill));
    assert_eq!(worker, Worker::Done(Cause::Killed));
    assert_eq!(worker.action(), Action::Exit(Cause::Killed));
}

#[test]
fn lost_sender_ends_the_thread() {
    let worker = Worker::Checking.advance(Outcome::Polled(Signal::Disconnected));
    assert_eq!(worker.action(), Action::Exit(Cause::Orphaned));
}

#[test]
fn quiet_poll_clears_a_batch() {
    let worker = Worker::Checking.advance(Outcome::Polled(Signal::Quiet));
    assert_eq!(worker, Worker::Working);
    assert_eq!(worker.action(), Action::Run);
}

#[test]
fn batch_with_frames_leads_back_to_the_poll() {
    assert_eq!(Worker::Working.advance(Outcome::Batch(1)), Worker::Checking);
    assert_eq!(Worker::Working.advance(Outcome::Batch(4800)), Worker::Checking);
}

#[test]
fn batch_without_frames_lets_the_thread_park() {
    let worker = Worker::Working.advance(Outcome::Batch(0));
    assert_eq!(worker, Worker::Resting);
    assert_eq!(worker.action(), Action::Park);
    let worker = worker.advance(Outcome::Woke);
    assert_eq!(worker.action(), Action::Poll);
}

#[test]
fn failed_batch_ends_the_thread() {
    let worker = Worker::Working.advance(Outcome::Fault);
    assert_eq!(worker.action(), Action::Exit(Cause::Faulted));
}

#[test]
fn parked_thread_sees_the_signal_when_it_wakes() {
    let mut worker = Worker::Resting;
    let mut actions = Vec::new();
    for outcome in [Outcome::Woke, Outcome::Polled(Signal::Kill)] {
        actions.push(worker.action());
        worker = worker.advance(outcome);
    }
    assert_eq!(actions, vec![Action::Park, Action::Poll]);
    assert_eq!(worker, Worker::Done(Cause::Killed));
}

#[test]
fn thread_in_a_batch_stops_within_three_actions() {
    for frames in [0_usize, 1, 1000] {
        let mut worker = Worker::Working.advance(Outcome::Batch(frames));
        let mut steps = 1;
        while worker.action() != Action::Exit(Cause::Killed) {
            worker = match worker.action() {
                Action::Poll => worker.advance(Outcome::Polled(Signal::Kill)),
                Action::Park => worker.advance(Outcome::Woke),
                other => panic!("{:?} after the signal", other),
            };
            steps += 1;
        }
        assert!(steps <= 3);
    }
}

#[test]
fn outcome_of_another_action_changes_nothing() {
    assert_eq!(Worker::Checking.advance(Outcome::Batch(3)), Worker::Checking);
    assert_eq!(Worker::Checking.advance(Outcome::Woke), Worker::Checking);
    assert_eq!(Worker::Working.advance(Outcome::Polled(Signal::Kill)), Worker::Working);
    assert_eq!(Worker::Resting.advance(Outcome::Batch(0)), Worker::Resting);
    assert_eq!(Worker::Resting.advance(Outcome::Fault), Worker::Resting);
}

#[test]
fn finished_thread_stays_finished() {
    for cause in [Cause::Killed, Cause::Orphaned, Cause::Faulted] {
        let done = Worker::Done(cause);
        assert_eq!(done.advance(Outcome::Polled(Signal::Quiet)), done);
        assert_eq!(done.advance(Outcome::Batch(5)), done);
        assert_eq!(done.advance(Outcome::Woke), done);
        assert_eq!(done.advance(Outcome::Fault), done);
    }
}
