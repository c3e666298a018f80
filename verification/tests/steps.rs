use actor_context::{Action, ActorState, Context, ContextFut, Event, Stage, StepError};

fn started_pair() -> (ContextFut<u32>, Context<u32>) {
    let mut ctx: Context<u32> = Context::new();
    let mut driver: ContextFut<u32> = ContextFut::new();
    assert_eq!(driver.step(&mut ctx, Event::Polled), Ok(Action::Start));
    (driver, ctx)
}

#[test]
fn first_poll_asks_for_the_startup_hook() {
    let mut ctx: Context<u32> = Context::new();
    let mut driver: ContextFut<u32> = ContextFut::new();
    assert_eq!(driver.stage(), Stage::Idle);
    assert_eq!(driver.step(&mut ctx, Event::Polled), Ok(Action::Start));
    assert_eq!(driver.stage(), Stage::Starting);
    assert_eq!(ctx.state(), ActorState::Started);
}

#[test]
fn startup_makes_the_actor_running_and_polls_the_mailbox() {
    let (mut driver, mut ctx) = started_pair();
    assert_eq!(driver.step(&mut ctx, Event::Started), Ok(Action::PollMailbox));
    assert_eq!(ctx.state(), ActorState::Running);
    assert_eq!(driver.stage(), Stage::Dispatching);
}

#[test]
fn startup_overrides_a_terminate_in_the_hook() {
    let (mut driver, mut ctx) = started_pair();
    ctx.terminate();
    assert_eq!(driver.step(&mut ctx, Event::Started), Ok(Action::PollMailbox));
    assert_eq!(ctx.state(), ActorState::Running);
}

#[test]
fn wait_item_of_the_startup_hook_comes_before_the_mailbox() {
    let (mut driver, mut ctx) = started_pair();
    ctx.wait(5);
    assert_eq!(driver.step(&mut ctx, Event::Started), Ok(Action::PollWait));
    assert_eq!(driver.stage(), Stage::Waiting);
    assert!(!ctx.waiting());
    assert_eq!(driver.wait_head_mut(), Some(&mut 5));
}

#[test]
fn pending_wait_item_suspends_the_driver() {
    let (mut driver, mut ctx) = started_pair();
    ctx.wait(5);
    driver.step(&mut ctx, Event::Started).unwrap();
    assert_eq!(driver.step(&mut ctx, Event::WaitPolled(false)), Ok(Action::Suspend));
    assert_eq!(driver.stage(), Stage::Idle);
    assert_eq!(driver.step(&mut ctx, Event::Polled), Ok(Action::PollWait));
    assert_eq!(driver.wait_head_mut(), Some(&mut 5));
}

#[test]
fn wait_items_are_polled_one_by_one_from_the_head() {
    let (mut driver, mut ctx) = started_pair();
    ctx.wait(1);
    ctx.wait(2);
    assert_eq!(driver.step(&mut ctx, Event::Started), Ok(Action::PollWait));
    assert_eq!(driver.wait_head_mut(), Some(&mut 1));
    assert_eq!(driver.step(&mut ctx, Event::WaitPolled(true)), Ok(Action::PollWait));
    assert_eq!(driver.wait_head_mut(), Some(&mut 2));
    assert_eq!(driver.step(&mut ctx, Event::WaitPolled(true)), Ok(Action::PollMailbox));
    assert_eq!(driver.wait_head_mut(), None);
}

#[test]
fn work_queued_by_a_wait_item_is_taken_over_after_the_mailbox() {
    let (mut driver, mut ctx) = started_pair();
    ctx.wait(1);
    driver.step(&mut ctx, Event::Started).unwrap();
    ctx.wait(2);
    assert_eq!(driver.step(&mut ctx, Event::WaitPolled(true)), Ok(Action::PollMailbox));
    assert!(ctx.waiting());
    assert_eq!(driver.step(&mut ctx, Event::Dispatched), Ok(Action::PollWait));
    assert!(!ctx.waiting());
    assert_eq!(driver.wait_head_mut(), Some(&mut 2));
}

#[test]
fn wait_item_of_a_handler_comes_before_spawned_items() {
    let (mut driver, mut ctx) = started_pair();
    ctx.spawn(10);
    assert_eq!(driver.step(&mut ctx, Event::Started), Ok(Action::PollMailbox));
    ctx.wait(1);
    assert_eq!(driver.step(&mut ctx, Event::Dispatched), Ok(Action::PollWait));
    assert_eq!(driver.step(&mut ctx, Event::WaitPolled(true)), Ok(Action::PollMailbox));
    assert_eq!(driver.step(&mut ctx, Event::Dispatched), Ok(Action::PollSpawn(0)));
}

#[test]
fn spawned_items_are_polled_once_each_in_order() {
    let (mut driver, mut ctx) = started_pair();
    ctx.spawn(10);
    ctx.spawn(20);
    ctx.spawn(30);
    assert_eq!(driver.step(&mut ctx, Event::Started), Ok(Action::PollMailbox));
    assert_eq!(driver.step(&mut ctx, Event::Dispatched), Ok(Action::PollSpawn(0)));
    assert_eq!(driver.stage(), Stage::Spawning(0));
    assert_eq!(driver.spawn_item_mut(0), Some(&mut 10));
    assert_eq!(driver.step(&mut ctx, Event::SpawnPolled(false)), Ok(Action::PollSpawn(1)));
    assert_eq!(driver.spawn_item_mut(1), Some(&mut 20));
    assert_eq!(driver.step(&mut ctx, Event::SpawnPolled(false)), Ok(Action::PollSpawn(2)));
    assert_eq!(driver.spawn_item_mut(2), Some(&mut 30));
    assert_eq!(driver.step(&mut ctx, Event::SpawnPolled(false)), Ok(Action::CheckMailbox));
}

#[test]
fn finished_spawned_item_is_dropped_and_its_follower_is_polled() {
    let (mut driver, mut ctx) = started_pair();
    ctx.spawn(10);
    ctx.spawn(20);
    ctx.spawn(30);
    driver.step(&mut ctx, Event::Started).unwrap();
    assert_eq!(driver.step(&mut ctx, Event::Dispatched), Ok(Action::PollSpawn(0)));
    assert_eq!(driver.step(&mut ctx, Event::SpawnPolled(true)), Ok(Action::PollSpawn(0)));
    assert_eq!(driver.spawn_item_mut(0), Some(&mut 20));
    assert_eq!(driver.step(&mut ctx, Event::SpawnPolled(false)), Ok(Action::PollSpawn(1)));
    assert_eq!(driver.spawn_item_mut(1), Some(&mut 30));
    assert_eq!(driver.step(&mut ctx, Event::SpawnPolled(true)), Ok(Action::CheckMailbox));
    assert_eq!(driver.spawn_item_mut(0), Some(&mut 20));
    assert_eq!(driver.spawn_item_mut(1), None);
}

#[test]
fn item_spawned_during_a_round_is_polled_in_that_round() {
    let (mut driver, mut ctx) = started_pair();
    ctx.spawn(10);
    driver.step(&mut ctx, Event::Started).unwrap();
    assert_eq!(driver.step(&mut ctx, Event::Dispatched), Ok(Action::PollSpawn(0)));
    ctx.spawn(20);
    assert_eq!(driver.step(&mut ctx, Event::SpawnPolled(false)), Ok(Action::PollSpawn(1)));
    assert_eq!(driver.spawn_item_mut(1), Some(&mut 20));
    assert_eq!(driver.step(&mut ctx, Event::SpawnPolled(false)), Ok(Action::CheckMailbox));
}

#[test]
fn wait_item_of_a_spawned_item_ends_the_round() {
    let (mut driver, mut ctx) = started_pair();
    ctx.spawn(10);
    ctx.spawn(20);
    driver.step(&mut ctx, Event::Started).unwrap();
    assert_eq!(driver.step(&mut ctx, Event::Dispatched), Ok(Action::PollSpawn(0)));
    ctx.wait(1);
    assert_eq!(driver.step(&mut ctx, Event::SpawnPolled(false)), Ok(Action::PollWait));
    assert_eq!(driver.wait_head_mut(), Some(&mut 1));
    assert_eq!(driver.step(&mut ctx, Event::WaitPolled(true)), Ok(Action::PollMailbox));
    assert_eq!(driver.step(&mut ctx, Event::Dispatched), Ok(Action::PollSpawn(0)));
}

#[test]
fn stop_in_a_spawned_item_ends_the_round() {
    let (mut driver, mut ctx) = started_pair();
    ctx.spawn(10);
    ctx.spawn(20);
    driver.step(&mut ctx, Event::Started).unwrap();
    assert_eq!(driver.step(&mut ctx, Event::Dispatched), Ok(Action::PollSpawn(0)));
    ctx.stop();
    assert_eq!(driver.step(&mut ctx, Event::SpawnPolled(false)), Ok(Action::AskStopping));
    assert_eq!(driver.stage(), Stage::Deciding);
}

#[test]
fn connected_mailbox_keeps_the_actor_alive() {
    let (mut driver, mut ctx) = started_pair();
    driver.step(&mut ctx, Event::Started).unwrap();
    assert_eq!(driver.step(&mut ctx, Event::Dispatched), Ok(Action::CheckMailbox));
    assert_eq!(driver.stage(), Stage::Probing);
    assert_eq!(driver.step(&mut ctx, Event::Connected(true)), Ok(Action::Yield));
    assert_eq!(driver.stage(), Stage::Idle);
    assert_eq!(driver.step(&mut ctx, Event::Polled), Ok(Action::PollMailbox));
}

#[test]
fn spawned_item_keeps_the_actor_alive() {
    let (mut driver, mut ctx) = started_pair();
    ctx.spawn(10);
    driver.step(&mut ctx, Event::Started).unwrap();
    driver.step(&mut ctx, Event::Dispatched).unwrap();
    assert_eq!(driver.step(&mut ctx, Event::SpawnPolled(false)), Ok(Action::CheckMailbox));
    assert_eq!(driver.step(&mut ctx, Event::Connected(false)), Ok(Action::Yield));
}

#[test]
fn idle_disconnected_actor_is_asked_to_stop() {
    let (mut driver, mut ctx) = started_pair();
    driver.step(&mut ctx, Event::Started).unwrap();
    driver.step(&mut ctx, Event::Dispatched).unwrap();
    assert_eq!(driver.step(&mut ctx, Event::Connected(false)), Ok(Action::AskStopping));
    assert_eq!(ctx.state(), ActorState::Running);
}

#[test]
fn agreement_to_stop_resolves_the_driver() {
    let (mut driver, mut ctx) = started_pair();
    driver.step(&mut ctx, Event::Started).unwrap();
    driver.step(&mut ctx, Event::Dispatched).unwrap();
    driver.step(&mut ctx, Event::Connected(false)).unwrap();
    assert_eq!(driver.step(&mut ctx, Event::Decided(true)), Ok(Action::Finish));
    assert_eq!(ctx.state(), ActorState::Stopped);
    assert_eq!(driver.stage(), Stage::Done);
}

#[test]
fn refusal_to_stop_yields_and_asks_again_next_round() {
    let (mut driver, mut ctx) = started_pair();
    driver.step(&mut ctx, Event::Started).unwrap();
    driver.step(&mut ctx, Event::Dispatched).unwrap();
    driver.step(&mut ctx, Event::Connected(false)).unwrap();
    assert_eq!(driver.step(&mut ctx, Event::Decided(false)), Ok(Action::Yield));
    assert_eq!(ctx.state(), ActorState::Running);
    assert_eq!(driver.step(&mut ctx, Event::Polled), Ok(Action::PollMailbox));
    assert_eq!(driver.step(&mut ctx, Event::Dispatched), Ok(Action::CheckMailbox));
    assert_eq!(driver.step(&mut ctx, Event::Connected(false)), Ok(Action::AskStopping));
}

#[test]
fn stopping_actor_is_asked_without_a_look_at_the_mailbox() {
    let (mut driver, mut ctx) = started_pair();
    ctx.spawn(10);
    driver.step(&mut ctx, Event::Started).unwrap();
    ctx.stop();
    assert_eq!(driver.step(&mut ctx, Event::Dispatched), Ok(Action::AskStopping));
    assert_eq!(driver.step(&mut ctx, Event::Decided(false)), Ok(Action::Yield));
    assert_eq!(ctx.state(), ActorState::Stopping);
    assert_eq!(driver.step(&mut ctx, Event::Polled), Ok(Action::PollMailbox));
    assert_eq!(driver.step(&mut ctx, Event::Dispatched), Ok(Action::AskStopping));
}

#[test]
fn stopping_actor_does_not_poll_its_wait_items() {
    let (mut driver, mut ctx) = started_pair();
    ctx.wait(1);
    assert_eq!(driver.step(&mut ctx, Event::Started), Ok(Action::PollWait));
    ctx.stop();
    assert_eq!(driver.step(&mut ctx, Event::WaitPolled(false)), Ok(Action::Suspend));
    assert_eq!(driver.step(&mut ctx, Event::Polled), Ok(Action::PollMailbox));
    assert_eq!(driver.step(&mut ctx, Event::Dispatched), Ok(Action::AskStopping));
    assert_eq!(driver.step(&mut ctx, Event::Decided(true)), Ok(Action::Finish));
}

#[test]
fn terminated_actor_is_never_finalised() {
    let (mut driver, mut ctx) = started_pair();
    driver.step(&mut ctx, Event::Started).unwrap();
    ctx.terminate();
    for _ in 0..5 {
        assert_eq!(driver.step(&mut ctx, Event::Dispatched), Ok(Action::Yield));
        assert_eq!(driver.step(&mut ctx, Event::Polled), Ok(Action::PollMailbox));
    }
    assert_eq!(ctx.state(), ActorState::Stopped);
}

#[test]
fn terminate_before_the_first_poll_skips_the_startup_hook() {
    let mut ctx: Context<u32> = Context::new();
    let mut driver: ContextFut<u32> = ContextFut::new();
    ctx.terminate();
    assert_eq!(driver.step(&mut ctx, Event::Polled), Ok(Action::PollMailbox));
    assert_eq!(driver.step(&mut ctx, Event::Dispatched), Ok(Action::Yield));
}

#[test]
fn alive_follows_mailbox_and_queues() {
    let (mut driver, mut ctx) = started_pair();
    driver.step(&mut ctx, Event::Started).unwrap();
    assert!(driver.alive(true));
    assert!(!driver.alive(false));
    ctx.spawn(1);
    driver.merge(&mut ctx);
    assert!(driver.alive(false));
    assert!(driver.alive(true));
    let mut ctx: Context<u32> = Context::new();
    let mut driver: ContextFut<u32> = ContextFut::new();
    ctx.wait(1);
    assert!(!driver.alive(false));
    driver.merge(&mut ctx);
    assert!(driver.alive(false));
}

#[test]
fn stopped_actor_with_a_connected_mailbox_is_alive() {
    let (mut driver, mut ctx) = started_pair();
    driver.step(&mut ctx, Event::Started).unwrap();
    ctx.terminate();
    assert!(driver.alive(true));
    assert!(!driver.alive(false));
}

#[test]
fn actor_terminated_while_the_mailbox_is_asked_gets_no_question() {
    for connected in [true, false] {
        let (mut driver, mut ctx) = started_pair();
        driver.step(&mut ctx, Event::Started).unwrap();
        assert_eq!(driver.step(&mut ctx, Event::Dispatched), Ok(Action::CheckMailbox));
        ctx.terminate();
        assert_eq!(driver.step(&mut ctx, Event::Connected(connected)), Ok(Action::Yield));
        assert_eq!(driver.stage(), Stage::Idle);
        assert_eq!(ctx.state(), ActorState::Stopped);
    }
}

#[test]
fn actor_stopping_while_the_mailbox_is_asked_gets_the_question() {
    for connected in [true, false] {
        let (mut driver, mut ctx) = started_pair();
        driver.step(&mut ctx, Event::Started).unwrap();
        assert_eq!(driver.step(&mut ctx, Event::Dispatched), Ok(Action::CheckMailbox));
        ctx.stop();
        assert_eq!(driver.step(&mut ctx, Event::Connected(connected)), Ok(Action::AskStopping));
        assert_eq!(driver.stage(), Stage::Deciding);
    }
}

#[test]
fn event_out_of_turn_changes_nothing() {
    let (mut driver, mut ctx) = started_pair();
    ctx.wait(1);
    for event in [
        Event::Polled,
        Event::WaitPolled(true),
        Event::Dispatched,
        Event::SpawnPolled(true),
        Event::Connected(false),
        Event::Decided(true),
    ] {
        assert_eq!(driver.step(&mut ctx, event), Err(StepError::OutOfTurn));
        assert_eq!(driver.stage(), Stage::Starting);
        assert_eq!(ctx.state(), ActorState::Started);
        assert!(ctx.waiting());
    }
    assert_eq!(driver.step(&mut ctx, Event::Started), Ok(Action::PollWait));
}

#[test]
fn resolved_driver_takes_no_more_events() {
    let (mut driver, mut ctx) = started_pair();
    driver.step(&mut ctx, Event::Started).unwrap();
    driver.step(&mut ctx, Event::Dispatched).unwrap();
    driver.step(&mut ctx, Event::Connected(false)).unwrap();
    driver.step(&mut ctx, Event::Decided(true)).unwrap();
    for event in [Event::Polled, Event::Started, Event::Decided(true)] {
        assert_eq!(driver.step(&mut ctx, event), Err(StepError::Resolved));
        assert_eq!(driver.stage(), Stage::Done);
        assert_eq!(ctx.state(), ActorState::Stopped);
    }
}

#[test]
fn polling_an_item_changes_that_item_only() {
    let (mut driver, mut ctx) = started_pair();
    ctx.wait(1);
    ctx.wait(2);
    ctx.spawn(10);
    ctx.spawn(20);
    driver.step(&mut ctx, Event::Started).unwrap();
    *driver.wait_head_mut().unwrap() = 7;
    *driver.spawn_item_mut(1).unwrap() = 70;
    assert_eq!(driver.stage(), Stage::Waiting);
    assert_eq!(driver.wait_head_mut(), Some(&mut 7));
    assert_eq!(driver.spawn_item_mut(0), Some(&mut 10));
    assert_eq!(driver.spawn_item_mut(1), Some(&mut 70));
    assert_eq!(driver.step(&mut ctx, Event::WaitPolled(true)), Ok(Action::PollWait));
    assert_eq!(driver.wait_head_mut(), Some(&mut 2));
}
