use surfnet_runloops::clock::{
    blockhash_expired, start_clock_runloop, ClockAction, ClockCommand, ClockEvent, ClockInput,
    ClockPhase, ClockRunloop, BLOCKHASH_SLOT_TTL,
};

/// Runs one round and gives the length of its sleep and the events it sends.
fn round(
    clock: &mut ClockRunloop,
    command: Option<ClockCommand>,
    elapsed: u128,
) -> (u64, Vec<ClockEvent>, bool) {
    let mut slept = 0;
    let mut events = vec![];
    let mut restarted = false;
    let mut action = clock.step(ClockInput::Polled(command));
    loop {
        let input = match action {
            ClockAction::Poll => return (slept, events, restarted),
            ClockAction::Sleep(millis) => {
                slept = millis;
                ClockInput::Slept
            }
            ClockAction::SendEvent(event) => {
                events.push(event);
                ClockInput::Sent
            }
            ClockAction::ReadTimer => ClockInput::Elapsed(elapsed),
            ClockAction::RestartTimer => {
                restarted = true;
                ClockInput::Restarted
            }
        };
        action = clock.step(input);
    }
}

fn running_clock(slot_time: u64) -> ClockRunloop {
    let (mut clock, action) = start_clock_runloop(slot_time);
    assert_eq!(action, ClockAction::RestartTimer);
    assert_eq!(clock.step(ClockInput::Restarted), ClockAction::Poll);
    clock
}

#[test]
fn a_new_clock_runs() {
    let (clock, _) = start_clock_runloop(400);
    assert_eq!(
        clock,
        ClockRunloop { slot_time: 400, enabled: true, phase: ClockPhase::Restarting }
    );
    let mut clock = running_clock(400);
    assert_eq!(round(&mut clock, None, 0), (400, vec![ClockEvent::Tick], false));
}

#[test]
fn a_blockhash_lives_for_its_slots_and_not_longer() {
    assert_eq!(BLOCKHASH_SLOT_TTL, 75);
    assert!(!blockhash_expired(0, 0));
    assert!(blockhash_expired(1, 0));
    assert!(!blockhash_expired(30_000_000_000, 400));
    assert!(blockhash_expired(30_000_000_001, 400));
    assert!(blockhash_expired(u128::MAX, u64::MAX / 75));
    assert!(!blockhash_expired(75 * 1_000_000 * (u64::MAX / 75) as u128, u64::MAX / 75));
}

#[test]
fn an_expiry_follows_its_tick_and_restarts_the_timer() {
    let mut clock = running_clock(400);
    assert_eq!(
        round(&mut clock, None, 30_000_000_001),
        (400, vec![ClockEvent::Tick, ClockEvent::ExpireBlockHash], true)
    );
    assert_eq!(round(&mut clock, None, 30_000_000_000), (400, vec![ClockEvent::Tick], false));
}

#[test]
fn a_paused_clock_sends_nothing_until_it_is_resumed() {
    let mut clock = running_clock(10);
    assert_eq!(round(&mut clock, Some(ClockCommand::Pause), u128::MAX), (10, vec![], false));
    assert_eq!(round(&mut clock, None, u128::MAX), (10, vec![], false));
    assert_eq!(
        round(&mut clock, Some(ClockCommand::UpdateSlotInterval(20)), u128::MAX),
        (20, vec![], false)
    );
    assert_eq!(
        round(&mut clock, Some(ClockCommand::Resume), 0),
        (20, vec![ClockEvent::Tick], false)
    );
}

#[test]
fn toggling_twice_changes_nothing() {
    let mut clock = running_clock(10);
    let before = clock;
    assert_eq!(round(&mut clock, Some(ClockCommand::Toggle), 0), (10, vec![], false));
    assert_eq!(
        round(&mut clock, Some(ClockCommand::Toggle), 0),
        (10, vec![ClockEvent::Tick], false)
    );
    assert_eq!(clock, before);
}

#[test]
fn a_new_interval_holds_from_the_same_round_on() {
    let mut clock = running_clock(10);
    assert_eq!(
        round(&mut clock, Some(ClockCommand::UpdateSlotInterval(7)), 525_000_000),
        (7, vec![ClockEvent::Tick], false)
    );
    assert_eq!(
        round(&mut clock, None, 525_000_001),
        (7, vec![ClockEvent::Tick, ClockEvent::ExpireBlockHash], true)
    );
}

#[test]
fn pausing_and_resuming_undo_each_other() {
    let mut clock = running_clock(10);
    let before = clock;
    clock.command(Some(ClockCommand::Pause));
    assert!(!clock.enabled);
    clock.command(Some(ClockCommand::Resume));
    assert_eq!(clock, before);
    clock.command(None);
    assert_eq!(clock, before);
}

#[test]
fn a_paused_clock_takes_slots_of_any_length() {
    let mut clock = running_clock(10);
    assert_eq!(round(&mut clock, Some(ClockCommand::Pause), 0), (10, vec![], false));
    assert_eq!(
        round(&mut clock, Some(ClockCommand::UpdateSlotInterval(u64::MAX)), u128::MAX),
        (u64::MAX, vec![], false)
    );
    assert_eq!(round(&mut clock, None, u128::MAX), (u64::MAX, vec![], false));
}
