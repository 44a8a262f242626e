use artifacts_client::fight_loop::{
    continues_fighting, step, wait_seconds, LoopCommand, LoopEvent, LoopState, PendingAction,
    RestFollowUp, StopReason,
};
use artifacts_client::models::{
    Character, CharacterFightData, CharacterRestData, Cooldown, CooldownReason, Fight,
    FightResult,
};

fn character(name: &str, hp: u32, max_hp: u32, x: i32, y: i32, expiration: i64) -> Character {
    Character {
        name: String::from(name),
        gold: 0,
        level: 1,
        hp,
        max_hp,
        xp: 0,
        max_xp: 150,
        x,
        y,
        cooldown: 0,
        cooldown_expiration: expiration,
    }
}

fn fight_data(after: Character) -> CharacterFightData {
    CharacterFightData {
        cooldown: Cooldown::new(5, 5, 0, after.cooldown_expiration, CooldownReason::Fight),
        fight: Fight {
            xp: 10,
            gold: 2,
            drops: vec![],
            turns: 3,
            logs: vec![],
            result: FightResult::Win,
        },
        character: after,
    }
}

#[test]
fn wait_seconds_measures_remaining_cooldown() {
    assert_eq!(wait_seconds(100, 107), 7);
    assert_eq!(wait_seconds(107, 107), 0);
    assert_eq!(wait_seconds(200, 107), 0);
    assert_eq!(wait_seconds(-5, 5), 10);
}

#[test]
fn heavy_loss_forces_rest() {
    // hp 30 -> 10: lost 20 >= 10 left, so the loop must rest
    assert!(!continues_fighting(30, 10));
}

#[test]
fn light_loss_keeps_fighting() {
    // hp 30 -> 25: lost 5 < 25 left, so the loop fights on
    assert!(continues_fighting(30, 25));
}

#[test]
fn fight_then_rest_decision_in_the_loop() {
    let before = character("Penguin", 30, 30, 0, 0, 0);
    let after = character("Penguin", 10, 30, 0, 0, 0);
    let (state, command) = step(
        LoopState::Fighting { character: before },
        LoopEvent::Fought { data: fight_data(after) },
        1000,
    );
    assert_eq!(command, LoopCommand::IssueRest);
    assert!(matches!(state, LoopState::Resting { then: RestFollowUp::Fight, .. }));
}

#[test]
fn fight_then_fight_again_decision_in_the_loop() {
    let before = character("Penguin", 30, 30, 0, 0, 0);
    let after = character("Penguin", 25, 30, 0, 0, 0);
    let (state, command) = step(
        LoopState::Fighting { character: before },
        LoopEvent::Fought { data: fight_data(after) },
        1000,
    );
    assert_eq!(command, LoopCommand::IssueFight);
    assert!(matches!(state, LoopState::Fighting { .. }));
}

#[test]
fn no_action_before_cooldown_expires() {
    // the cooldown ends 12 seconds in the future: the loop waits exactly 12
    let before = character("Penguin", 30, 30, 0, 0, 0);
    let after = character("Penguin", 25, 30, 0, 0, 1012);
    let (state, command) = step(
        LoopState::Fighting { character: before },
        LoopEvent::Fought { data: fight_data(after) },
        1000,
    );
    assert_eq!(command, LoopCommand::Wait { seconds: 12 });
    assert!(matches!(state, LoopState::AwaitingCooldown { next: PendingAction::Fight, .. }));

    // once the wait is over, the action is issued
    let (state2, command2) = step(state, LoopEvent::Waited, 1012);
    assert_eq!(command2, LoopCommand::IssueFight);
    assert!(matches!(state2, LoopState::Fighting { .. }));
}

#[test]
fn hurt_character_rests_before_the_loop() {
    let c = character("Penguin", 10, 30, 0, 0, 0);
    let (state, command) = step(LoopState::Idle, LoopEvent::Fetched { character: c }, 100);
    assert_eq!(command, LoopCommand::IssueRest);
    assert!(matches!(state, LoopState::Resting { then: RestFollowUp::Locate, .. }));
}

#[test]
fn healthy_character_locates_the_target() {
    let c = character("Penguin", 30, 30, 0, 0, 0);
    let (state, command) = step(LoopState::Idle, LoopEvent::Fetched { character: c }, 100);
    assert_eq!(command, LoopCommand::LocateTarget);
    assert!(matches!(state, LoopState::Locating { .. }));
}

#[test]
fn moves_only_when_away_from_target() {
    let c = character("Penguin", 30, 30, 1, 2, 0);
    let (_, command) = step(
        LoopState::Locating { character: c },
        LoopEvent::TargetLocated { x: 4, y: 5 },
        100,
    );
    assert_eq!(command, LoopCommand::IssueMove { x: 4, y: 5 });

    let c = character("Penguin", 30, 30, 4, 5, 0);
    let (_, command) = step(
        LoopState::Locating { character: c },
        LoopEvent::TargetLocated { x: 4, y: 5 },
        100,
    );
    assert_eq!(command, LoopCommand::IssueFight);
}

#[test]
fn initial_rest_then_locate() {
    let c = character("Penguin", 10, 30, 0, 0, 0);
    let rested = character("Penguin", 30, 30, 0, 0, 0);
    let data = CharacterRestData {
        cooldown: Cooldown::new(3, 3, 0, 0, CooldownReason::Rest),
        hp_restored: 20,
        character: rested,
    };
    let (state, _) = step(LoopState::Idle, LoopEvent::Fetched { character: c }, 100);
    let (state2, command2) = step(state, LoopEvent::Rested { data }, 110);
    assert_eq!(command2, LoopCommand::LocateTarget);
    assert!(matches!(state2, LoopState::Locating { .. }));
}

#[test]
fn any_failure_terminates_the_loop() {
    let c = character("Penguin", 30, 30, 0, 0, 0);
    let (state, command) = step(
        LoopState::Fighting { character: c },
        LoopEvent::Failed,
        100,
    );
    assert_eq!(command, LoopCommand::Stop);
    assert!(matches!(state, LoopState::Terminated { reason: StopReason::RequestFailed }));
}

#[test]
fn mismatched_event_terminates_the_loop() {
    let (state, command) = step(LoopState::Idle, LoopEvent::Waited, 100);
    assert_eq!(command, LoopCommand::Stop);
    assert!(matches!(state, LoopState::Terminated { reason: StopReason::UnexpectedEvent }));
}
