//! The cooldown-aware fight loop, as a state machine.
//!
//! The loop drives one character through fetch, rest, move and fight
//! actions.  Each call of [`step`] consumes the event that answered the
//! previous command and decides, at the current time, what to do next.  The
//! caller performs the command (an HTTP request, a sleep) and feeds the
//! outcome back in as the next event.
//!
//! Every action-issuing command is guarded by the cooldown of the most
//! recently seen character snapshot: while `now` lies before that cooldown's
//! expiration, the machine answers with a [`LoopCommand::Wait`] for exactly
//! the remaining seconds instead of issuing the action.

use vstd::prelude::*;

use crate::models::{Character, CharacterFightData, CharacterMovementData, CharacterRestData};

verus! {

/// Why the loop stopped.
#[derive(Debug, Clone, Copy, PartialEq, Eq, Structural)]
pub enum StopReason {
    /// A request failed; every failure is fatal to the loop.
    RequestFailed,
    /// The caller answered a command with an event of the wrong kind.
    UnexpectedEvent,
}

/// What the loop does after a rest completes.
#[derive(Debug, Clone, Copy, PartialEq, Eq, Structural)]
pub enum RestFollowUp {
    /// The rest ran before the loop proper; locate the target next.
    Locate,
    /// The rest ran inside the fight cycle; fight again next.
    Fight,
}

/// The next action, to be issued once the character's cooldown has elapsed.
#[derive(Debug, Clone, Copy, PartialEq, Eq, Structural)]
pub enum PendingAction {
    Locate,
    Travel { x: i32, y: i32 },
    Fight,
    Rest { then: RestFollowUp },
}

/// The state of the fight loop between two events.
#[derive(Debug, Clone)]
pub enum LoopState {
    /// The initial character fetch is under way.
    Idle,
    /// A map lookup for the target monster is under way.
    Locating { character: Character },
    /// A move action toward `(x, y)` is under way.
    Moving { character: Character, x: i32, y: i32 },
    /// A fight action is under way.
    Fighting { character: Character },
    /// A rest action is under way.
    Resting { character: Character, then: RestFollowUp },
    /// The loop sleeps out the character's cooldown, then takes `next`.
    AwaitingCooldown { character: Character, next: PendingAction },
    /// The loop has stopped.
    Terminated { reason: StopReason },
}

/// What the caller must do to produce the next event.
#[derive(Debug, Clone, Copy, PartialEq, Eq, Structural)]
pub enum LoopCommand {
    FetchCharacter,
    LocateTarget,
    IssueMove { x: i32, y: i32 },
    IssueFight,
    IssueRest,
    Wait { seconds: u64 },
    Stop,
}

/// The outcome of the previous command.
#[derive(Debug, Clone)]
#[allow(inconsistent_fields)]
pub enum LoopEvent {
    Fetched { character: Character },
    TargetLocated { x: i32, y: i32 },
    Moved { data: CharacterMovementData },
    Fought { data: CharacterFightData },
    Rested { data: CharacterRestData },
    Waited,
    Failed,
}

/// Seconds left until `expiration`, or zero once it has passed.
pub open spec fn spec_wait_seconds(now: i64, expiration: i64) -> u64 {
    if expiration > now {
        (expiration - now) as u64
    } else {
        0
    }
}

/// After a fight that took the character from `hp_before` to `hp_after`,
/// the loop fights on exactly when the HP lost is less than the HP left:
/// the character would survive one more equally hard fight.
pub open spec fn spec_continues_fighting(hp_before: u32, hp_after: u32) -> bool {
    hp_before - hp_after < hp_after
}

/// Dispatch on `next` once `c`'s cooldown allows it: while the cooldown
/// still runs, wait out the remaining seconds; otherwise issue the action.
pub open spec fn spec_proceed(c: Character, next: PendingAction, now: i64) -> (LoopState,
    LoopCommand) {
    if c.cooldown_expiration > now {
        (
            LoopState::AwaitingCooldown { character: c, next },
            LoopCommand::Wait { seconds: spec_wait_seconds(now, c.cooldown_expiration) },
        )
    } else {
        match next {
            PendingAction::Locate => (
                LoopState::Locating { character: c },
                LoopCommand::LocateTarget,
            ),
            PendingAction::Travel { x, y } => (
                LoopState::Moving { character: c, x, y },
                LoopCommand::IssueMove { x, y },
            ),
            PendingAction::Fight => (LoopState::Fighting { character: c },
                LoopCommand::IssueFight,
            ),
            PendingAction::Rest { then } => (
                LoopState::Resting { character: c, then },
                LoopCommand::IssueRest,
            ),
        }
    }
}

/// The transition function of the loop, as a mathematical definition.
///
/// A failure event terminates the loop from any state; an event that does
/// not answer the state's outstanding command terminates it as a protocol
/// error; otherwise the machine follows the cycle fetch, rest if hurt,
/// locate, travel, then fight and rest as the HP margin dictates.
pub open spec fn spec_step(state: LoopState, event: LoopEvent, now: i64) -> (LoopState,
    LoopCommand) {
    match (state, event) {
        (LoopState::Terminated { reason }, _) => (
            LoopState::Terminated { reason },
            LoopCommand::Stop,
        ),
        (_, LoopEvent::Failed) => (
            LoopState::Terminated { reason: StopReason::RequestFailed },
            LoopCommand::Stop,
        ),
        (LoopState::Idle, LoopEvent::Fetched { character }) => {
            if character.hp < character.max_hp {
                spec_proceed(character, PendingAction::Rest { then: RestFollowUp::Locate }, now)
            } else {
                spec_proceed(character, PendingAction::Locate, now)
            }
        },
        (LoopState::Locating { character }, LoopEvent::TargetLocated { x, y }) => {
            if character.x == x && character.y == y {
                spec_proceed(character, PendingAction::Fight, now)
            } else {
                spec_proceed(character, PendingAction::Travel { x, y }, now)
            }
        },
        (LoopState::Moving { character, x, y }, LoopEvent::Moved { data }) => spec_proceed(
            data.character,
            PendingAction::Fight,
            now,
        ),
        (LoopState::Fighting { character }, LoopEvent::Fought { data }) => {
            if spec_continues_fighting(character.hp, data.character.hp) {
                spec_proceed(data.character, PendingAction::Fight, now)
            } else {
                spec_proceed(data.character, PendingAction::Rest { then: RestFollowUp::Fight }, now)
            }
        },
        (LoopState::Resting { character, then }, LoopEvent::Rested { data }) => {
            match then {
                RestFollowUp::Locate => spec_proceed(data.character, PendingAction::Locate, now),
                RestFollowUp::Fight => spec_proceed(data.character, PendingAction::Fight, now),
            }
        },
        (LoopState::AwaitingCooldown { character, next }, LoopEvent::Waited) => spec_proceed(
            character,
            next,
            now,
        ),
        _ => (LoopState::Terminated { reason: StopReason::UnexpectedEvent }, LoopCommand::Stop),
    }
}

/// Seconds left until `expiration`, or zero once it has passed.
pub fn wait_seconds(now: i64, expiration: i64) -> (r: u64)
    ensures
        r == spec_wait_seconds(now, expiration),
{
    if expiration > now {
        let diff: i128 = expiration as i128 - now as i128;
        diff as u64
    } else {
        0
    }
}

/// Decides, from the HP before and after a fight, whether the loop fights
/// on (true) or rests first (false).  The loop fights on exactly when the
/// HP lost is less than the HP remaining.
pub fn continues_fighting(hp_before: u32, hp_after: u32) -> (r: bool)
    ensures
        r == spec_continues_fighting(hp_before, hp_after),
{
    let lost: i64 = hp_before as i64 - hp_after as i64;
    lost < hp_after as i64
}

/// Dispatch on `next` once `c`'s cooldown allows it.
fn proceed(c: Character, next: PendingAction, now: i64) -> (r: (LoopState, LoopCommand))
    ensures
        r == spec_proceed(c, next, now),
{
    if c.cooldown_expiration > now {
        let seconds = wait_seconds(now, c.cooldown_expiration);
        (LoopState::AwaitingCooldown { character: c, next }, LoopCommand::Wait { seconds })
    } else {
        match next {
            PendingAction::Locate => (LoopState::Locating { character: c },
                LoopCommand::LocateTarget,
            ),
            PendingAction::Travel { x, y } => (
                LoopState::Moving { character: c, x, y },
                LoopCommand::IssueMove { x, y },
            ),
            PendingAction::Fight => (LoopState::Fighting { character: c },
                LoopCommand::IssueFight,
            ),
            PendingAction::Rest { then } => (
                LoopState::Resting { character: c, then },
                LoopCommand::IssueRest,
            ),
        }
    }
}

/// One transition of the fight loop: consume the event that answered the
/// previous command, and decide the next state and command at time `now`
/// (seconds since the Unix epoch).
pub fn step(state: LoopState, event: LoopEvent, now: i64) -> (r: (LoopState, LoopCommand))
    ensures
        r == spec_step(state, event, now),
{
    match (state, event) {
        (LoopState::Terminated { reason }, _) => (
            LoopState::Terminated { reason },
            LoopCommand::Stop,
        ),
        (_, LoopEvent::Failed) => (
            LoopState::Terminated { reason: StopReason::RequestFailed },
            LoopCommand::Stop,
        ),
        (LoopState::Idle, LoopEvent::Fetched { character }) => {
            if character.hp < character.max_hp {
                proceed(character, PendingAction::Rest { then: RestFollowUp::Locate }, now)
            } else {
                proceed(character, PendingAction::Locate, now)
            }
        },
        (LoopState::Locating { character }, LoopEvent::TargetLocated { x, y }) => {
            if character.x == x && character.y == y {
                proceed(character, PendingAction::Fight, now)
            } else {
                proceed(character, PendingAction::Travel { x, y }, now)
            }
        },
        (LoopState::Moving { character: _, x: _, y: _ }, LoopEvent::Moved { data }) => proceed(
            data.character,
            PendingAction::Fight,
            now,
        ),
        (LoopState::Fighting { character }, LoopEvent::Fought { data }) => {
            let fight_on = continues_fighting(character.hp, data.character.hp);
            if fight_on {
                proceed(data.character, PendingAction::Fight, now)
            } else {
                proceed(data.character, PendingAction::Rest { then: RestFollowUp::Fight }, now)
            }
        },
        (LoopState::Resting { character: _, then }, LoopEvent::Rested { data }) => {
            match then {
                RestFollowUp::Locate => proceed(data.character, PendingAction::Locate, now),
                RestFollowUp::Fight => proceed(data.character, PendingAction::Fight, now),
            }
        },
        (LoopState::AwaitingCooldown { character, next }, LoopEvent::Waited) => proceed(
            character,
            next,
            now,
        ),
        _ => (LoopState::Terminated { reason: StopReason::UnexpectedEvent }, LoopCommand::Stop),
    }
}

/// The character snapshot held by a state, if any.
pub open spec fn spec_state_character(state: LoopState) -> Option<Character> {
    match state {
        LoopState::Idle => None,
        LoopState::Locating { character } => Some(character),
        LoopState::Moving { character, .. } => Some(character),
        LoopState::Fighting { character } => Some(character),
        LoopState::Resting { character, .. } => Some(character),
        LoopState::AwaitingCooldown { character, .. } => Some(character),
        LoopState::Terminated { .. } => None,
    }
}

/// The loop never acts during a cooldown: whatever the state and event, if
/// `step` answers with a command that issues an action (move, fight or
/// rest), the cooldown of the character snapshot it acts for has expired at
/// `now`; and if it answers with a wait, the wait lasts exactly until that
/// snapshot's cooldown expires.
pub proof fn lemma_no_action_before_cooldown(state: LoopState, event: LoopEvent, now: i64)
    ensures
        ({
            let (next_state, command) = spec_step(state, event, now);
            &&& (command is IssueMove || command is IssueFight || command is IssueRest) ==> (
            spec_state_character(next_state) matches Some(c) && c.cooldown_expiration <= now)
            &&& command matches LoopCommand::Wait { seconds } ==> (spec_state_character(next_state)
                matches Some(c) && c.cooldown_expiration > now && now + seconds
                == c.cooldown_expiration)
        }),
{
}

} // verus!
