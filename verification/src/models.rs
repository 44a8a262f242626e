//! Data model of the game as the client sees it.
//!
//! Every value here is a snapshot taken from the last server response; the
//! client never computes game state of its own.  Timestamps are kept as
//! whole seconds since the Unix epoch, so that cooldown arithmetic is plain
//! integer arithmetic.

use vstd::prelude::*;

verus! {

/// The action that imposed a cooldown.
#[derive(Debug, Clone, Copy, PartialEq, Eq, Structural)]
pub enum CooldownReason {
    Movement,
    Fight,
    Crafting,
    Gathering,
    BuyGe,
    SellGe,
    BuyNpc,
    SellNpc,
    CancelGe,
    DeleteItem,
    DepositItem,
    WithdrawItem,
    DepositGold,
    WithdrawGold,
    Equip,
    Unequip,
    Task,
    ChristmasExchange,
    Recycling,
    Rest,
    Use,
    BuyBankExpansion,
    GiveItem,
    GiveGold,
    ChangeSkin,
    Rename,
}

/// A server-imposed waiting period after an action.  `expiration` and
/// `started_at` are seconds since the Unix epoch.
#[derive(Debug, Clone)]
pub struct Cooldown {
    pub total_seconds: u32,
    pub remaining_seconds: u32,
    pub started_at: i64,
    pub expiration: i64,
    pub reason: CooldownReason,
}

impl Cooldown {
    pub fn new(
        total_seconds: u32,
        remaining_seconds: u32,
        started_at: i64,
        expiration: i64,
        reason: CooldownReason,
    ) -> (c: Cooldown)
        ensures
            c == (Cooldown { total_seconds, remaining_seconds, started_at, expiration, reason }),
    {
        Cooldown { total_seconds, remaining_seconds, started_at, expiration, reason }
    }

    pub fn reason(&self) -> (r: CooldownReason)
        ensures
            r == self.reason,
    {
        self.reason
    }
}

/// The client's snapshot of one character, as last reported by the server.
/// `cooldown_expiration` is seconds since the Unix epoch.
#[derive(Debug, Clone)]
pub struct Character {
    pub name: String,
    pub gold: u32,
    pub level: u32,
    pub hp: u32,
    pub max_hp: u32,
    pub xp: u32,
    pub max_xp: u32,
    pub x: i32,
    pub y: i32,
    pub cooldown: u32,
    pub cooldown_expiration: i64,
}

/// One item dropped by a defeated monster.
#[derive(Debug, Clone)]
pub struct DropItem {
    pub code: String,
    pub quantity: u32,
}

/// The outcome of a fight.
#[derive(Debug, Clone, Copy, PartialEq, Eq, Structural)]
pub enum FightResult {
    Win,
    Loss,
}

/// The domain payload of a fight action.
#[derive(Debug, Clone)]
pub struct Fight {
    pub xp: u32,
    pub gold: u32,
    pub drops: Vec<DropItem>,
    pub turns: u32,
    pub logs: Vec<String>,
    pub result: FightResult,
}

/// What kind of content a map square holds.
#[derive(Debug, Clone, Copy, PartialEq, Eq, Structural)]
pub enum MapContentType {
    Monster,
    Resource,
    Workshop,
    Bank,
    GrandExchange,
    TasksMaster,
    Npc,
}

/// The content found on a map square.
#[derive(Debug, Clone)]
pub struct MapContent {
    pub content_type: MapContentType,
    pub code: String,
}

/// One square of the world map.
#[derive(Debug, Clone)]
pub struct GameMap {
    pub name: String,
    pub skin: String,
    pub x: i32,
    pub y: i32,
    pub content: Option<MapContent>,
}

/// One monster kind.
#[derive(Debug, Clone)]
pub struct Monster {
    pub name: String,
    pub code: String,
    pub level: u32,
    pub hp: u32,
}

/// The server's reply to a fight action.
#[derive(Debug, Clone)]
pub struct CharacterFightData {
    pub cooldown: Cooldown,
    pub fight: Fight,
    pub character: Character,
}

/// The server's reply to a move action.
#[derive(Debug, Clone)]
pub struct CharacterMovementData {
    pub cooldown: Cooldown,
    pub character: Character,
    pub destination: GameMap,
}

/// The server's reply to a rest action.
#[derive(Debug, Clone)]
pub struct CharacterRestData {
    pub cooldown: Cooldown,
    pub hp_restored: u32,
    pub character: Character,
}

} // verus!
