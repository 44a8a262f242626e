//! The full character schema.
//!
//! The server reports a character as one flat record of scalar fields
//! ([`Daum`]); the client groups them into nested structures — position,
//! stats, attack, defense, resistance, skills, equipment slots, task and
//! inventory — so the rest of the code can speak of one aspect at a time.
//! [`Character::from_flat`] is that regrouping, field for field.

use vstd::prelude::*;

verus! {

/// The mining skill: level and experience.
#[derive(Default, Debug, Clone, PartialEq)]
pub struct Mining {
    pub level: i64,
    pub xp: i64,
    pub max_xp: i64,
}

/// The fishing skill: level and experience.
#[derive(Default, Debug, Clone, PartialEq)]
pub struct Fishing {
    pub level: i64,
    pub xp: i64,
    pub max_xp: i64,
}

/// The woodcutting skill: level and experience.
#[derive(Default, Debug, Clone, PartialEq)]
pub struct Woodcutting {
    pub level: i64,
    pub xp: i64,
    pub max_xp: i64,
}

/// The weaponcrafting skill: level and experience.
#[derive(Default, Debug, Clone, PartialEq)]
pub struct Weaponcrafting {
    pub level: i64,
    pub xp: i64,
    pub max_xp: i64,
}

/// The gearcrafting skill: level and experience.
#[derive(Default, Debug, Clone, PartialEq)]
pub struct Gearcrafting {
    pub level: i64,
    pub xp: i64,
    pub max_xp: i64,
}

/// The jewelrycrafting skill: level and experience.
#[derive(Default, Debug, Clone, PartialEq)]
pub struct Jewelrycrafting {
    pub level: i64,
    pub xp: i64,
    pub max_xp: i64,
}

/// The cooking skill: level and experience.
#[derive(Default, Debug, Clone, PartialEq)]
pub struct Cooking {
    pub level: i64,
    pub xp: i64,
    pub max_xp: i64,
}

/// The alchemy skill: level and experience.
#[derive(Default, Debug, Clone, PartialEq)]
pub struct Alchemy {
    pub level: i64,
    pub xp: i64,
    pub max_xp: i64,
}

/// Core combat statistics.
#[derive(Default, Debug, Clone, PartialEq)]
pub struct Stats {
    pub hp: i64,
    pub max_hp: i64,
    pub speed: i64,
    pub haste: i64,
    pub critical_strike: i64,
    pub wisdom: i64,
    pub prospecting: i64,
}

/// Elemental attack values.
#[derive(Default, Debug, Clone, PartialEq)]
pub struct Attack {
    pub fire: i64,
    pub earth: i64,
    pub water: i64,
    pub air: i64,
}

/// Damage bonuses, overall and per element.
#[derive(Default, Debug, Clone, PartialEq)]
pub struct Damage {
    pub dmg: i64,
    pub fire: i64,
    pub earth: i64,
    pub water: i64,
    pub air: i64,
}

/// Elemental resistances.
#[derive(Default, Debug, Clone, PartialEq)]
pub struct Resistance {
    pub fire: i64,
    pub earth: i64,
    pub water: i64,
    pub air: i64,
}

/// A position on the world map.
#[derive(Default, Debug, Clone, PartialEq)]
pub struct Position {
    pub x: i64,
    pub y: i64,
}

impl Position {
    pub fn new(x: i64, y: i64) -> (p: Position)
        ensures
            p == (Position { x, y }),
    {
        Position { x, y }
    }
}

/// The codes of the items equipped in each slot.
#[derive(Default, Debug, Clone, PartialEq)]
pub struct Slots {
    pub weapon: String,
    pub rune: String,
    pub shield: String,
    pub helmet: String,
    pub body_armor: String,
    pub leg_armor: String,
    pub boots: String,
    pub ring1: String,
    pub ring2: String,
    pub amulet: String,
    pub artifact1: String,
    pub artifact2: String,
    pub artifact3: String,
    pub utility1: String,
    pub utility1_quantity: i64,
    pub utility2: String,
    pub utility2_quantity: i64,
    pub bag: String,
}

/// All gathering and crafting skills together.
#[derive(Default, Debug, Clone, PartialEq)]
pub struct Skills {
    pub mining: Mining,
    pub fishing: Fishing,
    pub woodcutting: Woodcutting,
    pub weaponcrafting: Weaponcrafting,
    pub gearcrafting: Gearcrafting,
    pub jewelrycrafting: Jewelrycrafting,
    pub cooking: Cooking,
    pub alchemy: Alchemy,
}

/// The character's current task, if any.
#[derive(Default, Debug, Clone, PartialEq)]
pub struct Task {
    pub task: String,
    pub task_type: String,
    pub task_progress: i64,
    pub task_total: i64,
}

/// One inventory slot: an item code and how many of it are held.
#[derive(Default, Debug, Clone, PartialEq)]
pub struct Inventory {
    pub slot: i64,
    pub code: String,
    pub quantity: i64,
}

/// A character as the server reports it: one flat record of scalars.
#[derive(Default, Debug, Clone, PartialEq)]
pub struct Daum {
    pub name: String,
    pub account: String,
    pub skin: String,
    pub level: i64,
    pub xp: i64,
    pub max_xp: i64,
    pub gold: i64,
    pub hp: i64,
    pub max_hp: i64,
    pub speed: i64,
    pub haste: i64,
    pub critical_strike: i64,
    pub wisdom: i64,
    pub prospecting: i64,
    pub attack_fire: i64,
    pub attack_earth: i64,
    pub attack_water: i64,
    pub attack_air: i64,
    pub dmg: i64,
    pub dmg_fire: i64,
    pub dmg_earth: i64,
    pub dmg_water: i64,
    pub dmg_air: i64,
    pub res_fire: i64,
    pub res_earth: i64,
    pub res_water: i64,
    pub res_air: i64,
    pub x: i64,
    pub y: i64,
    pub mining_level: i64,
    pub mining_xp: i64,
    pub mining_max_xp: i64,
    pub fishing_level: i64,
    pub fishing_xp: i64,
    pub fishing_max_xp: i64,
    pub woodcutting_level: i64,
    pub woodcutting_xp: i64,
    pub woodcutting_max_xp: i64,
    pub weaponcrafting_level: i64,
    pub weaponcrafting_xp: i64,
    pub weaponcrafting_max_xp: i64,
    pub gearcrafting_level: i64,
    pub gearcrafting_xp: i64,
    pub gearcrafting_max_xp: i64,
    pub jewelrycrafting_level: i64,
    pub jewelrycrafting_xp: i64,
    pub jewelrycrafting_max_xp: i64,
    pub cooking_level: i64,
    pub cooking_xp: i64,
    pub cooking_max_xp: i64,
    pub alchemy_level: i64,
    pub alchemy_xp: i64,
    pub alchemy_max_xp: i64,
    pub cooldown: i64,
    pub cooldown_expiration: Option<String>,
    pub weapon_slot: String,
    pub rune_slot: String,
    pub shield_slot: String,
    pub helmet_slot: String,
    pub body_armor_slot: String,
    pub leg_armor_slot: String,
    pub boots_slot: String,
    pub ring1_slot: String,
    pub ring2_slot: String,
    pub amulet_slot: String,
    pub artifact1_slot: String,
    pub artifact2_slot: String,
    pub artifact3_slot: String,
    pub utility1_slot: String,
    pub utility1_slot_quantity: i64,
    pub utility2_slot: String,
    pub utility2_slot_quantity: i64,
    pub bag_slot: String,
    pub task: String,
    pub task_type: String,
    pub task_progress: i64,
    pub task_total: i64,
    pub inventory_max_items: i64,
    pub inventory: Option<Vec<Inventory>>,
}

/// A character with its fields grouped by aspect.
#[derive(Default, Debug, Clone, PartialEq)]
pub struct Character {
    pub name: String,
    pub account: String,
    pub skin: String,
    pub level: i64,
    pub xp: i64,
    pub max_xp: i64,
    pub gold: i64,
    pub position: Position,
    pub stats: Stats,
    pub attack: Attack,
    pub defense: Damage,
    pub resistance: Resistance,
    pub skills: Skills,
    pub cooldown: i64,
    pub cooldown_expiration: Option<String>,
    pub slots: Slots,
    pub task: Task,
    pub inventory_max_items: i64,
    pub inventory: Vec<Inventory>,
}

/// The items held in a flat record's inventory: a missing list counts as
/// empty.
pub open spec fn spec_flat_inventory(d: Daum) -> Seq<Inventory> {
    match d.inventory {
        Some(v) => v@,
        None => Seq::empty(),
    }
}

/// The regrouping of a flat character record into the nested form, as a
/// mathematical definition: every field of `d` appears in exactly one
/// place of the result, unchanged; the inventory list is passed in
/// separately, since a missing one defaults to empty.
pub open spec fn spec_from_flat(d: Daum, inventory: Vec<Inventory>) -> Character {
    Character {
        name: d.name,
        account: d.account,
        skin: d.skin,
        level: d.level,
        xp: d.xp,
        max_xp: d.max_xp,
        gold: d.gold,
        position: Position { x: d.x, y: d.y },
        stats: Stats {
            hp: d.hp,
            max_hp: d.max_hp,
            speed: d.speed,
            haste: d.haste,
            critical_strike: d.critical_strike,
            wisdom: d.wisdom,
            prospecting: d.prospecting,
        },
        attack: Attack {
            fire: d.attack_fire,
            earth: d.attack_earth,
            water: d.attack_water,
            air: d.attack_air,
        },
        defense: Damage {
            dmg: d.dmg,
            fire: d.dmg_fire,
            earth: d.dmg_earth,
            water: d.dmg_water,
            air: d.dmg_air,
        },
        resistance: Resistance {
            fire: d.res_fire,
            earth: d.res_earth,
            water: d.res_water,
            air: d.res_air,
        },
        skills: Skills {
            mining: Mining { level: d.mining_level, xp: d.mining_xp, max_xp: d.mining_max_xp },
            fishing: Fishing { level: d.fishing_level, xp: d.fishing_xp, max_xp: d.fishing_max_xp },
            woodcutting: Woodcutting {
                level: d.woodcutting_level,
                xp: d.woodcutting_xp,
                max_xp: d.woodcutting_max_xp,
            },
            weaponcrafting: Weaponcrafting {
                level: d.weaponcrafting_level,
                xp: d.weaponcrafting_xp,
                max_xp: d.weaponcrafting_max_xp,
            },
            gearcrafting: Gearcrafting {
                level: d.gearcrafting_level,
                xp: d.gearcrafting_xp,
                max_xp: d.gearcrafting_max_xp,
            },
            jewelrycrafting: Jewelrycrafting {
                level: d.jewelrycrafting_level,
                xp: d.jewelrycrafting_xp,
                max_xp: d.jewelrycrafting_max_xp,
            },
            cooking: Cooking { level: d.cooking_level, xp: d.cooking_xp, max_xp: d.cooking_max_xp },
            alchemy: Alchemy { level: d.alchemy_level, xp: d.alchemy_xp, max_xp: d.alchemy_max_xp },
        },
        cooldown: d.cooldown,
        cooldown_expiration: d.cooldown_expiration,
        slots: Slots {
            weapon: d.weapon_slot,
            rune: d.rune_slot,
            shield: d.shield_slot,
            helmet: d.helmet_slot,
            body_armor: d.body_armor_slot,
            leg_armor: d.leg_armor_slot,
            boots: d.boots_slot,
            ring1: d.ring1_slot,
            ring2: d.ring2_slot,
            amulet: d.amulet_slot,
            artifact1: d.artifact1_slot,
            artifact2: d.artifact2_slot,
            artifact3: d.artifact3_slot,
            utility1: d.utility1_slot,
            utility1_quantity: d.utility1_slot_quantity,
            utility2: d.utility2_slot,
            utility2_quantity: d.utility2_slot_quantity,
            bag: d.bag_slot,
        },
        task: Task {
            task: d.task,
            task_type: d.task_type,
            task_progress: d.task_progress,
            task_total: d.task_total,
        },
        inventory_max_items: d.inventory_max_items,
        inventory,
    }
}

impl Character {
    /// Regroups a flat character record into the nested form; every field
    /// of `d` is carried over unchanged, and a missing inventory becomes
    /// the empty list.
    pub fn from_flat(d: Daum) -> (r: Character)
        ensures
            r == spec_from_flat(d, r.inventory),
            r.inventory@ == spec_flat_inventory(d),
    {
        let inventory = match d.inventory {
            Some(v) => v,
            None => Vec::new(),
        };
        Character {
            name: d.name,
            account: d.account,
            skin: d.skin,
            level: d.level,
            xp: d.xp,
            max_xp: d.max_xp,
            gold: d.gold,
            position: Position { x: d.x, y: d.y },
            stats: Stats {
                hp: d.hp,
                max_hp: d.max_hp,
                speed: d.speed,
                haste: d.haste,
                critical_strike: d.critical_strike,
                wisdom: d.wisdom,
                prospecting: d.prospecting,
            },
            attack: Attack {
                fire: d.attack_fire,
                earth: d.attack_earth,
                water: d.attack_water,
                air: d.attack_air,
            },
            defense: Damage {
                dmg: d.dmg,
                fire: d.dmg_fire,
                earth: d.dmg_earth,
                water: d.dmg_water,
                air: d.dmg_air,
            },
            resistance: Resistance {
                fire: d.res_fire,
                earth: d.res_earth,
                water: d.res_water,
                air: d.res_air,
            },
            skills: Skills {
                mining: Mining { level: d.mining_level, xp: d.mining_xp, max_xp: d.mining_max_xp },
                fishing: Fishing {
                    level: d.fishing_level,
                    xp: d.fishing_xp,
                    max_xp: d.fishing_max_xp,
                },
                woodcutting: Woodcutting {
                    level: d.woodcutting_level,
                    xp: d.woodcutting_xp,
                    max_xp: d.woodcutting_max_xp,
                },
                weaponcrafting: Weaponcrafting {
                    level: d.weaponcrafting_level,
                    xp: d.weaponcrafting_xp,
                    max_xp: d.weaponcrafting_max_xp,
                },
                gearcrafting: Gearcrafting {
                    level: d.gearcrafting_level,
                    xp: d.gearcrafting_xp,
                    max_xp: d.gearcrafting_max_xp,
                },
                jewelrycrafting: Jewelrycrafting {
                    level: d.jewelrycrafting_level,
                    xp: d.jewelrycrafting_xp,
                    max_xp: d.jewelrycrafting_max_xp,
                },
                cooking: Cooking {
                    level: d.cooking_level,
                    xp: d.cooking_xp,
                    max_xp: d.cooking_max_xp,
                },
                alchemy: Alchemy {
                    level: d.alchemy_level,
                    xp: d.alchemy_xp,
                    max_xp: d.alchemy_max_xp,
                },
            },
            cooldown: d.cooldown,
            cooldown_expiration: d.cooldown_expiration,
            slots: Slots {
                weapon: d.weapon_slot,
                rune: d.rune_slot,
                shield: d.shield_slot,
                helmet: d.helmet_slot,
                body_armor: d.body_armor_slot,
                leg_armor: d.leg_armor_slot,
                boots: d.boots_slot,
                ring1: d.ring1_slot,
                ring2: d.ring2_slot,
                amulet: d.amulet_slot,
                artifact1: d.artifact1_slot,
                artifact2: d.artifact2_slot,
                artifact3: d.artifact3_slot,
                utility1: d.utility1_slot,
                utility1_quantity: d.utility1_slot_quantity,
                utility2: d.utility2_slot,
                utility2_quantity: d.utility2_slot_quantity,
                bag: d.bag_slot,
            },
            task: Task {
                task: d.task,
                task_type: d.task_type,
                task_progress: d.task_progress,
                task_total: d.task_total,
            },
            inventory_max_items: d.inventory_max_items,
            inventory,
        }
    }
}

} // verus!
