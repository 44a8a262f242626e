use artifacts_client::schema::{Character, Daum, Inventory, Position};

fn flat() -> Daum {
    Daum {
        name: String::from("Penguin"),
        account: String::from("acct"),
        skin: String::from("men1"),
        level: 4,
        xp: 390,
        max_xp: 750,
        gold: 125,
        hp: 87,
        max_hp: 115,
        speed: 11,
        haste: 2,
        critical_strike: 1,
        wisdom: 3,
        prospecting: 5,
        attack_fire: 10,
        attack_earth: 11,
        attack_water: 12,
        attack_air: 13,
        dmg: 7,
        dmg_fire: 1,
        dmg_earth: 2,
        dmg_water: 3,
        dmg_air: 4,
        res_fire: 5,
        res_earth: 6,
        res_water: 7,
        res_air: 8,
        x: -2,
        y: 13,
        mining_level: 1,
        mining_xp: 2,
        mining_max_xp: 3,
        fishing_level: 4,
        fishing_xp: 5,
        fishing_max_xp: 6,
        woodcutting_level: 7,
        woodcutting_xp: 8,
        woodcutting_max_xp: 9,
        weaponcrafting_level: 10,
        weaponcrafting_xp: 11,
        weaponcrafting_max_xp: 12,
        gearcrafting_level: 13,
        gearcrafting_xp: 14,
        gearcrafting_max_xp: 15,
        jewelrycrafting_level: 16,
        jewelrycrafting_xp: 17,
        jewelrycrafting_max_xp: 18,
        cooking_level: 19,
        cooking_xp: 20,
        cooking_max_xp: 21,
        alchemy_level: 22,
        alchemy_xp: 23,
        alchemy_max_xp: 24,
        cooldown: 6,
        cooldown_expiration: Some(String::from("2024-01-01T00:00:06Z")),
        weapon_slot: String::from("stick"),
        rune_slot: String::new(),
        shield_slot: String::from("wooden_shield"),
        helmet_slot: String::new(),
        body_armor_slot: String::new(),
        leg_armor_slot: String::new(),
        boots_slot: String::new(),
        ring1_slot: String::new(),
        ring2_slot: String::new(),
        amulet_slot: String::new(),
        artifact1_slot: String::new(),
        artifact2_slot: String::new(),
        artifact3_slot: String::new(),
        utility1_slot: String::new(),
        utility1_slot_quantity: 0,
        utility2_slot: String::new(),
        utility2_slot_quantity: 0,
        bag_slot: String::new(),
        task: String::from("chicken"),
        task_type: String::from("monsters"),
        task_progress: 11,
        task_total: 80,
        inventory_max_items: 100,
        inventory: Some(vec![Inventory { slot: 1, code: String::from("egg"), quantity: 3 }]),
    }
}

#[test]
fn from_flat_regroups_every_field() {
    let c = Character::from_flat(flat());
    assert_eq!(c.name, "Penguin");
    assert_eq!(c.account, "acct");
    assert_eq!(c.skin, "men1");
    assert_eq!(c.level, 4);
    assert_eq!(c.xp, 390);
    assert_eq!(c.max_xp, 750);
    assert_eq!(c.gold, 125);
    assert_eq!(c.position, Position { x: -2, y: 13 });
    assert_eq!(c.stats.hp, 87);
    assert_eq!(c.stats.max_hp, 115);
    assert_eq!(c.stats.speed, 11);
    assert_eq!(c.stats.haste, 2);
    assert_eq!(c.stats.critical_strike, 1);
    assert_eq!(c.stats.wisdom, 3);
    assert_eq!(c.stats.prospecting, 5);
    assert_eq!(c.attack.fire, 10);
    assert_eq!(c.attack.earth, 11);
    assert_eq!(c.attack.water, 12);
    assert_eq!(c.attack.air, 13);
    assert_eq!(c.defense.dmg, 7);
    assert_eq!(c.defense.air, 4);
    assert_eq!(c.resistance.fire, 5);
    assert_eq!(c.resistance.air, 8);
    assert_eq!(c.skills.mining.level, 1);
    assert_eq!(c.skills.fishing.xp, 5);
    assert_eq!(c.skills.woodcutting.max_xp, 9);
    assert_eq!(c.skills.weaponcrafting.level, 10);
    assert_eq!(c.skills.gearcrafting.xp, 14);
    assert_eq!(c.skills.jewelrycrafting.max_xp, 18);
    assert_eq!(c.skills.cooking.level, 19);
    assert_eq!(c.skills.alchemy.max_xp, 24);
    assert_eq!(c.cooldown, 6);
    assert_eq!(
        c.cooldown_expiration,
        Some(String::from("2024-01-01T00:00:06Z"))
    );
    assert_eq!(c.slots.weapon, "stick");
    assert_eq!(c.slots.shield, "wooden_shield");
    assert_eq!(c.task.task, "chicken");
    assert_eq!(c.task.task_type, "monsters");
    assert_eq!(c.task.task_progress, 11);
    assert_eq!(c.task.task_total, 80);
    assert_eq!(c.inventory_max_items, 100);
    assert_eq!(c.inventory.len(), 1);
    assert_eq!(c.inventory[0].code, "egg");
    assert_eq!(c.inventory[0].quantity, 3);
}

#[test]
fn from_flat_defaults_a_missing_inventory() {
    let d = Daum { inventory: None, cooldown_expiration: None, ..flat() };
    let c = Character::from_flat(d);
    assert!(c.inventory.is_empty());
    assert_eq!(c.cooldown_expiration, None);
}

#[test]
fn position_new_sets_coordinates() {
    let p = Position::new(7, -9);
    assert_eq!(p.x, 7);
    assert_eq!(p.y, -9);
}
