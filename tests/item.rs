use custom_functions::item::{
    get_item_arc_names_for_item, get_item_model_def_for_item, model_index_of, resolve_override,
    ArcNames, GetBottleNameDef, GetPotionBottleNameDef, GetShieldStruct, ItemModelDef, ItemTables,
    PutItemModelNameDef, DUMMY_MODEL_INDEX,
};

fn empty_tables() -> ItemTables {
    ItemTables {
        item_to_model_index: Vec::new(),
        item_model_index: Vec::new(),
        item_model_defs: Vec::new(),
        model_id_to_put_item_model_idx: Vec::new(),
        put_item_model_names: Vec::new(),
        get_shield_model_index: Vec::new(),
        get_shield_model_names: Vec::new(),
        get_bottle_model_index: Vec::new(),
        get_bottle_model_names: Vec::new(),
        get_potion_bottle_model_index: Vec::new(),
        get_potion_bottle_defs: Vec::new(),
    }
}

const NO_ROW: u8 = 0xFF;

// Items: 1 -> model 3 (generic and put/get both have a row), 2 -> model 4 (put/get),
// 3 -> model 5 (shield), 4 -> model 6 (bottle), 5 -> model 7 (potion bottle),
// 6 -> dummy, 7 -> model 8 (no category), 8 -> model 200 (past every index table),
// 214 -> model 3 (but overridden).
fn sample_tables() -> ItemTables {
    let mut t = empty_tables();
    t.item_to_model_index = vec![0; 512];
    t.item_to_model_index[1] = 3;
    t.item_to_model_index[2] = 4;
    t.item_to_model_index[3] = 5;
    t.item_to_model_index[4] = 6;
    t.item_to_model_index[5] = 7;
    t.item_to_model_index[6] = DUMMY_MODEL_INDEX;
    t.item_to_model_index[7] = 8;
    t.item_to_model_index[8] = 200;
    t.item_to_model_index[214] = 3;

    t.item_model_index = vec![NO_ROW; 168];
    t.item_model_index[3] = 1;
    t.item_model_index[DUMMY_MODEL_INDEX as usize] = 0;
    t.item_model_defs = vec![
        ItemModelDef { arc_name: "GetHeart", model_name: "GetHeartM" },
        ItemModelDef { arc_name: "GetRupee", model_name: "GetRupeeM" },
    ];

    t.model_id_to_put_item_model_idx = vec![NO_ROW; 168];
    t.model_id_to_put_item_model_idx[3] = 0;
    t.model_id_to_put_item_model_idx[4] = 0;
    t.model_id_to_put_item_model_idx[DUMMY_MODEL_INDEX as usize] = 0;
    t.put_item_model_names = vec![PutItemModelNameDef {
        put_arc_name: "PutBug",
        put_model_name: "PutBugM",
        get_arc_name: "GetBug",
        get_model_name: "GetBugM",
    }];

    t.get_shield_model_index = vec![NO_ROW; 168];
    t.get_shield_model_index[5] = 0;
    t.get_shield_model_names = vec![GetShieldStruct {
        unk: 0x3F80_0000,
        arc_name: "GetShieldWood",
        model_name: "GetShieldWoodM",
        equip_name: "EquipShieldWood",
    }];

    t.get_bottle_model_index = vec![NO_ROW; 168];
    t.get_bottle_model_index[6] = 0;
    t.get_bottle_model_names = vec![GetBottleNameDef {
        arc_name: "GetBottleEmpty",
        model_name: "GetBottleEmptyM",
        equip_name: "EquipBottle",
    }];

    t.get_potion_bottle_model_index = vec![NO_ROW; 168];
    t.get_potion_bottle_model_index[7] = 0;
    t.get_potion_bottle_defs = vec![GetPotionBottleNameDef {
        name1: "GetPotionRed",
        name2: "PotionRed2",
        name3: "PotionRed3",
        name4: "PotionRed4",
    }];
    t
}

const OVERRIDES: [(u16, &str); 32] = [
    (214, "Onp"),
    (215, "DesertRobot"),
    (216, "GetKobunALetter"),
    (217, "GetSwordA"),
    (218, "GetHarp"),
    (219, "GetBowA"),
    (220, "GetHookShot"),
    (221, "GetBirdStatue"),
    (222, "GetVacuum"),
    (223, "GetPachinkoA"),
    (224, "GetBeetleA"),
    (225, "GetMoleGloveA"),
    (226, "GetUroko"),
    (227, "GetNetA"),
    (228, "GetBombBag"),
    (229, "GetTriForceSingle"),
    (230, "GetWhip"),
    (231, "GetEarring"),
    (232, "GetSozaiC"),
    (233, "GetSekibanMapA"),
    (234, "GetSekibanMapB"),
    (235, "GetSekibanMapC"),
    (236, "GetSirenKey"),
    (237, "DesertRobot"),
    (238, "GetMap"),
    (239, "GetKeySmall"),
    (240, "GetKeyBoss2A"),
    (241, "GetKeyBoss2B"),
    (242, "GetKeyBoss2C"),
    (243, "GetKeyBossA"),
    (244, "GetKeyBossB"),
    (245, "GetKeyBossC"),
];

#[test]
fn tadtone_resolves_to_onp() {
    let t = sample_tables();
    assert_eq!(get_item_arc_names_for_item(&t, 214).as_slice(), &["Onp"]);
}

#[test]
fn triforce_override() {
    let t = empty_tables();
    assert_eq!(get_item_arc_names_for_item(&t, 229).as_slice(), &["GetTriForceSingle"]);
}

#[test]
fn every_override_ignores_tables() {
    let empty = empty_tables();
    let full = sample_tables();
    for (id, name) in OVERRIDES {
        assert_eq!(get_item_arc_names_for_item(&empty, id).as_slice(), &[name]);
        assert_eq!(get_item_arc_names_for_item(&full, id).as_slice(), &[name]);
        assert_eq!(resolve_override(id), Some(name));
    }
}

#[test]
fn no_override_around_extended_range() {
    assert_eq!(resolve_override(213), None);
    assert_eq!(resolve_override(246), None);
    assert_eq!(resolve_override(0), None);
}

#[test]
fn dummy_entry_resolves_empty() {
    let t = sample_tables();
    assert!(get_item_arc_names_for_item(&t, 6).is_empty());
}

#[test]
fn put_get_category_gives_put_then_get() {
    let t = sample_tables();
    assert_eq!(get_item_arc_names_for_item(&t, 2).as_slice(), &["PutBug", "GetBug"]);
}

#[test]
fn generic_category_wins_over_put_get() {
    let t = sample_tables();
    assert_eq!(get_item_arc_names_for_item(&t, 1).as_slice(), &["GetRupee"]);
}

#[test]
fn shield_bottle_and_potion_give_one_name() {
    let t = sample_tables();
    assert_eq!(get_item_arc_names_for_item(&t, 3).as_slice(), &["GetShieldWood"]);
    assert_eq!(get_item_arc_names_for_item(&t, 4).as_slice(), &["GetBottleEmpty"]);
    assert_eq!(get_item_arc_names_for_item(&t, 5).as_slice(), &["GetPotionRed"]);
}

#[test]
fn model_without_category_resolves_empty() {
    let t = sample_tables();
    assert!(get_item_arc_names_for_item(&t, 7).is_empty());
    assert!(get_item_arc_names_for_item(&t, 8).is_empty());
}

#[test]
fn far_out_of_range_resolves_empty() {
    let t = sample_tables();
    assert!(get_item_arc_names_for_item(&t, 9999).is_empty());
    assert!(get_item_arc_names_for_item(&t, 512).is_empty());
    assert!(get_item_arc_names_for_item(&t, u16::MAX).is_empty());
}

#[test]
fn resolution_is_repeatable() {
    let t = sample_tables();
    for id in [0u16, 1, 2, 3, 6, 214, 9999] {
        let a = get_item_arc_names_for_item(&t, id);
        let b = get_item_arc_names_for_item(&t, id);
        assert_eq!(a, b);
    }
}

#[test]
fn model_index_lookup() {
    let t = sample_tables();
    assert_eq!(model_index_of(&t, 3), Some(5));
    assert_eq!(model_index_of(&t, 6), Some(DUMMY_MODEL_INDEX));
    assert_eq!(model_index_of(&t, 511), Some(0));
    assert_eq!(model_index_of(&t, 512), None);
}

#[test]
fn item_model_def_lookup() {
    let t = sample_tables();
    let d = get_item_model_def_for_item(&t, 1).unwrap();
    assert_eq!(d.arc_name, "GetRupee");
    assert_eq!(d.model_name, "GetRupeeM");
    // No dummy check here: the dummy model index has a generic row in these tables.
    assert_eq!(get_item_model_def_for_item(&t, 6).unwrap().arc_name, "GetHeart");
    assert!(get_item_model_def_for_item(&t, 2).is_none());
    assert!(get_item_model_def_for_item(&t, 8).is_none());
    assert!(get_item_model_def_for_item(&t, 600).is_none());
}

#[test]
fn arc_names_slice() {
    assert!(ArcNames::Empty.slice().is_empty());
    assert_eq!(ArcNames::One(["Onp"]).slice(), &["Onp"]);
    assert_eq!(ArcNames::Two(["PutBug", "GetBug"]).slice(), &["PutBug", "GetBug"]);
}
