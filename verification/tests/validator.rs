use hackstead_config::Advancement;
use hackstead_config::AdvancementSet;
use hackstead_config::Archetype;
use hackstead_config::ArchetypeKind;
use hackstead_config::Config;
use hackstead_config::ConfigError;
use hackstead_config::GotchiArchetype;
use hackstead_config::HacksteadAdvancementKind;
use hackstead_config::HacksteadAdvancementSum;
use hackstead_config::KeepsakeArchetype;
use hackstead_config::PlantAdvancementKind;
use hackstead_config::PlantAdvancementSum;
use hackstead_config::PlantArchetype;
use hackstead_config::Recipe;
use hackstead_config::SeedArchetype;
use hackstead_config::ViolationKind;

fn plant_tier(xp: u64, title: &str, kind: PlantAdvancementKind) -> Advancement<PlantAdvancementSum> {
    Advancement {
        kind,
        xp,
        title: title.to_string(),
        description: String::new(),
        achiever_title: String::new(),
    }
}

fn oak(tiers: Vec<Advancement<PlantAdvancementSum>>) -> PlantArchetype {
    PlantArchetype {
        name: "oak".to_string(),
        advancements: AdvancementSet {
            base: plant_tier(0, "sprout", PlantAdvancementKind::Xp { multiplier: 1.0f32.to_bits() }),
            rest: tiers,
        },
    }
}

fn corpus(plants: Vec<PlantArchetype>, possessions: Vec<Archetype>) -> Config {
    Config {
        special_users: vec!["rishi".to_string()],
        hackstead_advancements: AdvancementSet {
            base: Advancement {
                kind: HacksteadAdvancementKind::Land { pieces: 0 },
                xp: 0,
                title: "newcomer".to_string(),
                description: String::new(),
                achiever_title: String::new(),
            },
            rest: vec![],
        },
        plant_archetypes: plants,
        possession_archetypes: possessions,
    }
}

fn good_possessions() -> Vec<Archetype> {
    vec![
        Archetype {
            name: "acorn".to_string(),
            kind: ArchetypeKind::Seed(SeedArchetype { grows_into: "oak".to_string() }),
        },
        Archetype {
            name: "bark".to_string(),
            kind: ArchetypeKind::Keepsake(KeepsakeArchetype),
        },
        Archetype {
            name: "treeling".to_string(),
            kind: ArchetypeKind::Gotchi(GotchiArchetype { base_happiness: 4 }),
        },
    ]
}

fn good_tiers() -> Vec<Advancement<PlantAdvancementSum>> {
    vec![
        plant_tier(
            100,
            "sapling",
            PlantAdvancementKind::Yield { resources: vec![(1.0f32.to_bits(), "bark".to_string())] },
        ),
        plant_tier(
            500,
            "grown",
            PlantAdvancementKind::Craft {
                recipes: vec![Recipe {
                    needs: vec![(3, "bark".to_string())],
                    makes: "treeling".to_string(),
                }],
            },
        ),
    ]
}

#[test]
fn archetype_name_matches() {
    let config = corpus(vec![oak(good_tiers())], good_possessions());
    let violations = config.validate();
    for v in violations.iter() {
        panic!(
            "advancement {:?} for {:?} references unknown name {:?}",
            v.title, v.owner, v.reference,
        );
    }
    assert!(config.validate().is_empty());
}

#[test]
fn validator_rejects_unknown_grows_into() {
    let mut possessions = good_possessions();
    possessions[0] = Archetype {
        name: "acorn".to_string(),
        kind: ArchetypeKind::Seed(SeedArchetype { grows_into: "maple".to_string() }),
    };
    let config = corpus(vec![oak(good_tiers())], possessions);
    let violations = config.validate();
    assert_eq!(violations.len(), 1);
    assert!(matches!(violations[0].kind, ViolationKind::SeedGrowsUnknown));
    assert_eq!(violations[0].owner, "acorn");
    assert_eq!(violations[0].reference, "maple");
}

#[test]
fn validator_rejects_unknown_yield_resource() {
    let tiers = vec![plant_tier(
        100,
        "sapling",
        PlantAdvancementKind::Yield { resources: vec![(1.0f32.to_bits(), "sap".to_string())] },
    )];
    let config = corpus(vec![oak(tiers)], good_possessions());
    let violations = config.validate();
    assert_eq!(violations.len(), 1);
    assert!(matches!(violations[0].kind, ViolationKind::YieldUnknownResource));
    assert_eq!(violations[0].owner, "oak");
    assert_eq!(violations[0].title, "sapling");
    assert_eq!(violations[0].reference, "sap");
}

#[test]
fn validator_rejects_unknown_craft_names() {
    let tiers = vec![plant_tier(
        500,
        "grown",
        PlantAdvancementKind::Craft {
            recipes: vec![Recipe {
                needs: vec![(3, "resin".to_string())],
                makes: "wand".to_string(),
            }],
        },
    )];
    let config = corpus(vec![oak(tiers)], good_possessions());
    let violations = config.validate();
    assert_eq!(violations.len(), 2);
    assert!(matches!(violations[0].kind, ViolationKind::CraftUnknownProduct));
    assert_eq!(violations[0].reference, "wand");
    assert!(matches!(violations[1].kind, ViolationKind::CraftUnknownIngredient));
    assert_eq!(violations[1].reference, "resin");
    assert_eq!(violations[1].title, "grown");
}

#[test]
fn validator_checks_the_base_tier_too() {
    let mut plant = oak(good_tiers());
    plant.advancements.base = plant_tier(
        0,
        "sprout",
        PlantAdvancementKind::Yield { resources: vec![(1.0f32.to_bits(), "dew".to_string())] },
    );
    let config = corpus(vec![plant], good_possessions());
    let violations = config.validate();
    assert_eq!(violations.len(), 1);
    assert_eq!(violations[0].title, "sprout");
    assert_eq!(violations[0].reference, "dew");
}

#[test]
fn lookup_finds_first_match() {
    let mut possessions = good_possessions();
    possessions.push(Archetype {
        name: "bark".to_string(),
        kind: ArchetypeKind::Gotchi(GotchiArchetype { base_happiness: 9 }),
    });
    let config = corpus(vec![oak(good_tiers())], possessions);
    // duplicate names are not rejected; the first occurrence wins
    let handle = config.find_possession_handle(&"bark".to_string()).unwrap();
    assert_eq!(handle, 1);
    let found = config.find_possession(&"bark".to_string()).unwrap();
    assert!(matches!(found.kind, ArchetypeKind::Keepsake(_)));
}

#[test]
fn lookup_unknown_name_is_an_error() {
    let config = corpus(vec![oak(good_tiers())], good_possessions());
    match config.find_possession(&"pinecone".to_string()) {
        Ok(_) => panic!("unknown name resolved"),
        Err(ConfigError::UnknownArchetypeName(name)) => assert_eq!(name, "pinecone"),
    }
    match config.find_plant(&"maple".to_string()) {
        Ok(_) => panic!("unknown plant resolved"),
        Err(ConfigError::UnknownArchetypeName(name)) => assert_eq!(name, "maple"),
    }
    assert!(config.find_plant(&"oak".to_string()).is_ok());
}
