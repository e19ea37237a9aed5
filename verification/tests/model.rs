use hackstead_config::Advancement;
use hackstead_config::AdvancementSet;
use hackstead_config::AdvancementSum;
use hackstead_config::Archetype;
use hackstead_config::ArchetypeKind;
use hackstead_config::HacksteadAdvancementKind;
use hackstead_config::HacksteadAdvancementSum;
use hackstead_config::KeepsakeArchetype;
use hackstead_config::PlantAdvancementKind;
use hackstead_config::PlantAdvancementSum;

fn land_tier(xp: u64, pieces: usize) -> Advancement<HacksteadAdvancementSum> {
    Advancement {
        kind: HacksteadAdvancementKind::Land { pieces },
        xp,
        title: format!("land tier at {}", xp),
        description: String::new(),
        achiever_title: String::new(),
    }
}

fn plant_tier(xp: u64, kind: PlantAdvancementKind) -> Advancement<PlantAdvancementSum> {
    Advancement {
        kind,
        xp,
        title: format!("plant tier at {}", xp),
        description: String::new(),
        achiever_title: String::new(),
    }
}

fn land_set() -> AdvancementSet<HacksteadAdvancementSum> {
    AdvancementSet {
        base: land_tier(0, 0),
        rest: vec![land_tier(100, 5), land_tier(500, 10)],
    }
}

fn keepsake(name: &str) -> Archetype {
    Archetype {
        name: name.to_string(),
        kind: ArchetypeKind::Keepsake(KeepsakeArchetype),
    }
}

#[test]
fn all_yields_base_first() {
    let set = land_set();
    let tiers = set.all();
    assert_eq!(tiers.len(), 3);
    assert_eq!(tiers[0].xp, 0);
    assert_eq!(tiers[0].title, "land tier at 0");
    assert_eq!(tiers[1].xp, 100);
    assert_eq!(tiers[2].xp, 500);
}

#[test]
fn hackstead_sum_scenario() {
    let registry: Vec<Archetype> = Vec::new();
    let set = land_set();
    assert_eq!(set.sum(&registry, 50).land, 0);
    assert_eq!(set.sum(&registry, 150).land, 5);
    // the literal boundary collapse: past every threshold, the position
    // resets to 0 and the sum folds the empty slice
    assert_eq!(set.sum(&registry, 600).land, 0);
    assert_eq!(set.max(&registry).land, 15);
}

#[test]
fn sum_at_zero_is_identity() {
    let registry: Vec<Archetype> = Vec::new();
    let set = land_set();
    assert_eq!(set.sum(&registry, 0).land, 0);

    let pset = AdvancementSet {
        base: plant_tier(0, PlantAdvancementKind::Xp { multiplier: 1.0f32.to_bits() }),
        rest: vec![plant_tier(80, PlantAdvancementKind::Xp { multiplier: 2.0f32.to_bits() })],
    };
    let sum: PlantAdvancementSum = pset.sum(&registry, 0);
    assert!(sum.xp_multipliers.is_empty());
    assert!(sum.yield_speed_multipliers.is_empty());
    assert!(sum.yields.is_empty());
    assert!(sum.recipes.is_empty());
}

#[test]
fn current_position_is_order_preserving_below_boundary() {
    let set = land_set();
    // ascending experience gives non-decreasing positions while some
    // threshold still exceeds the counter...
    assert_eq!(set.current_position(0), 0);
    assert_eq!(set.current_position(50), 0);
    assert_eq!(set.current_position(100), 1);
    assert_eq!(set.current_position(499), 1);
    // ...and collapses to 0 at the upper boundary, the documented
    // discontinuity
    assert_eq!(set.current_position(500), 0);
    assert_eq!(set.current_position(600), 0);
}

#[test]
fn current_tier_and_boundary() {
    let set = land_set();
    assert_eq!(set.current(50).xp, 100);
    assert_eq!(set.current(150).xp, 500);
    // past every threshold the current tier is the base tier
    assert_eq!(set.current(600).xp, 0);
    assert_eq!(set.current(600).title, "land tier at 0");
}

#[test]
fn empty_rest_collapses_to_base() {
    let registry: Vec<Archetype> = Vec::new();
    let set = AdvancementSet {
        base: land_tier(0, 7),
        rest: Vec::new(),
    };
    assert_eq!(set.current_position(0), 0);
    assert_eq!(set.current_position(1000), 0);
    assert_eq!(set.current(1000).title, "land tier at 0");
    // the base tier is never folded: it conceptually sits at threshold 0
    assert_eq!(set.sum(&registry, 1000).land, 0);
    assert_eq!(set.max(&registry).land, 0);
    let tiers = set.all();
    assert_eq!(tiers.len(), 1);
}

#[test]
fn land_fold_commutes() {
    let registry: Vec<Archetype> = Vec::new();
    let one_way = vec![land_tier(100, 5), land_tier(500, 10)];
    let other_way = vec![land_tier(500, 10), land_tier(100, 5)];
    let a = HacksteadAdvancementSum::new(&registry, &one_way[..]);
    let b = HacksteadAdvancementSum::new(&registry, &other_way[..]);
    assert_eq!(a.land, 15);
    assert_eq!(b.land, 15);
}

#[test]
fn xp_multiplier_scenario() {
    let registry: Vec<Archetype> = Vec::new();
    let tiers = vec![
        plant_tier(10, PlantAdvancementKind::Xp { multiplier: 2.0f32.to_bits() }),
        plant_tier(20, PlantAdvancementKind::Xp { multiplier: 3.0f32.to_bits() }),
    ];
    let reversed = vec![
        plant_tier(10, PlantAdvancementKind::Xp { multiplier: 3.0f32.to_bits() }),
        plant_tier(20, PlantAdvancementKind::Xp { multiplier: 2.0f32.to_bits() }),
    ];
    let sum = PlantAdvancementSum::new(&registry, &tiers[..]);
    let rsum = PlantAdvancementSum::new(&registry, &reversed[..]);
    assert_eq!(sum.xp_multipliers, vec![2.0f32.to_bits(), 3.0f32.to_bits()]);
    let product: f32 = sum.xp_multipliers.iter().fold(1.0, |m, b| m * f32::from_bits(*b));
    let rproduct: f32 = rsum.xp_multipliers.iter().fold(1.0, |m, b| m * f32::from_bits(*b));
    assert_eq!(product, 6.0);
    assert_eq!(rproduct, 6.0);
}

#[test]
fn plant_fold_resolves_names() {
    let registry = vec![keepsake("apple"), keepsake("bark")];
    let tiers = vec![
        plant_tier(
            10,
            PlantAdvancementKind::Yield {
                resources: vec![(1.5f32.to_bits(), "bark".to_string())],
            },
        ),
        plant_tier(
            20,
            PlantAdvancementKind::YieldSpeed { multiplier: 4.0f32.to_bits() },
        ),
        plant_tier(
            30,
            PlantAdvancementKind::Craft {
                recipes: vec![hackstead_config::Recipe {
                    needs: vec![(2, "bark".to_string())],
                    makes: "apple".to_string(),
                }],
            },
        ),
        plant_tier(
            40,
            PlantAdvancementKind::YieldNeighboringSize { multiplier: 9.0f32.to_bits() },
        ),
    ];
    let sum = PlantAdvancementSum::new(&registry, &tiers[..]);
    assert_eq!(sum.yields, vec![(1.5f32.to_bits(), 1)]);
    assert_eq!(sum.yield_speed_multipliers, vec![4.0f32.to_bits()]);
    assert!(sum.xp_multipliers.is_empty());
    assert_eq!(sum.recipes.len(), 1);
    assert_eq!(sum.recipes[0].makes, 0);
    assert_eq!(sum.recipes[0].needs, vec![(2, 1)]);
}
