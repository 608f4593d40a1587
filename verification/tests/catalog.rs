use mpywd::data::{ConstructionError, Item, Lootbox, Rarity};
use mpywd::sampler::{Sampler, State};

fn item(title: &str, url: &str) -> Item {
    Item { title: title.to_string(), url: url.to_string() }
}

fn tier(label: &str, probability: usize, items: Vec<Item>) -> Rarity {
    Rarity { label: label.to_string(), probability, items }
}

fn two_tier_catalog() -> Lootbox {
    Lootbox {
        title: "Example Box".to_string(),
        rarities: vec![
            tier("Common", 90, vec![item("I1", "https://example.com/i1")]),
            tier("Rare", 10, vec![item("I2", "https://example.com/i2")]),
        ],
    }
}

#[test]
fn build_rejects_empty_tier_list() {
    let r = Lootbox::build("Empty".to_string(), vec![]);
    assert_eq!(r, Err(ConstructionError::NoTiers));
}

#[test]
fn build_rejects_tier_without_items() {
    let r = Lootbox::build(
        "Bad".to_string(),
        vec![
            tier("Common", 90, vec![item("I1", "https://example.com/i1")]),
            tier("Rare", 10, vec![]),
        ],
    );
    assert_eq!(r, Err(ConstructionError::EmptyTierItems));
}

#[test]
fn build_rejects_all_zero_weights() {
    let r = Lootbox::build(
        "Zero".to_string(),
        vec![
            tier("Common", 0, vec![item("I1", "https://example.com/i1")]),
            tier("Rare", 0, vec![item("I2", "https://example.com/i2")]),
        ],
    );
    assert_eq!(r, Err(ConstructionError::ZeroTotalWeight));
}

#[test]
fn build_keeps_a_valid_catalog_unchanged() {
    let catalog = two_tier_catalog();
    let built = Lootbox::build(catalog.title.clone(), catalog.rarities.clone()).unwrap();
    assert_eq!(built, catalog);
}

#[test]
fn rarity_weights_lists_weights_in_tier_order() {
    let catalog = two_tier_catalog();
    assert_eq!(catalog.rarity_weights(), vec![90, 10]);
}

#[test]
fn state_rejects_invalid_catalogs() {
    let no_tiers = Lootbox { title: "T".to_string(), rarities: vec![] };
    assert!(matches!(State::new(no_tiers), Err(ConstructionError::NoTiers)));

    let empty_items = Lootbox {
        title: "T".to_string(),
        rarities: vec![tier("Common", 1, vec![])],
    };
    assert!(matches!(State::new(empty_items), Err(ConstructionError::EmptyTierItems)));

    let zero = Lootbox {
        title: "T".to_string(),
        rarities: vec![tier("Common", 0, vec![item("I1", "u1")])],
    };
    assert!(matches!(State::new(zero), Err(ConstructionError::ZeroTotalWeight)));
}

#[test]
fn state_accepts_a_valid_catalog() {
    let catalog = two_tier_catalog();
    let state = State::new(catalog.clone()).unwrap();
    assert_eq!(state.lootbox, catalog);
}

#[test]
fn sampler_rejects_no_weights() {
    assert!(matches!(Sampler::from_weights(vec![]), Err(ConstructionError::NoTiers)));
}

#[test]
fn sampler_rejects_all_zero_weights() {
    assert!(matches!(
        Sampler::from_weights(vec![0, 0, 0]),
        Err(ConstructionError::ZeroTotalWeight)
    ));
}

#[test]
fn sampler_draw_stays_in_range() {
    let sampler = Sampler::from_weights(vec![1, 2, 3]).unwrap();
    let mut rng = rand::rng();
    for _ in 0..1000 {
        let i = sampler.draw(&mut rng);
        assert!(i < 3);
    }
}

#[test]
fn sampler_accepts_one_huge_weight() {
    let sampler = Sampler::from_weights(vec![usize::MAX]).unwrap();
    let mut rng = rand::rng();
    for _ in 0..100 {
        assert_eq!(sampler.draw(&mut rng), 0);
    }
}

#[test]
fn sampler_never_draws_a_zero_weight_tier() {
    let sampler = Sampler::from_weights(vec![0, 5, 0, 7]).unwrap();
    let mut rng = rand::rng();
    for _ in 0..100_000 {
        let i = sampler.draw(&mut rng);
        assert!(i == 1 || i == 3);
    }
}

#[test]
fn sampler_draws_proportionally_to_weights() {
    let sampler = Sampler::from_weights(vec![90, 10]).unwrap();
    let mut rng = rand::rng();
    let trials = 100_000;
    let mut hits: usize = 0;
    for _ in 0..trials {
        if sampler.draw(&mut rng) == 0 {
            hits += 1;
        }
    }
    // Expected 90% of 100,000; allow a generous tolerance around it.
    assert!(hits > 88_000 && hits < 92_000, "tier 0 drawn {} times", hits);
}
