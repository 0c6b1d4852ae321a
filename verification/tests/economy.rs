use angler::components::{ActionRange, Building, Player};
use angler::economy::{
    buildings_in_reach, catch_outcome, draw_catch, first_in_reach, gap, nearest_in_reach,
    on_catch, on_hit, on_sell, take_catch, SellPolicy, K_CHANCE_SCALE, K_GOLDEN_BELOW,
    K_SILVER_BELOW, K_WEIGHT_END, K_WEIGHT_MIN,
};
use angler::items::{Fish, FishType, Item};

fn silver(weight: u32) -> Item {
    Item::Fish(Fish { t: FishType::Silver, weight })
}

fn golden(weight: u32) -> Item {
    Item::Fish(Fish { t: FishType::Golden, weight })
}

fn building(x: i64, range: u64) -> Building {
    Building { x, action: ActionRange { range } }
}

#[test]
fn selling_a_silver_fish_pays_its_weight() {
    let mut player = Player::new();
    take_catch(&mut player, Some(FishType::Silver), 2_000);
    assert_eq!(player.items, vec![silver(2_000)]);
    let sold = on_sell(&mut player);
    assert_eq!(sold, Some(silver(2_000)));
    assert_eq!(player.money, 2_000);
    assert!(player.items.is_empty());
}

#[test]
fn selling_a_golden_fish_pays_a_hundredfold() {
    let mut player = Player { money: 5, items: vec![golden(1_500)] };
    assert_eq!(on_sell(&mut player), Some(golden(1_500)));
    assert_eq!(player.money, 150_005);
}

#[test]
fn selling_takes_the_last_catch_first() {
    let mut player = Player { money: 0, items: vec![silver(100), golden(200), silver(300)] };
    assert_eq!(on_sell(&mut player), Some(silver(300)));
    assert_eq!(player.items, vec![silver(100), golden(200)]);
    assert_eq!(player.money, 300);
    assert_eq!(on_sell(&mut player), Some(golden(200)));
    assert_eq!(player.money, 20_300);
    assert_eq!(on_sell(&mut player), Some(silver(100)));
    assert_eq!(player.money, 20_400);
    assert_eq!(on_sell(&mut player), None);
    assert_eq!(player, Player { money: 20_400, items: vec![] });
}

#[test]
fn selling_from_an_empty_inventory_does_nothing() {
    let mut player = Player { money: 42, items: vec![] };
    assert_eq!(on_sell(&mut player), None);
    assert_eq!(player, Player { money: 42, items: vec![] });
}

#[test]
fn the_purse_holds_no_more_than_it_can() {
    let mut player = Player { money: u64::MAX - 10, items: vec![silver(11), silver(10)] };
    on_sell(&mut player);
    assert_eq!(player.money, u64::MAX);
    on_sell(&mut player);
    assert_eq!(player.money, u64::MAX);
    assert!(player.items.is_empty());
}

#[test]
fn chances_split_one_four_five() {
    assert_eq!(catch_outcome(0), Some(FishType::Golden));
    assert_eq!(catch_outcome(99), Some(FishType::Golden));
    assert_eq!(catch_outcome(100), Some(FishType::Silver));
    assert_eq!(catch_outcome(499), Some(FishType::Silver));
    assert_eq!(catch_outcome(500), None);
    assert_eq!(catch_outcome(999), None);
    assert_eq!(catch_outcome(u32::MAX), None);
    let mut counts = (0, 0, 0);
    for chance in 0..K_CHANCE_SCALE {
        match catch_outcome(chance) {
            Some(FishType::Golden) => counts.0 += 1,
            Some(FishType::Silver) => counts.1 += 1,
            None => counts.2 += 1,
        }
    }
    assert_eq!(counts, (100, 400, 500));
    assert_eq!((K_GOLDEN_BELOW, K_SILVER_BELOW, K_CHANCE_SCALE), (100, 500, 1_000));
}

#[test]
fn a_catch_goes_on_top_of_the_inventory() {
    let mut player = Player { money: 7, items: vec![silver(1)] };
    take_catch(&mut player, None, 500);
    assert_eq!(player, Player { money: 7, items: vec![silver(1)] });
    take_catch(&mut player, Some(FishType::Golden), 500);
    assert_eq!(player, Player { money: 7, items: vec![silver(1), golden(500)] });
}

#[test]
fn draws_stay_in_their_ranges() {
    let mut chances = std::collections::BTreeSet::new();
    let mut weights = std::collections::BTreeSet::new();
    for _ in 0..20_000 {
        let draw = draw_catch();
        assert!(draw.chance < K_CHANCE_SCALE);
        assert!(K_WEIGHT_MIN <= draw.weight && draw.weight < K_WEIGHT_END);
        if catch_outcome(draw.chance).is_none() {
            assert_eq!(draw.weight, K_WEIGHT_MIN);
        } else {
            weights.insert(draw.weight);
        }
        chances.insert(draw.chance);
    }
    // The numbers drawn differ from the bounds handed in, and from one another.
    assert!(chances.len() > 900);
    assert!(weights.len() > 5_000);
    assert!(*chances.iter().next_back().unwrap() >= 500);
    assert!(*weights.iter().next_back().unwrap() > 10_000);
}

#[test]
fn catch_fractions_are_one_four_five_in_ten() {
    let trials = 200_000;
    let (mut gold, mut silver_count, mut none) = (0u32, 0u32, 0u32);
    for _ in 0..trials {
        let mut player = Player::new();
        on_catch(&mut player);
        assert_eq!(player.money, 0);
        match player.items.as_slice() {
            [] => none += 1,
            [Item::Fish(fish)] => {
                assert!(K_WEIGHT_MIN <= fish.weight && fish.weight < K_WEIGHT_END);
                match fish.t {
                    FishType::Golden => gold += 1,
                    FishType::Silver => silver_count += 1,
                }
            },
            _ => panic!("more than one item from one catch"),
        }
    }
    let fraction = |n: u32| n as f64 / trials as f64;
    assert!((fraction(gold) - 0.10).abs() < 0.01);
    assert!((fraction(silver_count) - 0.40).abs() < 0.01);
    assert!((fraction(none) - 0.50).abs() < 0.01);
}

#[test]
fn distance_is_symmetric_and_exact() {
    assert_eq!(gap(5, 2), 3);
    assert_eq!(gap(2, 5), 3);
    assert_eq!(gap(-7, -7), 0);
    assert_eq!(gap(i64::MAX, i64::MIN), u64::MAX);
    assert_eq!(gap(i64::MIN, i64::MAX), u64::MAX);
}

#[test]
fn every_building_in_reach_buys() {
    let buildings = vec![building(100, 50), building(0, 10), building(60, 30), building(80, 21)];
    assert_eq!(buildings_in_reach(70, &buildings), vec![0, 2, 3]);
    assert_eq!(on_hit(70, &buildings, SellPolicy::EveryInRange), vec![0, 2, 3]);
    assert_eq!(on_hit(5, &buildings, SellPolicy::EveryInRange), vec![1]);
    assert_eq!(on_hit(-10, &buildings, SellPolicy::EveryInRange), Vec::<usize>::new());
    assert_eq!(on_hit(0, &vec![], SellPolicy::EveryInRange), Vec::<usize>::new());
}

#[test]
fn the_first_building_in_reach_buys() {
    let buildings = vec![building(100, 50), building(0, 10), building(60, 30), building(80, 21)];
    assert_eq!(first_in_reach(70, &buildings), Some(0));
    assert_eq!(first_in_reach(31, &buildings), Some(2));
    assert_eq!(first_in_reach(30, &buildings), None);
    assert_eq!(on_hit(70, &buildings, SellPolicy::FirstInRange), vec![0]);
    assert_eq!(on_hit(31, &buildings, SellPolicy::FirstInRange), vec![2]);
    assert_eq!(on_hit(30, &buildings, SellPolicy::FirstInRange), Vec::<usize>::new());
}

#[test]
fn the_nearest_building_in_reach_buys() {
    let buildings = vec![building(100, 50), building(0, 10), building(60, 30), building(80, 21)];
    assert_eq!(nearest_in_reach(70, &buildings), Some(2));
    assert_eq!(nearest_in_reach(75, &buildings), Some(3));
    assert_eq!(nearest_in_reach(95, &buildings), Some(0));
    assert_eq!(nearest_in_reach(30, &buildings), None);
    // Equally near: the first one.
    assert_eq!(nearest_in_reach(90, &buildings), Some(0));
    assert_eq!(on_hit(70, &buildings, SellPolicy::Nearest), vec![2]);
    assert_eq!(on_hit(90, &buildings, SellPolicy::Nearest), vec![0]);
    assert_eq!(on_hit(30, &buildings, SellPolicy::Nearest), Vec::<usize>::new());
    // A nearer building out of reach does not count.
    let shy = vec![building(10, 5), building(40, 100)];
    assert_eq!(nearest_in_reach(20, &shy), Some(1));
}

#[test]
fn reach_ends_before_the_range() {
    let b = building(0, 10);
    assert!(b.in_reach(9));
    assert!(b.in_reach(-9));
    assert!(!b.in_reach(10));
    assert!(!b.in_reach(-10));
    assert!(!building(0, 0).in_reach(0));
    assert_eq!(Building::new(5, 21), building(5, 10));
    assert_eq!(ActionRange::of_width(480_000), ActionRange { range: 240_000 });
}
