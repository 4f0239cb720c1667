use market_factory::MarketFactory;
use near_sdk::collections::Vector;
use near_sdk::AccountId;

fn account(name: &str) -> AccountId {
    name.parse().unwrap()
}

fn accounts(names: &[&str]) -> Vec<AccountId> {
    names.iter().map(|n| account(n)).collect()
}

fn factory_with(prefix: &[u8], names: &[&str]) -> MarketFactory {
    let mut markets: Vector<AccountId> = Vector::new(prefix.to_vec());
    for n in names {
        markets.push(&account(n));
    }
    MarketFactory { markets }
}

const FIVE: [&str; 5] = ["a.near", "b.near", "c.near", "d.near", "e.near"];

#[test]
fn five_markets_count() {
    let f = factory_with(b"m", &FIVE);
    assert_eq!(f.get_markets_count(), 5);
}

#[test]
fn five_markets_middle_page() {
    let f = factory_with(b"m", &FIVE);
    assert_eq!(f.get_markets(2, 2), accounts(&["c.near", "d.near"]));
}

#[test]
fn five_markets_page_cut_at_end() {
    let f = factory_with(b"m", &FIVE);
    assert_eq!(f.get_markets(4, 10), accounts(&["e.near"]));
}

#[test]
fn five_markets_page_past_end() {
    let f = factory_with(b"m", &FIVE);
    assert_eq!(f.get_markets(10, 5), Vec::<AccountId>::new());
}

#[test]
fn five_markets_zero_limit() {
    let f = factory_with(b"m", &FIVE);
    assert_eq!(f.get_markets(0, 0), Vec::<AccountId>::new());
    assert_eq!(f.get_markets(3, 0), Vec::<AccountId>::new());
}

#[test]
fn five_markets_list_in_order() {
    let f = factory_with(b"m", &FIVE);
    assert_eq!(f.get_markets_list(), accounts(&FIVE));
}

#[test]
fn empty_registry() {
    let f = factory_with(b"e", &[]);
    assert_eq!(f.get_markets_count(), 0);
    assert_eq!(f.get_markets_list(), Vec::<AccountId>::new());
    assert_eq!(f.get_markets(0, 5), Vec::<AccountId>::new());
}

#[test]
fn largest_limit_saturates() {
    let f = factory_with(b"m", &FIVE);
    assert_eq!(f.get_markets(3, u64::MAX), accounts(&["d.near", "e.near"]));
    assert_eq!(f.get_markets(0, u64::MAX), accounts(&FIVE));
}

#[test]
fn largest_start_is_empty() {
    let f = factory_with(b"m", &FIVE);
    assert_eq!(f.get_markets(u64::MAX, u64::MAX), Vec::<AccountId>::new());
    assert_eq!(f.get_markets(u64::MAX, 1), Vec::<AccountId>::new());
}

#[test]
fn page_never_exceeds_limit() {
    let f = factory_with(b"m", &FIVE);
    for start in 0..7u64 {
        for limit in 0..7u64 {
            let page = f.get_markets(start, limit);
            assert!(page.len() as u64 <= limit);
            let remaining = 5u64.saturating_sub(start);
            assert!(page.len() as u64 <= remaining);
        }
    }
}

#[test]
fn full_page_is_whole_list() {
    let f = factory_with(b"m", &FIVE);
    assert_eq!(f.get_markets(0, f.get_markets_count()), f.get_markets_list());
}

#[test]
fn pages_partition_registry() {
    let f = factory_with(b"m", &FIVE);
    let count = f.get_markets_count();
    for k in 0..=count {
        let mut joined = f.get_markets(0, k);
        joined.extend(f.get_markets(k, count - k));
        assert_eq!(joined, f.get_markets_list());
    }
}

#[test]
fn duplicates_are_returned_as_stored() {
    let f = factory_with(b"d", &["x.near", "y.near", "x.near"]);
    assert_eq!(f.get_markets(0, 3), accounts(&["x.near", "y.near", "x.near"]));
    assert_eq!(f.get_markets(1, 2), accounts(&["y.near", "x.near"]));
}
