use dao_contracts::address_map::AddressMap;
use dao_contracts::text::address_lt;

fn entries(map: &AddressMap<u128>) -> Vec<(String, u128)> {
    map.list(&None, usize::MAX)
}

fn pair(address: &str, value: u128) -> (String, u128) {
    (address.to_string(), value)
}

#[test]
fn address_order_is_the_order_of_strings() {
    let samples = [
        "", "a", "aa", "ab", "b", "B", "osmo1abc", "osmo1abd", "osmo1ab", "z", "é", "ée", "日本", "~",
        "a\u{0}", "\u{10ffff}", "\u{7f}", "\u{80}", "\u{7ff}", "\u{800}", "\u{ffff}", "\u{10000}",
    ];
    for a in samples {
        for b in samples {
            assert_eq!(address_lt(a, b), a < b, "{:?} < {:?}", a, b);
        }
    }
}

#[test]
fn a_prefix_sorts_first() {
    assert!(address_lt("osmo1", "osmo1a"));
    assert!(!address_lt("osmo1a", "osmo1"));
    assert!(!address_lt("osmo1", "osmo1"));
    assert!(address_lt("", "a"));
    assert!(!address_lt("", ""));
}

#[test]
fn new_map_is_empty() {
    let map: AddressMap<u128> = AddressMap::new();
    assert_eq!(map.len(), 0);
    assert_eq!(map.get("a"), None);
    assert!(!map.contains("a"));
    assert_eq!(entries(&map), vec![]);
}

#[test]
fn set_keeps_the_entries_in_order() {
    let mut map = AddressMap::new();
    for (i, address) in ["m", "c", "x", "a", "q", "b"].into_iter().enumerate() {
        map.set(address.to_string(), i as u128);
    }

    assert_eq!(
        entries(&map),
        vec![pair("a", 3), pair("b", 5), pair("c", 1), pair("m", 0), pair("q", 4), pair("x", 2)]
    );
    assert_eq!(map.len(), 6);
    assert_eq!(map.get("q"), Some(4));
    assert_eq!(map.get("r"), None);
}

#[test]
fn set_overwrites() {
    let mut map = AddressMap::new();
    map.set("a".to_string(), 1u128);
    map.set("b".to_string(), 2);
    map.set("a".to_string(), 3);

    assert_eq!(entries(&map), vec![pair("a", 3), pair("b", 2)]);
}

#[test]
fn remove_takes_the_entry_out() {
    let mut map = AddressMap::new();
    map.set("a".to_string(), 1u128);
    map.set("b".to_string(), 2);
    map.set("c".to_string(), 3);

    map.remove("b");
    map.remove("nobody");

    assert_eq!(entries(&map), vec![pair("a", 1), pair("c", 3)]);
    assert!(!map.contains("b"));
    assert!(map.contains("c"));
    map.remove("a");
    map.remove("c");
    assert_eq!(map.len(), 0);
}

#[test]
fn list_starts_after_the_cursor_and_stops_at_the_limit() {
    let mut map = AddressMap::new();
    for (i, address) in ["a", "b", "c", "d", "e"].into_iter().enumerate() {
        map.set(address.to_string(), i as u128);
    }

    assert_eq!(map.list(&None, 2), vec![pair("a", 0), pair("b", 1)]);
    assert_eq!(map.list(&None, 0), vec![]);
    assert_eq!(map.list(&Some("b".to_string()), 2), vec![pair("c", 2), pair("d", 3)]);
    assert_eq!(map.list(&Some("bb".to_string()), 1), vec![pair("c", 2)]);
    assert_eq!(map.list(&Some("".to_string()), 1), vec![pair("a", 0)]);
    assert_eq!(map.list(&Some("d".to_string()), 10), vec![pair("e", 4)]);
    assert_eq!(map.list(&Some("e".to_string()), 10), vec![]);
    assert_eq!(map.list(&Some("f".to_string()), 10), vec![]);
}
