use mkdbupgrade::pattern::{build_move_pattern, partition_upgrades};

fn paths(names: &[&str]) -> Vec<String> {
    names.iter().map(|n| String::from(*n)).collect()
}

#[test]
fn pattern_from_one_fragment() {
    assert_eq!(build_move_pattern(&paths(&["1234"])), String::from("(?:1234)"));
}

#[test]
fn pattern_from_several_fragments() {
    assert_eq!(build_move_pattern(&paths(&["b", "d"])), String::from("(?:b|d)"));
}

#[test]
fn partition_preserves_order_in_both_parts() {
    let ups = paths(&["a", "b", "c", "d"]);
    let pat = Some(String::from("(?:b|d)"));
    let (main, moved) = partition_upgrades(&pat, &ups).unwrap();
    assert_eq!(main, paths(&["a", "c"]));
    assert_eq!(moved, paths(&["b", "d"]));
}

#[test]
fn no_pattern_keeps_everything_in_the_body() {
    let ups = paths(&["a", "b"]);
    let (main, moved) = partition_upgrades(&None, &ups).unwrap();
    assert_eq!(main, paths(&["a", "b"]));
    assert_eq!(moved, Vec::<String>::new());
}

#[test]
fn pattern_matches_anywhere_in_the_path() {
    let ups = paths(&["dir/0004.move.sql", "dir/0005.sql"]);
    let pat = Some(String::from("(?:0004)"));
    let (main, moved) = partition_upgrades(&pat, &ups).unwrap();
    assert_eq!(main, paths(&["dir/0005.sql"]));
    assert_eq!(moved, paths(&["dir/0004.move.sql"]));
}

#[test]
fn invalid_pattern_is_reported() {
    let ups = paths(&["a"]);
    let pat = Some(String::from("(?:("));
    assert!(partition_upgrades(&pat, &ups).is_none());
}

#[test]
fn invalid_pattern_with_no_upgrades_is_still_reported() {
    let ups: Vec<String> = Vec::new();
    let pat = Some(String::from("(?:("));
    assert!(partition_upgrades(&pat, &ups).is_none());
}
