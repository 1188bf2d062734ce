use griffin::{AzertyTypoFuzzer, CyrillicFuzzer, Fuzzer, HomoglyphFuzzer, QwertyTypoFuzzer, QwertzTypoFuzzer};

fn strings(v: &[&str]) -> Vec<String> {
    v.iter().map(|s| s.to_string()).collect()
}

#[test]
fn qwerty_neighbours_of_a() {
    assert_eq!(
        QwertyTypoFuzzer::new().fuzz("a"),
        strings(&["qa", "aq", "wa", "aw", "sa", "as", "za", "az"])
    );
}

#[test]
fn azerty_neighbours_of_a() {
    assert_eq!(
        AzertyTypoFuzzer::new().fuzz("a"),
        strings(&["2a", "a2", "za", "az", "qa", "aq", "1a", "a1"])
    );
}

#[test]
fn qwertz_neighbours_of_y() {
    assert_eq!(QwertzTypoFuzzer::new().fuzz("y"), strings(&["ay", "ya", "sy", "ys", "xy", "yx"]));
}

#[test]
fn keyboard_fuzzers_skip_unlisted_characters() {
    assert!(QwertyTypoFuzzer::new().fuzz("-.").is_empty());
}

#[test]
fn homoglyphs_in_every_combination() {
    assert_eq!(HomoglyphFuzzer::new().fuzz("o0"), strings(&["o0", "oo", "00", "0o"]));
}

#[test]
fn cyrillic_look_alikes() {
    let v = CyrillicFuzzer::new().fuzz("ab");
    assert_eq!(v.len(), 12);
    assert_eq!(v[0], "ab");
    assert_eq!(v[1], "a\u{44c}");
    assert_eq!(v[3], "\u{430}b");
    assert_eq!(CyrillicFuzzer::new().fuzz("f"), strings(&["f"]));
}
