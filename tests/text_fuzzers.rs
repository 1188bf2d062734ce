use std::collections::HashSet;

use griffin::{Fuzzer, HyphenFuzzer, InsertionFuzzer, MapFuzzer};

#[test]
fn hyphen_test_fuzz_single_character() {
    let fuzzer = HyphenFuzzer::new();
    let permutations = fuzzer.fuzz("a");
    let expected = [];

    assert_eq!(
        HashSet::<_>::from_iter(&permutations),
        HashSet::<_>::from_iter(&expected)
    );
    assert_eq!(permutations.len(), expected.len());
}

#[test]
fn hyphen_test_fuzz_multiple_characters() {
    let fuzzer = HyphenFuzzer::new();
    let permutations = fuzzer.fuzz("ab");
    let expected = ["a-b"]
        .iter()
        .map(|s| s.to_string())
        .collect::<Vec<String>>();

    assert_eq!(
        HashSet::<_>::from_iter(&permutations),
        HashSet::<_>::from_iter(&expected)
    );
    assert_eq!(permutations.len(), expected.len());
}

#[test]
fn test_fuzz_three_characters() {
    let fuzzer = HyphenFuzzer::new();
    let permutations = fuzzer.fuzz("abc");
    let expected = ["ab-c", "a-bc"]
        .iter()
        .map(|s| s.to_string())
        .collect::<Vec<String>>();

    assert_eq!(
        HashSet::<_>::from_iter(&permutations),
        HashSet::<_>::from_iter(&expected)
    );
    assert_eq!(permutations.len(), expected.len());
}

#[test]
fn test_fuzz_four_characters() {
    let fuzzer = HyphenFuzzer::new();
    let permutations = fuzzer.fuzz("abcd");
    let expected = ["abc-d", "ab-cd", "a-bcd"]
        .iter()
        .map(|s| s.to_string())
        .collect::<Vec<String>>();

    assert_eq!(
        HashSet::<_>::from_iter(&permutations),
        HashSet::<_>::from_iter(&expected)
    );
    assert_eq!(permutations.len(), expected.len());
}

#[test]
fn test_insertion_single_character() {
    let fuzzer = InsertionFuzzer::new(vec![('a', vec!['1', '2'])]);
    let permutations = fuzzer.fuzz("a");
    let expected = ["a1", "1a", "a2", "2a"]
        .iter()
        .map(|s| s.to_string())
        .collect::<Vec<String>>();

    assert_eq!(
        HashSet::<_>::from_iter(&permutations),
        HashSet::<_>::from_iter(&expected)
    );
    assert_eq!(permutations.len(), expected.len());
}

#[test]
fn test_insertion_multiple_characters() {
    let fuzzer = InsertionFuzzer::new(vec![('a', vec!['1']), ('b', vec!['2'])]);
    let permutations = fuzzer.fuzz("ab");
    let expected = ["1ab", "a1b", "a2b", "ab2"]
        .iter()
        .map(|s| s.to_string())
        .collect::<Vec<String>>();

    assert_eq!(
        HashSet::<_>::from_iter(&permutations),
        HashSet::<_>::from_iter(&expected)
    );
    assert_eq!(permutations.len(), expected.len());
}

#[test]
fn test_insertion_no_match() {
    let fuzzer = InsertionFuzzer::new(Vec::new());
    let permutations = fuzzer.fuzz("abc");
    let expected: Vec<String> = Vec::new(); // No permutations expected

    assert_eq!(permutations, expected);
}

#[test]
fn test_insertion_empty_string() {
    let fuzzer = InsertionFuzzer::new(vec![('a', vec!['1', '2'])]);
    let permutations = fuzzer.fuzz("");
    let expected: Vec<String> = Vec::new(); // No permutations expected for empty string

    assert_eq!(permutations, expected);
}

#[test]
fn test_insertion_with_multiple_options() {
    let fuzzer = InsertionFuzzer::new(vec![
        ('a', vec!['1', '2']),
        ('b', vec!['3', '4']),
    ]);
    let permutations = fuzzer.fuzz("ab");
    let expected = ["ab3", "2ab", "a3b", "a1b", "1ab", "a4b", "ab4", "a2b"]
        .iter()
        .map(|s| s.to_string())
        .collect::<Vec<String>>();

    assert_eq!(
        HashSet::<_>::from_iter(&permutations),
        HashSet::<_>::from_iter(&expected)
    );
    assert_eq!(permutations.len(), expected.len());
}

#[test]
fn map_test_fuzz_single_character() {
    let fuzzer = MapFuzzer::new(vec![('a', vec!["q", "w", "e", "r", "t"])]);
    let permutations = fuzzer.fuzz("a");
    let expected = vec!["a", "q", "w", "e", "r", "t"];

    assert_eq!(permutations, expected);
}

#[test]
fn map_test_fuzz_multiple_characters() {
    let fuzzer = MapFuzzer::new(vec![('a', vec!["q", "w", "e", "r", "t"])]);
    let permutations = fuzzer.fuzz("abc");
    let expected = vec!["abc", "qbc", "wbc", "ebc", "rbc", "tbc"]; // This expected output assumes only 'a' has mappings.

    assert_eq!(permutations, expected);
}

#[test]
fn test_fuzz_empty_string() {
    let fuzzer = MapFuzzer::new(vec![('a', vec!["q", "w", "e", "r", "t"])]);
    let permutations = fuzzer.fuzz("");
    let expected = Vec::<String>::new();

    assert_eq!(permutations, expected);
}

#[test]
fn test_fuzz_no_mapping() {
    let fuzzer = MapFuzzer::new(Vec::new());
    let permutations = fuzzer.fuzz("abc");
    let expected = vec!["abc"];

    assert_eq!(permutations, expected);
}

