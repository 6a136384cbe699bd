//! Grouping theme names into families.

use thematic::grouping::{find_extension_name, group_families, themes_should_be_grouped};

fn rose_pine_names() -> Vec<String> {
    vec![
        "Rosé Pine".to_string(),
        "Rosé Pine (no italics)".to_string(),
        "Rosé Pine Moon".to_string(),
        "Rosé Pine Moon (no italics)".to_string(),
        "Rosé Pine Dawn".to_string(),
        "Rosé Pine Dawn (no italics)".to_string(),
    ]
}

#[test]
fn test_grouping() {
    let theme_names = rose_pine_names();
    let family_name_pairs = group_families(theme_names.clone());
    assert_eq!(family_name_pairs.len(), 3, "expected 3 theme groups");

    let maybe_name = find_extension_name(theme_names.as_slice());
    let name = maybe_name.expect("we expected to identify a name");
    assert_eq!(name.as_str(), "Rosé Pine", "expected theme name to be detected and trimmed");
}

#[test]
fn distance_based_grouping() {
    let theme_names = vec![
        "tweed".to_string(),
        "tweed-contrast".to_string(),
        "tweed-light".to_string(),
        "tickle".to_string(),
        "tickle-contrast".to_string(),
        "completely-different".to_string(),
    ];

    let family_name_pairs = group_families(theme_names);
    assert_eq!(family_name_pairs.len(), 3, "Expected 3 groups, got {}", family_name_pairs.len());

    let found = family_name_pairs.iter().find(|(maybe_name, _families)| match maybe_name {
        Some(name) => name.contains("tweed"),
        None => false,
    });
    assert!(found.is_some(), "Should have a group containing 'tweed'");
    let (_maybe_name, tweed_group) = found.unwrap();
    assert!(tweed_group.contains(&"tweed-contrast".to_string()));
    assert!(tweed_group.contains(&"tweed-light".to_string()));

    let found = family_name_pairs.iter().find(|(maybe_name, _families)| match maybe_name {
        Some(name) => name.contains("tickle"),
        None => false,
    });
    assert!(found.is_some(), "Should have a group containing 'tickle'");
    let (_maybe_name, tickle_group) = found.unwrap();
    assert!(tickle_group.contains(&"tickle-contrast".to_string()));

    let found = family_name_pairs.iter().find(|(maybe_name, _families)| match maybe_name {
        Some(name) => name.contains("completely-different"),
        None => false,
    });
    let (_maybe_name, and_now) = found.expect("Should have a group containing 'completely-different'");
    assert_eq!(and_now.len(), 1, "Should be in its own group");
}

#[test]
fn extension_name_extraction() {
    let theme_names = rose_pine_names();
    let extname = find_extension_name(theme_names.as_slice()).expect("we should find a name for Rosé Pine");
    assert_eq!(extname, "Rosé Pine", "Rosé Pine really should be called that");
}

#[test]
fn few_names_form_one_unnamed_group() {
    let names = vec!["a".to_string(), "b".to_string(), "c".to_string()];
    let groups = group_families(names.clone());
    assert_eq!(groups, vec![(None, names)]);
}

#[test]
fn extension_name_of_nothing_is_none() {
    assert_eq!(find_extension_name(&[]), None);
}

#[test]
fn short_common_prefix_falls_back_to_first_name() {
    let names = vec!["Abc One".to_string(), "Xyz Two".to_string()];
    assert_eq!(find_extension_name(&names), Some("Abc One".to_string()));
}

#[test]
fn many_unrelated_names_have_no_extension_name() {
    let names: Vec<String> = (0..25).map(|i| format!("{}theme", (b'a' + (i % 26) as u8) as char)).collect();
    assert_eq!(find_extension_name(&names), None);
}

#[test]
fn every_name_lands_in_exactly_one_group() {
    let names = rose_pine_names();
    let groups = group_families(names.clone());
    let mut flattened: Vec<String> = groups.into_iter().flat_map(|(_, g)| g).collect();
    let mut expected = names;
    flattened.sort();
    expected.sort();
    assert_eq!(flattened, expected);
}

#[test]
fn groups_are_sorted_by_first_name() {
    let groups = group_families(rose_pine_names());
    let firsts: Vec<&String> = groups.iter().map(|(_, g)| &g[0]).collect();
    let mut sorted = firsts.clone();
    sorted.sort();
    assert_eq!(firsts, sorted);
    assert_eq!(groups[0].1, vec!["Rosé Pine".to_string(), "Rosé Pine (no italics)".to_string()]);
    assert_eq!(groups[1].1, vec!["Rosé Pine Dawn".to_string(), "Rosé Pine Dawn (no italics)".to_string()]);
    assert_eq!(groups[2].1, vec!["Rosé Pine Moon".to_string(), "Rosé Pine Moon (no italics)".to_string()]);
}

#[test]
fn variants_stay_with_their_own_base() {
    assert!(themes_should_be_grouped("Rosé Pine Moon", "Rosé Pine Moon (no italics)"));
    assert!(!themes_should_be_grouped("Rosé Pine", "Rosé Pine Moon (no italics)"));
    assert!(!themes_should_be_grouped("Rosé Pine (no italics)", "Rosé Pine Dawn (no italics)"));
    assert!(themes_should_be_grouped("Solar (light)", "Solar (high contrast)"));
}

#[test]
fn grouping_the_same_names_gives_the_same_families() {
    let mut names = rose_pine_names();
    names.push("tweed".to_string());
    names.push("tweed-light".to_string());
    assert_eq!(group_families(names.clone()), group_families(names));
}

#[test]
fn belonging_together_is_symmetric() {
    let pairs = [
        ("Rosé Pine", "Rosé Pine (no italics)"),
        ("tweed", "tweed-contrast"),
        ("tweed-light", "tweed-contrast"),
        ("Rosé Pine", "Rosé Pine Moon"),
        ("tickle", "completely-different"),
    ];
    for (a, b) in pairs {
        assert_eq!(themes_should_be_grouped(a, b), themes_should_be_grouped(b, a));
    }
    assert!(themes_should_be_grouped("tweed", "tweed-contrast"));
    assert!(themes_should_be_grouped("tweed-light", "tweed-contrast"));
    assert!(!themes_should_be_grouped("tickle", "completely-different"));
}
