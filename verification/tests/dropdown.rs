use ui::widgets::controls::{dropdown_contents, DropdownContents};

fn opts(items: &[&str]) -> Vec<String> {
    items.iter().map(|s| s.to_string()).collect()
}

fn entries(c: &DropdownContents) -> Vec<&str> {
    c.entries.iter().map(|s| s.as_str()).collect()
}

#[test]
fn default_label_comes_first() {
    let c = dropdown_contents("System Default", &opts(&["Mic A", "Mic B"]), None);
    assert_eq!(entries(&c), vec!["System Default", "Mic A", "Mic B"]);
    assert_eq!(c.selected, 0);
}

#[test]
fn matching_option_is_selected() {
    let c = dropdown_contents("None", &opts(&["Mic A", "Mic B", "Mic C"]), Some("Mic B"));
    assert_eq!(c.selected, 2);
    assert_eq!(c.entries[c.selected as usize], "Mic B");
}

#[test]
fn unknown_current_selects_default() {
    let c = dropdown_contents("Auto", &opts(&["Mic A", "Mic B"]), Some("Mic Z"));
    assert_eq!(c.selected, 0);
    assert_eq!(entries(&c), vec!["Auto", "Mic A", "Mic B"]);
}

#[test]
fn current_equal_to_default_label_only_selects_default() {
    let c = dropdown_contents("Auto", &opts(&["Mic A"]), Some("Auto"));
    assert_eq!(c.selected, 0);
}

#[test]
fn last_of_duplicate_matches_is_selected() {
    let c = dropdown_contents("None", &opts(&["Dup", "Other", "Dup"]), Some("Dup"));
    assert_eq!(c.selected, 3);
}

#[test]
fn empty_options_give_only_default() {
    let c = dropdown_contents("None", &[], Some("anything"));
    assert_eq!(entries(&c), vec!["None"]);
    assert_eq!(c.selected, 0);
}

#[test]
fn first_option_selected_is_index_one() {
    let c = dropdown_contents("System Default", &opts(&["Speakers", "Headset"]), Some("Speakers"));
    assert_eq!(c.selected, 1);
}

#[test]
fn matching_is_exact() {
    let c = dropdown_contents("None", &opts(&["Mic", "mic", "Mic "]), Some("mic"));
    assert_eq!(c.selected, 2);
}
