use npc_imager::batch::apply_resolutions;
use npc_imager::batch::ascending_order;
use npc_imager::entity::DataEntry;
use npc_imager::resolve::ResolveState;

fn entry(name: &str, level: i32) -> DataEntry {
    DataEntry {
        name: name.to_string(),
        gender: "Unknown".to_string(),
        race: "Beast".to_string(),
        region: "Wild".to_string(),
        combat_level: level,
        release_date: 20010104,
        image: String::new(),
    }
}

fn states() -> Vec<ResolveState> {
    vec![
        ResolveState::Resolved("https://a.invalid/0.png".to_string()),
        ResolveState::Unresolved,
        ResolveState::Resolved("https://a.invalid/2.png".to_string()),
    ]
}

#[test]
fn batch_preserves_order_and_fields() {
    let mut entries = vec![entry("A", 1), entry("B", 2), entry("C", 3)];
    let order = ascending_order(3);
    apply_resolutions(&mut entries, &states(), &order);
    assert_eq!(entries.len(), 3);
    assert_eq!(entries[0].name, "A");
    assert_eq!(entries[1].name, "B");
    assert_eq!(entries[2].name, "C");
    assert_eq!(entries[0].image, "https://a.invalid/0.png");
    assert_eq!(entries[1].image, "");
    assert_eq!(entries[2].image, "https://a.invalid/2.png");
    assert_eq!(entries[1], entry("B", 2));
}

#[test]
fn completion_order_does_not_matter() {
    let mut first = vec![entry("A", 1), entry("B", 2), entry("C", 3)];
    let mut second = vec![entry("A", 1), entry("B", 2), entry("C", 3)];
    apply_resolutions(&mut first, &states(), &vec![0usize, 1, 2]);
    apply_resolutions(&mut second, &states(), &vec![2usize, 0, 1]);
    assert_eq!(first, second);
}

#[test]
fn repeated_positions_in_order_are_harmless() {
    let mut entries = vec![entry("A", 1), entry("B", 2), entry("C", 3)];
    apply_resolutions(&mut entries, &states(), &vec![1usize, 2, 1, 0, 2]);
    assert_eq!(entries[0].image, "https://a.invalid/0.png");
    assert_eq!(entries[1].image, "");
    assert_eq!(entries[2].image, "https://a.invalid/2.png");
}

#[test]
fn ascending_order_lists_every_position() {
    let order = ascending_order(5);
    assert_eq!(order, vec![0usize, 1, 2, 3, 4]);
}
