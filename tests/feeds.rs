use rusty_aquarium::csvdata::{input_data_from_records, Record};

fn row(fish: &str, count: u64, size: u64, description: &str) -> Record {
    Record {
        fish: fish.to_string(),
        count,
        size,
        speed: 1000,
        bubbles: 500,
        description: description.to_string(),
    }
}

#[test]
fn rows_expand_into_records() {
    let rows = vec![row("goldfish", 2, 800, "cpu"), row("crab", 0, 1000, "disk"), row("turtle", 1, 300, "memory")];
    let data = input_data_from_records(&rows, Some("servers".to_string()));
    assert_eq!(data.school.len(), 3);
    assert_eq!(data.school[0].fish, "goldfish");
    assert_eq!(data.school[1].fish, "goldfish");
    assert_eq!(data.school[1].size, 800);
    assert_eq!(data.school[2].fish, "turtle");
    assert_eq!(data.school[2].size, 300);
    assert_eq!(data.school[2].bubbles, 500);
    let legend = data.legend.unwrap();
    assert_eq!(legend.description, "servers");
    assert_eq!(legend.fish_legends.len(), 3);
    assert_eq!(legend.fish_legends[1].fish, "crab");
    assert_eq!(legend.fish_legends[1].description, "disk");
}

#[test]
fn no_rows_no_records() {
    let data = input_data_from_records(&vec![], None);
    assert_eq!(data.school.len(), 0);
    let legend = data.legend.unwrap();
    assert_eq!(legend.description, "");
    assert!(legend.fish_legends.is_empty());
}
