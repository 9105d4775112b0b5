use werlen::{Ceiling, Classification, LoadError, Rarity, StockItem, StockPools};

fn row(fields: [&str; 5]) -> Vec<String> {
    fields.iter().map(|field| field.to_string()).collect()
}

fn graded(name: &str, price: usize, category: &str, rarity: Option<Rarity>) -> StockItem {
    StockItem {
        name: name.to_string(),
        price,
        category: category.to_string(),
        kind: Classification::Graded { rarity },
    }
}

fn scroll(name: &str, price: usize, category: &str, level: usize) -> StockItem {
    StockItem {
        name: name.to_string(),
        price,
        category: category.to_string(),
        kind: Classification::Scroll { level },
    }
}

#[test]
fn from_fields_makes_a_scroll_of_any_level_text() {
    assert_eq!(Classification::from_fields("", "3"), Classification::Scroll { level: 3 });
    assert_eq!(Classification::from_fields("", " 9 "), Classification::Scroll { level: 9 });
    assert_eq!(Classification::from_fields("", "0"), Classification::Scroll { level: 0 });
    assert_eq!(Classification::from_fields("", "third"), Classification::Scroll { level: 0 });
    assert_eq!(Classification::from_fields("", "-1"), Classification::Scroll { level: 0 });
}

#[test]
fn from_fields_drops_the_rarity_of_a_scroll() {
    assert_eq!(Classification::from_fields("Rare", "2"), Classification::Scroll { level: 2 });
}

#[test]
fn from_fields_makes_a_graded_ware_without_level_text() {
    assert_eq!(
        Classification::from_fields("Common", ""),
        Classification::Graded { rarity: Some(Rarity::Common) }
    );
    assert_eq!(
        Classification::from_fields("  very RARE ", "  "),
        Classification::Graded { rarity: Some(Rarity::VeryRare) }
    );
    assert_eq!(
        Classification::from_fields("mythic", ""),
        Classification::Graded { rarity: Some(Rarity::Common) }
    );
    assert_eq!(Classification::from_fields("", ""), Classification::Graded { rarity: None });
    assert_eq!(Classification::from_fields(" \t", " "), Classification::Graded { rarity: None });
}

#[test]
fn is_below_compares_strictly() {
    let second = Classification::Scroll { level: 2 };
    assert!(second.is_below(Ceiling::Level(3)));
    assert!(!second.is_below(Ceiling::Level(2)));
    assert!(!second.is_below(Ceiling::Level(0)));
    let rare = Classification::Graded { rarity: Some(Rarity::Rare) };
    assert!(rare.is_below(Ceiling::Rarity(Rarity::VeryRare)));
    assert!(!rare.is_below(Ceiling::Rarity(Rarity::Rare)));
    assert!(!rare.is_below(Ceiling::Rarity(Rarity::Common)));
    let common = Classification::Graded { rarity: Some(Rarity::Common) };
    assert!(!common.is_below(Ceiling::Rarity(Rarity::Common)));
}

#[test]
fn an_entry_without_the_graded_quantity_is_below_every_ceiling() {
    let plain = Classification::Graded { rarity: None };
    assert!(plain.is_below(Ceiling::Rarity(Rarity::Common)));
    assert!(plain.is_below(Ceiling::Level(0)));
    let second = Classification::Scroll { level: 2 };
    assert!(second.is_below(Ceiling::Rarity(Rarity::Common)));
}

#[test]
fn stock_item_tells_its_kind() {
    let potion = graded("Potion", 50, "Potion", Some(Rarity::Common));
    assert!(!potion.is_scroll());
    assert_eq!(potion.level(), None);
    assert_eq!(potion.rarity(), Some(Rarity::Common));
    assert!(potion.is_below(Ceiling::Rarity(Rarity::Uncommon)));
    let fireball = scroll("Scroll of Fireball", 150, "Scroll", 3);
    assert!(fireball.is_scroll());
    assert_eq!(fireball.level(), Some(3));
    assert_eq!(fireball.rarity(), None);
    assert!(!fireball.is_below(Ceiling::Level(3)));
    assert_eq!(fireball.clone(), fireball);
}

#[test]
fn from_record_reads_a_graded_ware() {
    let item = StockItem::from_record(&row(["Potion of Healing", "50", "Potion", "Common", ""]));
    assert_eq!(item, Some(graded("Potion of Healing", 50, "Potion", Some(Rarity::Common))));
}

#[test]
fn from_record_reads_a_scroll() {
    let item = StockItem::from_record(&row(["Scroll of Fireball", "150", "Scroll", "", "3"]));
    assert_eq!(item, Some(scroll("Scroll of Fireball", 150, "Scroll", 3)));
}

#[test]
fn from_record_trims_and_fills_in_defaults() {
    let item = StockItem::from_record(&row(["  Rope ", " 1gp ", "", " unheard of ", " "]));
    assert_eq!(item, Some(graded("Rope", 0, "", Some(Rarity::Common))));
    let blank = StockItem::from_record(&row(["", "", "", "", ""]));
    assert_eq!(blank, Some(graded("", 0, "", None)));
    let spaced = StockItem::from_record(&row([" Wand ", " 75 ", " Wand ", " RARE ", ""]));
    assert_eq!(spaced, Some(graded("Wand", 75, "Wand", Some(Rarity::Rare))));
}

#[test]
fn from_record_turns_down_rows_that_do_not_have_five_fields() {
    let four: Vec<String> = vec!["a".to_string(), "1".to_string(), "b".to_string(), "".to_string()];
    assert_eq!(StockItem::from_record(&four), None);
    let mut six = row(["a", "1", "b", "", "2"]);
    six.push("extra".to_string());
    assert_eq!(StockItem::from_record(&six), None);
    assert_eq!(StockItem::from_record(&Vec::new()), None);
}

#[test]
fn new_pools_are_empty() {
    let pools = StockPools::new();
    assert!(pools.scrolls().is_empty());
    assert!(pools.items().is_empty());
}

#[test]
fn from_rows_partitions_by_level() {
    let rows = vec![
        Some(row(["Potion of Healing", "50", "Potion", "Common", ""])),
        Some(row(["Scroll of Fireball", "150", "Scroll", "", "3"])),
        Some(row(["Cloak", "500", "Wondrous", "Rare", ""])),
        Some(row(["Scroll of Light", "10", "Scroll", "Common", "0"])),
        Some(row(["Pebble", "", "", "", ""])),
    ];
    let pools = StockPools::from_rows(&rows).unwrap();
    assert_eq!(
        pools.scrolls(),
        &vec![
            scroll("Scroll of Fireball", 150, "Scroll", 3),
            scroll("Scroll of Light", 10, "Scroll", 0),
        ]
    );
    assert_eq!(
        pools.items(),
        &vec![
            graded("Potion of Healing", 50, "Potion", Some(Rarity::Common)),
            graded("Cloak", 500, "Wondrous", Some(Rarity::Rare)),
            graded("Pebble", 0, "", None),
        ]
    );
    assert!(pools.scrolls().iter().all(|item| item.is_scroll()));
    assert!(pools.items().iter().all(|item| !item.is_scroll()));
}

#[test]
fn from_rows_of_nothing_gives_empty_pools() {
    let pools = StockPools::from_rows(&Vec::new()).unwrap();
    assert!(pools.scrolls().is_empty());
    assert!(pools.items().is_empty());
}

#[test]
fn from_rows_reports_the_first_malformed_row() {
    let short: Vec<String> = vec!["Rope".to_string(), "1".to_string()];
    let rows = vec![
        Some(row(["Potion", "50", "Potion", "Common", ""])),
        Some(short.clone()),
        None,
    ];
    assert_eq!(StockPools::from_rows(&rows).unwrap_err(), LoadError::MalformedRow(1));
    let rows = vec![None, Some(short)];
    assert_eq!(StockPools::from_rows(&rows).unwrap_err(), LoadError::MalformedRow(0));
    let rows = vec![
        Some(row(["Potion", "50", "Potion", "Common", ""])),
        Some(row(["Scroll", "5", "Scroll", "", "1"])),
        None,
    ];
    assert_eq!(StockPools::from_rows(&rows).unwrap_err(), LoadError::MalformedRow(2));
}

#[test]
fn read_parses_delimited_text() {
    let data = b"Potion of Healing,50,Potion,Common,\nScroll of Fireball,150,Scroll,,3\n";
    let pools = StockPools::read(data).unwrap();
    assert_eq!(
        pools.items(),
        &vec![graded("Potion of Healing", 50, "Potion", Some(Rarity::Common))]
    );
    assert_eq!(pools.scrolls(), &vec![scroll("Scroll of Fireball", 150, "Scroll", 3)]);
}

#[test]
fn read_takes_the_first_row_as_data() {
    let data = b"name,price,category,rarity,level\nPotion,50,Potion,Common,\n";
    let pools = StockPools::read(data).unwrap();
    assert_eq!(pools.scrolls(), &vec![scroll("name", 0, "category", 0)]);
    assert_eq!(pools.items(), &vec![graded("Potion", 50, "Potion", Some(Rarity::Common))]);
}

#[test]
fn read_understands_quoted_fields() {
    let data = b"\"Bag, of Holding\",\" 4000 \",\"Wondrous \"\"Item\"\"\",Uncommon,\n";
    let pools = StockPools::read(data).unwrap();
    assert_eq!(
        pools.items(),
        &vec![graded("Bag, of Holding", 4000, "Wondrous \"Item\"", Some(Rarity::Uncommon))]
    );
    assert!(pools.scrolls().is_empty());
}

#[test]
fn read_of_nothing_gives_empty_pools() {
    let pools = StockPools::read(b"").unwrap();
    assert!(pools.scrolls().is_empty());
    assert!(pools.items().is_empty());
}

#[test]
fn read_reports_a_row_with_the_wrong_number_of_fields() {
    let data = b"Potion,50,Potion,Common,\nRope,1,Gear\nScroll,5,Scroll,,1\n";
    assert_eq!(StockPools::read(data).unwrap_err(), LoadError::MalformedRow(1));
    let data = b"Potion,50,Potion,Common\n";
    assert_eq!(StockPools::read(data).unwrap_err(), LoadError::MalformedRow(0));
    let data = b"Potion,50,Potion,Common,,\n";
    assert_eq!(StockPools::read(data).unwrap_err(), LoadError::MalformedRow(0));
}

#[test]
fn read_reports_a_row_that_is_not_utf8() {
    let data = b"Potion,50,Potion,Common,\nSc\xffroll,5,Scroll,,1\n";
    assert_eq!(StockPools::read(data).unwrap_err(), LoadError::MalformedRow(1));
}

#[test]
fn read_twice_gives_the_same_pools() {
    let data = b"Potion,50,Potion,Common,\nScroll,5,Scroll,,1\nWand,75,Wand,Rare,\n";
    let first = StockPools::read(data).unwrap();
    let second = StockPools::read(data).unwrap();
    assert_eq!(first.scrolls(), second.scrolls());
    assert_eq!(first.items(), second.items());
}
