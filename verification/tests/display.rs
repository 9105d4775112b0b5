use werlen::display::number_text;
use werlen::{
    App, Classification, Page, Panel, Rarity, ShopConfiguration, StockItem, TableRow,
};

const CATALOG: &[u8] = b"Potion of Healing,50,Potion,Common,\nScroll of Fireball,150,Scroll,,3\n";

fn owned(texts: &[&str]) -> Vec<String> {
    texts.iter().map(|text| text.to_string()).collect()
}

#[test]
fn tabs_select_the_pages_in_order() {
    assert_eq!(Page::from_tab(0), Page::Scrolls);
    assert_eq!(Page::from_tab(1), Page::Items);
    assert_eq!(Page::from_tab(2), Page::Specials);
    assert_eq!(Page::from_tab(3), Page::Settings);
    assert_eq!(Page::from_tab(4), Page::Scrolls);
    assert_eq!(Page::from_tab(usize::MAX), Page::Settings);
}

#[test]
fn pages_have_titles() {
    assert_eq!(Page::Scrolls.title(), "Scrolls");
    assert_eq!(Page::Items.title(), "Items");
    assert_eq!(Page::Specials.title(), "Specials");
    assert_eq!(Page::Settings.title(), "Settings");
}

#[test]
fn pages_have_column_titles() {
    assert_eq!(
        Page::Scrolls.column_titles(),
        owned(&["Name", "Category", "Level", "Price (gp)"])
    );
    assert_eq!(
        Page::Items.column_titles(),
        owned(&["Name", "Category", "Rarity", "Price (gp)"])
    );
    assert_eq!(
        Page::Specials.column_titles(),
        owned(&["Name", "Category", "Level/Rarity", "Price (gp)"])
    );
    assert_eq!(Page::Settings.column_titles(), owned(&["Setting", "Value"]));
}

#[test]
fn pages_of_stock_have_placeholders() {
    assert_eq!(
        Page::Scrolls.placeholder(),
        "Press 'g' to generate a shop and see scroll inventory here."
    );
    assert_eq!(
        Page::Items.placeholder(),
        "Press 'g' to generate a shop and see item inventory here."
    );
    assert_eq!(
        Page::Specials.placeholder(),
        "Press 'g' to generate a shop and see special stock inventory here."
    );
    assert_eq!(Page::Settings.placeholder(), "");
}

#[test]
fn number_text_writes_decimal_digits() {
    assert_eq!(number_text(0), "0");
    assert_eq!(number_text(7), "7");
    assert_eq!(number_text(10), "10");
    assert_eq!(number_text(150), "150");
    assert_eq!(number_text(9090), "9090");
    assert_eq!(number_text(usize::MAX), usize::MAX.to_string());
    for n in 0..2000usize {
        assert_eq!(number_text(n), n.to_string());
        assert_eq!(werlen::text::parse_number(&number_text(n)), n);
    }
}

#[test]
fn table_row_shows_a_scroll_by_its_level() {
    let scroll = StockItem {
        name: "Scroll of Fireball".to_string(),
        price: 150,
        category: "Scroll".to_string(),
        kind: Classification::Scroll { level: 3 },
    };
    assert_eq!(
        scroll.table_row(),
        TableRow {
            name: "Scroll of Fireball".to_string(),
            category: "Scroll".to_string(),
            grade: "3".to_string(),
            rarity: None,
            price: "150".to_string(),
        }
    );
}

#[test]
fn table_row_shows_a_graded_ware_by_its_rarity() {
    let cloak = StockItem {
        name: "Cloak".to_string(),
        price: 5000,
        category: "Wondrous".to_string(),
        kind: Classification::Graded { rarity: Some(Rarity::VeryRare) },
    };
    assert_eq!(
        cloak.table_row(),
        TableRow {
            name: "Cloak".to_string(),
            category: "Wondrous".to_string(),
            grade: "Very Rare".to_string(),
            rarity: Some(Rarity::VeryRare),
            price: "5000".to_string(),
        }
    );
    let pebble = StockItem {
        name: "Pebble".to_string(),
        price: 0,
        category: String::new(),
        kind: Classification::Graded { rarity: None },
    };
    assert_eq!(
        pebble.table_row(),
        TableRow {
            name: "Pebble".to_string(),
            category: String::new(),
            grade: String::new(),
            rarity: None,
            price: "0".to_string(),
        }
    );
}

#[test]
fn settings_are_listed_with_their_values() {
    assert_eq!(
        ShopConfiguration::names(),
        owned(&[
            "Max scrolls",
            "Max scroll level",
            "Max items",
            "Max item rarity",
            "Max specials",
            "Max special rarity",
            "Stock source path",
        ])
    );
    let config = ShopConfiguration::new();
    assert_eq!(
        config.values(),
        owned(&[
            "20",
            "5",
            "10",
            "Uncommon",
            "5",
            "Very Rare",
            r"C:\Users\Jordan\Desktop\code\werlen\stock_source.csv",
        ])
    );
}

#[test]
fn panel_follows_the_tab_and_the_stock() {
    let mut app = App::new();
    assert_eq!(app.selected(), Page::Scrolls);
    assert_eq!(app.panel(), Panel::Placeholder);
    assert_eq!(app.listed(), Some(&Vec::new()));
    app.previous_tab();
    assert_eq!(app.selected(), Page::Settings);
    assert_eq!(app.panel(), Panel::Settings);
    assert_eq!(app.listed(), None);
    assert_eq!(app.update_stock_pools(Some(CATALOG)), Ok(()));
    assert_eq!(app.generate_shop(), Ok(()));
    assert_eq!(app.panel(), Panel::Settings);
    app.next_tab();
    assert_eq!(app.panel(), Panel::Table);
    assert_eq!(app.listed(), Some(app.scroll_stock()));
    assert_eq!(app.listed().unwrap().len(), 20);
    app.next_tab();
    assert_eq!(app.selected(), Page::Items);
    assert_eq!(app.panel(), Panel::Table);
    assert_eq!(app.listed(), Some(app.item_stock()));
    assert_eq!(app.listed().unwrap().len(), 10);
    app.next_tab();
    assert_eq!(app.selected(), Page::Specials);
    assert_eq!(app.panel(), Panel::Table);
    assert_eq!(app.listed(), Some(&Vec::new()));
}

#[test]
fn panel_invites_while_no_scroll_is_in_stock() {
    let mut config = ShopConfiguration::new();
    config.max_scrolls = 0;
    let mut app = App::with_configuration(config);
    assert_eq!(app.update_stock_pools(Some(CATALOG)), Ok(()));
    assert_eq!(app.generate_shop(), Ok(()));
    app.next_tab();
    assert_eq!(app.item_stock().len(), 10);
    assert_eq!(app.panel(), Panel::Placeholder);
}
