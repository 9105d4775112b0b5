//! What a session shows, as text: the pages behind the tabs, the lines of a
//! stock table and of the settings table.

use vstd::prelude::*;
use vstd::string::StringExecFns;

use crate::item::{entries, Classification, Entry, StockItem};
use crate::rarity::Rarity;
use crate::shop::{App, Session, Settings, ShopConfiguration, TAB_COUNT};

verus! {

/// The pages that the tabs select, in the order of the tabs.
#[derive(Debug, Clone, Copy, PartialEq, Eq, Structural)]
pub enum Page {
    Scrolls,
    Items,
    Specials,
    Settings,
}

impl Page {
    /// The page behind a tab.
    pub open spec fn of_tab(tab: nat) -> Page {
        if tab % (TAB_COUNT as nat) == 0 {
            Page::Scrolls
        } else if tab % (TAB_COUNT as nat) == 1 {
            Page::Items
        } else if tab % (TAB_COUNT as nat) == 2 {
            Page::Specials
        } else {
            Page::Settings
        }
    }

    /// The title of the page's tab.
    pub open spec fn name(self) -> Seq<char> {
        match self {
            Page::Scrolls => "Scrolls"@,
            Page::Items => "Items"@,
            Page::Specials => "Specials"@,
            Page::Settings => "Settings"@,
        }
    }

    /// The titles of the columns of the page's table. A table of stock tells
    /// name, category, level or rarity, and price; the table of the settings
    /// tells each setting and its value.
    pub open spec fn columns(self) -> Seq<Seq<char>> {
        match self {
            Page::Scrolls => seq!["Name"@, "Category"@, "Level"@, "Price (gp)"@],
            Page::Items => seq!["Name"@, "Category"@, "Rarity"@, "Price (gp)"@],
            Page::Specials => seq!["Name"@, "Category"@, "Level/Rarity"@, "Price (gp)"@],
            Page::Settings => seq!["Setting"@, "Value"@],
        }
    }

    /// What the page says while there is no stock to show.
    pub open spec fn invitation(self) -> Seq<char> {
        match self {
            Page::Scrolls => "Press 'g' to generate a shop and see scroll inventory here."@,
            Page::Items => "Press 'g' to generate a shop and see item inventory here."@,
            Page::Specials => "Press 'g' to generate a shop and see special stock inventory here."@,
            Page::Settings => Seq::empty(),
        }
    }

    /// Returns the page behind a tab.
    pub fn from_tab(tab: usize) -> (page: Page)
        ensures
            page == Page::of_tab(tab as nat),
    {
        let index = tab % TAB_COUNT;
        if index == 0 {
            Page::Scrolls
        } else if index == 1 {
            Page::Items
        } else if index == 2 {
            Page::Specials
        } else {
            Page::Settings
        }
    }

    /// Returns the title of the page's tab.
    pub fn title(self) -> (title: &'static str)
        ensures
            title@ == self.name(),
    {
        match self {
            Page::Scrolls => "Scrolls",
            Page::Items => "Items",
            Page::Specials => "Specials",
            Page::Settings => "Settings",
        }
    }

    /// Returns the titles of the columns of the page's table.
    pub fn column_titles(self) -> (titles: Vec<String>)
        ensures
            texts(titles@) == self.columns(),
    {
        let mut titles: Vec<String> = Vec::new();
        match self {
            Page::Settings => {
                titles.push(String::from_str("Setting"));
                titles.push(String::from_str("Value"));
            },
            _ => {
                titles.push(String::from_str("Name"));
                titles.push(String::from_str("Category"));
                titles.push(
                    String::from_str(
                        match self {
                            Page::Scrolls => "Level",
                            Page::Items => "Rarity",
                            _ => "Level/Rarity",
                        },
                    ),
                );
                titles.push(String::from_str("Price (gp)"));
            },
        }
        titles
    }

    /// Returns what the page says while there is no stock to show. The
    /// settings are always there to show, so their page says nothing.
    pub fn placeholder(self) -> (text: &'static str)
        ensures
            text@ == self.invitation(),
    {
        match self {
            Page::Scrolls => "Press 'g' to generate a shop and see scroll inventory here.",
            Page::Items => "Press 'g' to generate a shop and see item inventory here.",
            Page::Specials => "Press 'g' to generate a shop and see special stock inventory here.",
            Page::Settings => {
                proof {
                    reveal_strlit("");
                }
                ""
            },
        }
    }
}

/// The character that stands for the digit `d`.
pub open spec fn digit_char(d: nat) -> char
    recommends
        d < 10,
{
    ('0' as u8 + d) as char
}

/// The decimal digits of `n`, without leading zeros.
pub open spec fn digits_of(n: nat) -> Seq<char>
    decreases n,
{
    if n < 10 {
        seq![digit_char(n)]
    } else {
        digits_of(n / 10).push(digit_char(n % 10))
    }
}

/// Returns the text of one digit.
fn digit_text(d: usize) -> (text: &'static str)
    requires
        d < 10,
    ensures
        text@ == seq![digit_char(d as nat)],
{
    proof {
        reveal_strlit("0");
        reveal_strlit("1");
        reveal_strlit("2");
        reveal_strlit("3");
        reveal_strlit("4");
        reveal_strlit("5");
        reveal_strlit("6");
        reveal_strlit("7");
        reveal_strlit("8");
        reveal_strlit("9");
    }
    if d == 0 {
        "0"
    } else if d == 1 {
        "1"
    } else if d == 2 {
        "2"
    } else if d == 3 {
        "3"
    } else if d == 4 {
        "4"
    } else if d == 5 {
        "5"
    } else if d == 6 {
        "6"
    } else if d == 7 {
        "7"
    } else if d == 8 {
        "8"
    } else {
        "9"
    }
}

/// Writes a number in decimal digits.
pub fn number_text(n: usize) -> (text: String)
    ensures
        text@ == digits_of(n as nat),
    decreases n,
{
    if n < 10 {
        String::from_str(digit_text(n))
    } else {
        let mut text = number_text(n / 10);
        text.append(digit_text(n % 10));
        text
    }
}

/// One line of a stock table.
#[derive(Debug, PartialEq, Eq)]
pub struct TableRow {
    pub name: String,
    pub category: String,
    /// The level of a scroll in digits, or the name of a graded ware's
    /// rarity; empty for a graded ware without rarity.
    pub grade: String,
    /// The rarity behind `grade`, by which the line may be coloured.
    pub rarity: Option<Rarity>,
    /// The price in digits.
    pub price: String,
}

/// One line of a stock table as plain values.
pub struct Line {
    pub name: Seq<char>,
    pub category: Seq<char>,
    pub grade: Seq<char>,
    pub rarity: Option<Rarity>,
    pub price: Seq<char>,
}

impl View for TableRow {
    type V = Line;

    open spec fn view(&self) -> Line {
        Line {
            name: self.name@,
            category: self.category@,
            grade: self.grade@,
            rarity: self.rarity,
            price: self.price@,
        }
    }
}

/// What the third column says of an entry.
pub open spec fn grade_of(kind: Classification) -> Seq<char> {
    match kind {
        Classification::Scroll { level } => digits_of(level as nat),
        Classification::Graded { rarity: Some(rarity) } => rarity.name(),
        Classification::Graded { rarity: None } => Seq::empty(),
    }
}

/// The line of the stock table that shows an entry.
pub open spec fn line_of(entry: Entry) -> Line {
    Line {
        name: entry.name,
        category: entry.category,
        grade: grade_of(entry.kind),
        rarity: entry.kind.rarity(),
        price: digits_of(entry.price),
    }
}

impl StockItem {
    /// Returns the line of the stock table that shows the ware.
    pub fn table_row(&self) -> (row: TableRow)
        ensures
            row@ == line_of(self@),
    {
        let grade = match self.kind {
            Classification::Scroll { level } => number_text(level),
            Classification::Graded { rarity: Some(rarity) } => String::from_str(rarity.label()),
            Classification::Graded { rarity: None } => String::new(),
        };
        TableRow {
            name: self.name.clone(),
            category: self.category.clone(),
            grade,
            rarity: self.rarity(),
            price: number_text(self.price),
        }
    }
}

/// The values of the settings table, from top to bottom: the number of
/// scrolls, the level ceiling, the number of graded wares, their rarity
/// ceiling, the number of special wares, their rarity ceiling, and where the
/// catalog lies.
pub open spec fn setting_values(settings: Settings) -> Seq<Seq<char>> {
    seq![
        digits_of(settings.max_scrolls as nat),
        digits_of(settings.max_scroll_level as nat),
        digits_of(settings.max_items as nat),
        settings.max_item_rarity.name(),
        digits_of(settings.max_specials as nat),
        settings.max_special_rarity.name(),
        settings.stock_source,
    ]
}

/// The names of the settings, in the order of `setting_values`.
pub open spec fn setting_names() -> Seq<Seq<char>> {
    seq![
        "Max scrolls"@,
        "Max scroll level"@,
        "Max items"@,
        "Max item rarity"@,
        "Max specials"@,
        "Max special rarity"@,
        "Stock source path"@,
    ]
}

/// The texts of a column as plain values.
pub open spec fn texts(column: Seq<String>) -> Seq<Seq<char>> {
    column.map_values(|text: String| text@)
}

impl ShopConfiguration {
    /// Returns the names of the settings, from top to bottom of their table.
    pub fn names() -> (names: Vec<String>)
        ensures
            texts(names@) == setting_names(),
    {
        let mut names: Vec<String> = Vec::new();
        names.push(String::from_str("Max scrolls"));
        names.push(String::from_str("Max scroll level"));
        names.push(String::from_str("Max items"));
        names.push(String::from_str("Max item rarity"));
        names.push(String::from_str("Max specials"));
        names.push(String::from_str("Max special rarity"));
        names.push(String::from_str("Stock source path"));
        names
    }

    /// Returns the values of the settings as text, in the order of `names`.
    pub fn values(&self) -> (values: Vec<String>)
        ensures
            texts(values@) == setting_values(self@),
    {
        let mut values: Vec<String> = Vec::new();
        values.push(number_text(self.max_scrolls));
        values.push(number_text(self.max_scroll_level));
        values.push(number_text(self.max_items));
        values.push(String::from_str(self.max_item_rarity.label()));
        values.push(number_text(self.max_specials));
        values.push(String::from_str(self.max_special_rarity.label()));
        values.push(self.stock_source.clone());
        values
    }
}

/// What the main area of the screen holds.
#[derive(Debug, Clone, Copy, PartialEq, Eq, Structural)]
pub enum Panel {
    /// The table of the settings.
    Settings,
    /// The invitation to generate stock.
    Placeholder,
    /// The table of the stock list that the tab selects.
    Table,
}

impl Session {
    /// The page that the selected tab shows.
    pub open spec fn selected(self) -> Page {
        Page::of_tab(self.tab)
    }

    /// What the main area of the screen holds: the settings on their tab;
    /// on every other tab the invitation while no scroll is in stock, and
    /// else the table of the tab's stock list.
    pub open spec fn panel(self) -> Panel {
        if self.selected() == Page::Settings {
            Panel::Settings
        } else if self.scroll_stock.len() == 0 {
            Panel::Placeholder
        } else {
            Panel::Table
        }
    }

    /// The stock list that the selected tab shows, if it shows one.
    pub open spec fn listed(self) -> Option<Seq<Entry>> {
        match self.selected() {
            Page::Scrolls => Some(self.scroll_stock),
            Page::Items => Some(self.item_stock),
            Page::Specials => Some(self.special_stock),
            Page::Settings => None,
        }
    }
}

impl App {
    /// Returns the page that the selected tab shows.
    pub fn selected(&self) -> (page: Page)
        ensures
            page == self@.selected(),
    {
        Page::from_tab(self.tab())
    }

    /// Returns what the main area of the screen holds.
    pub fn panel(&self) -> (panel: Panel)
        ensures
            panel == self@.panel(),
    {
        match self.selected() {
            Page::Settings => Panel::Settings,
            _ => if self.scroll_stock().len() == 0 {
                Panel::Placeholder
            } else {
                Panel::Table
            },
        }
    }

    /// Returns the stock list that the selected tab shows, and `None` on the
    /// tab of the settings.
    pub fn listed(&self) -> (stock: Option<&Vec<StockItem>>)
        ensures
            match stock {
                Some(stock) => self@.listed() == Some(entries(stock@)),
                None => self@.listed() is None,
            },
    {
        match self.selected() {
            Page::Scrolls => Some(self.scroll_stock()),
            Page::Items => Some(self.item_stock()),
            Page::Specials => Some(self.special_stock()),
            Page::Settings => None,
        }
    }
}

} // verus!
