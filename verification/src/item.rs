//! Catalog entries: what a ware is, how it is classified, and how one row of
//! the catalog is read into an entry.

use vstd::prelude::*;

use crate::rarity::Rarity;
use crate::text::{folded, number_or_zero, parse_number, trim, trimmed};

verus! {

/// The two shapes of a catalog entry. An entry that carries a level is a
/// scroll; every other entry is a graded ware, with or without a rarity.
#[derive(Debug, Clone, Copy, PartialEq, Eq, Structural)]
pub enum Classification {
    Scroll { level: usize },
    Graded { rarity: Option<Rarity> },
}

/// An exclusive upper bound on what may enter a shop's stock.
#[derive(Debug, Clone, Copy, PartialEq, Eq, Structural)]
pub enum Ceiling {
    Level(usize),
    Rarity(Rarity),
}

impl Classification {
    /// The level, which only a scroll has.
    pub open spec fn level(self) -> Option<usize> {
        match self {
            Classification::Scroll { level } => Some(level),
            Classification::Graded { .. } => None,
        }
    }

    /// The rarity, which only a graded ware can have.
    pub open spec fn rarity(self) -> Option<Rarity> {
        match self {
            Classification::Scroll { .. } => None,
            Classification::Graded { rarity } => rarity,
        }
    }

    /// Whether an entry so classified lies strictly below `ceiling`. An entry
    /// without the graded quantity lies below every ceiling.
    pub open spec fn below(self, ceiling: Ceiling) -> bool {
        match ceiling {
            Ceiling::Level(max) => match self.level() {
                Some(level) => level < max,
                None => true,
            },
            Ceiling::Rarity(max) => match self.rarity() {
                Some(rarity) => rarity.rank() < max.rank(),
                None => true,
            },
        }
    }

    /// Tells whether an entry so classified lies strictly below `ceiling`.
    pub fn is_below(self, ceiling: Ceiling) -> (b: bool)
        ensures
            b == self.below(ceiling),
    {
        match ceiling {
            Ceiling::Level(max) => match self {
                Classification::Scroll { level } => level < max,
                Classification::Graded { .. } => true,
            },
            Ceiling::Rarity(max) => match self {
                Classification::Graded { rarity: Some(rarity) } => rarity.is_below(max),
                _ => true,
            },
        }
    }
}

/// One ware of the catalog.
#[derive(Debug, PartialEq, Eq)]
pub struct StockItem {
    pub name: String,
    pub price: usize,
    pub category: String,
    pub kind: Classification,
}

/// What a `StockItem` holds, as plain values.
pub struct Entry {
    pub name: Seq<char>,
    pub price: nat,
    pub category: Seq<char>,
    pub kind: Classification,
}

impl View for StockItem {
    type V = Entry;

    open spec fn view(&self) -> Entry {
        Entry {
            name: self.name@,
            price: self.price as nat,
            category: self.category@,
            kind: self.kind,
        }
    }
}

impl Clone for StockItem {
    fn clone(&self) -> (copy: StockItem)
        ensures
            copy == *self,
    {
        StockItem {
            name: self.name.clone(),
            price: self.price,
            category: self.category.clone(),
            kind: self.kind,
        }
    }
}

/// The entries that a sequence of wares holds.
pub open spec fn entries(items: Seq<StockItem>) -> Seq<Entry> {
    items.map_values(|item: StockItem| item@)
}

/// The classification that the rarity and level fields of a row give. A level
/// field that is not blank makes a scroll, whatever the rarity field holds.
pub open spec fn classification_of(
    rarity_text: Seq<char>,
    level_text: Seq<char>,
) -> Classification {
    let level = trimmed(level_text);
    let rarity = trimmed(rarity_text);
    if level.len() > 0 {
        Classification::Scroll { level: number_or_zero(level) as usize }
    } else if rarity.len() > 0 {
        Classification::Graded { rarity: Some(Rarity::named(folded(rarity))) }
    } else {
        Classification::Graded { rarity: None }
    }
}

/// The entry that a row of the catalog gives: name, price, category, rarity
/// and level, in this order. A row of any other length gives none.
pub open spec fn record_entry(fields: Seq<Seq<char>>) -> Option<Entry> {
    if fields.len() == 5 {
        Some(
            Entry {
                name: trimmed(fields[0]),
                price: number_or_zero(trimmed(fields[1])),
                category: trimmed(fields[2]),
                kind: classification_of(fields[3], fields[4]),
            },
        )
    } else {
        None
    }
}

/// The fields of a row as plain values.
pub open spec fn fields_view(fields: Seq<String>) -> Seq<Seq<char>> {
    fields.map_values(|field: String| field@)
}

impl Classification {
    /// Classifies an entry by the rarity and level fields of its row.
    pub fn from_fields(rarity_text: &str, level_text: &str) -> (kind: Classification)
        ensures
            kind == classification_of(rarity_text@, level_text@),
    {
        let level = trim(level_text);
        let rarity = trim(rarity_text);
        if !level.is_empty() {
            Classification::Scroll { level: parse_number(level) }
        } else if !rarity.is_empty() {
            Classification::Graded { rarity: Some(Rarity::from_name(rarity)) }
        } else {
            Classification::Graded { rarity: None }
        }
    }
}

impl StockItem {
    /// Tells whether the ware is a scroll.
    pub fn is_scroll(&self) -> (b: bool)
        ensures
            b == (self.kind is Scroll),
    {
        match self.kind {
            Classification::Scroll { .. } => true,
            Classification::Graded { .. } => false,
        }
    }

    /// Returns the level of a scroll, and `None` for a graded ware.
    pub fn level(&self) -> (level: Option<usize>)
        ensures
            level == self.kind.level(),
    {
        match self.kind {
            Classification::Scroll { level } => Some(level),
            Classification::Graded { .. } => None,
        }
    }

    /// Returns the rarity of a graded ware that has one, else `None`.
    pub fn rarity(&self) -> (rarity: Option<Rarity>)
        ensures
            rarity == self.kind.rarity(),
    {
        match self.kind {
            Classification::Scroll { .. } => None,
            Classification::Graded { rarity } => rarity,
        }
    }

    /// Tells whether the ware lies strictly below `ceiling`.
    pub fn is_below(&self, ceiling: Ceiling) -> (b: bool)
        ensures
            b == self.kind.below(ceiling),
    {
        self.kind.is_below(ceiling)
    }

    /// Reads one row of the catalog. Text fields are trimmed; a price or a
    /// level that spells no number counts as 0; a rarity that names no tier
    /// counts as `Common`. Only a row that does not have five fields is
    /// turned down.
    pub fn from_record(fields: &Vec<String>) -> (item: Option<StockItem>)
        ensures
            match item {
                Some(item) => record_entry(fields_view(fields@)) == Some(item@),
                None => record_entry(fields_view(fields@)) is None,
            },
    {
        if fields.len() != 5 {
            return None;
        }
        let name = trim(fields[0].as_str()).to_owned();
        let price = parse_number(trim(fields[1].as_str()));
        let category = trim(fields[2].as_str()).to_owned();
        let kind = Classification::from_fields(fields[3].as_str(), fields[4].as_str());
        Some(StockItem { name, price, category, kind })
    }
}

} // verus!
