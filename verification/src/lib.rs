//! Stock generation for a tabletop shop: a catalog of candidate wares is read
//! into two pools, and a shop's stock is drawn from them at random under
//! configured rarity and level ceilings.

pub mod display;
pub mod generator;
pub mod item;
pub mod loader;
pub mod rarity;
pub mod shop;
pub mod text;

pub use display::{Page, Panel, TableRow};
pub use generator::GenerationError;
pub use item::{Ceiling, Classification, StockItem};
pub use loader::{LoadError, StockPools};
pub use rarity::Rarity;
pub use shop::{App, Command, Key, Phase, ShopConfiguration};
