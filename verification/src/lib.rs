//! Typed model of Legends of Runeterra card data: the card-code codec, the
//! closed enumerations with their catch-all variants, and the builder that
//! turns raw data-set records into cards.

pub mod card;
pub mod card_code;
pub mod card_type;
pub mod collection;
pub mod db;
pub mod decimal;
pub mod error;
pub mod keyword;
pub mod keyword_type;
pub mod rarity;
pub mod region;
pub mod region_code;
pub mod spell_speed;
pub mod subtype;
pub mod supertype;
pub mod text;

pub use crate::card::{Asset, Card};
pub use crate::card_code::CardCode;
pub use crate::card_type::Type;
pub use crate::collection::Collection;
pub use crate::error::Error;
pub use crate::keyword::Keyword;
pub use crate::keyword_type::KeywordType;
pub use crate::rarity::Rarity;
pub use crate::region::Region;
pub use crate::spell_speed::SpellSpeed;
pub use crate::subtype::Subtype;
pub use crate::supertype::Supertype;
