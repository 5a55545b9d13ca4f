//! Resolution of loosely typed game-modifier descriptions into one
//! mode-aware model, together with the small value types that surround it.

pub mod adapter;
pub mod bridge;
pub mod catalog;
pub mod error;
pub mod foreign;
pub mod format;
pub mod kwargs;
pub mod laws;
pub mod mode;
pub mod mods;
pub mod performance;
pub mod score_state;

pub use error::{ResolveError, ShapeMismatch};
pub use foreign::{
    ForeignMod, ForeignValue, ListElement, Mismatch, ModSource, RawField, RawObject, SettingEntry,
    SettingKey, SettingValue, Shape,
};
pub use format::BoolFormatter;
pub use mode::PyGameMode;
pub use mods::{acronym_text, resolve, PendingMods, PyGameMods, Resolution};
pub use performance::PyHitResultPriority;
pub use score_state::PyScoreState;
