//! Verified core of the Melt Desktop compositor: focus and stacking policy,
//! workspaces, mnemonic key mode, decoration geometry, theme colour parsing
//! and configuration defaults.

pub mod animations;
pub mod config;
pub mod decorations;
pub mod focus;
pub mod geometry;
pub mod input;
pub mod mnemonics;
pub mod stacking;
pub mod text;
pub mod theme;
pub mod workspaces;
