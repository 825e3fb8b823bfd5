pub mod block_filters;
pub mod block_order;
pub mod blocks;
pub mod extract;
pub mod localization;
pub mod mods;
