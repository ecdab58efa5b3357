//! The crafting browser: recipes, what can be made of the carried material,
//! the filtered list, the detail card and the older row layout.
pub mod browser;
pub mod details;
pub mod filter;
pub mod quantities;
pub mod queue;
pub mod recipes;
pub mod rows;
pub mod stations;
