//! A model-railway product catalog: brands, catalog items and the rolling
//! stock they contain, railway companies and modelling scales.
//!
//! Identifiers are slugs of free text; catalog items are identified by their
//! brand and item number alone; lengths carry their unit and convert between
//! units by a fixed table; scale ratios order by the size of the model.
pub mod brands;
pub mod catalog_items;
pub mod contact;
pub mod decimal;
pub mod length;
pub mod measure_units;
pub mod metadata;
pub mod railways;
pub mod scales;
pub mod slug;
pub mod socials;
pub mod text;
