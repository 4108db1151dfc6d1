pub mod category;
pub mod control;
pub mod length_over_buffer;
pub mod power_method;
pub mod epoch;
pub mod rolling_stock_id;
pub mod service_level;
pub mod tech_specs;
pub mod rolling_stock;
pub mod catalog_item;
pub mod catalog_item_id;
pub mod delivery_date;
pub mod item_number;
