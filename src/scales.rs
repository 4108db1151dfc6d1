pub mod ratio;
pub mod scale_gauge;
pub mod scale_id;
pub mod standard;
pub mod scale;
