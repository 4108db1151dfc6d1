pub mod railway_gauge;
pub mod railway_id;
pub mod railway_length;
pub mod railway_ownership;
pub mod period_of_activity;
pub mod railway;
