pub mod brand_id;
pub mod brand_status;
pub mod brand_type;
pub mod brand;
