pub mod dispatch;
pub mod json;
pub mod method;
pub mod payload;
