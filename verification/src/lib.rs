pub mod adapters;
pub mod dispatch;
pub mod json;
pub mod provider;
