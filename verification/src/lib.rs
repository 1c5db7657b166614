pub mod confirm;
pub mod keys;
pub mod ledger;
pub mod models;
pub mod pipeline;
pub mod submit;
