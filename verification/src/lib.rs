pub mod client;
pub mod db;
pub mod error;
pub mod laws;
pub mod ledger;
pub mod proto;
pub mod service;
pub mod session;
pub mod store;

pub use crate::service::GrpcAccountingService;
pub use crate::store::DataStore;
