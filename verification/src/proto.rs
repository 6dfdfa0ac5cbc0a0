pub mod accounting;
pub mod accounting_grpc;
