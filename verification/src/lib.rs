//! Query-translation core of a read-only REST gateway in front of a remote
//! ledger: pagination parameters become a validated cursor, failures of the
//! remote call are classified into a small HTTP-facing taxonomy, and a page of
//! results is assembled into a self-consistent envelope.

pub mod adapter;
pub mod envelope;
pub mod failure;
pub mod pagination;
pub mod request;
pub mod state;
pub mod text;
