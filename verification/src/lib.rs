//! An in-process publish/subscribe core: broadcast topics with bounded
//! history, a cooperative shutdown signal, a uniform actor lifecycle, the
//! paginated-fetch / fan-out ingestion pattern, and the supervisor that
//! drives every actor to completion before the process exits.

pub mod altdata;
pub mod bus;
pub mod clock;
pub mod config;
pub mod execution;
pub mod finjuice;
pub mod ingest;
pub mod lifecycle;
pub mod marketdata;
pub mod messages;
pub mod rss;
pub mod shutdown;
pub mod supervisor;
pub mod text;
