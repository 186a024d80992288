//! A safe, verified model of a client-side TLS engine wrapper.
//!
//! The library holds the logic of the wrapper: the per-connection
//! handshake/read/write/shutdown state machine, the translation of the
//! engine's numeric status codes into a closed error taxonomy, the shared
//! configuration captured at connection creation, and the diagnostic error
//! queue. The engine itself (the code that actually performs the TLS
//! protocol) is an external collaborator: every fallible engine step enters
//! the library as a plain value (a return code, an allocation verdict), and
//! the library decides, under contract, what the outcome means and how the
//! connection state moves.

pub mod config;
pub mod conn;
pub mod diag;
pub mod error;

pub use conn::Bio;
pub use conn::Client;
pub use conn::ConnView;
pub use conn::ShutdownStatus;
pub use conn::State;
pub use config::Context;
pub use config::Policy;
pub use config::VerifyMode;
pub use config::TLS1_VERSION;
pub use config::TLS1_1_VERSION;
pub use config::TLS1_2_VERSION;
pub use config::TLS1_3_VERSION;
pub use diag::ErrorQueue;
pub use diag::SslError;
pub use error::Error;
pub use error::classify;
pub use error::resolve;
pub use error::is_clean_end;
pub use error::is_fatal;
pub use error::is_retryable;
