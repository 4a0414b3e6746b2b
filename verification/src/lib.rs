//! Core of a token-pool HTTP proxy: a bounded pool of bearer credentials with
//! exclusive FIFO checkout, login-response handling for the upstream's two
//! response shapes, the refresher's decision rules, and the per-connection
//! handler state machine. The surrounding process (network I/O, clocks,
//! scheduling) drives these functions and is kept outside the library.

pub mod config;
pub mod error;
pub mod health;
pub mod proxy;
pub mod telemetry;
pub mod text;
pub mod token_acquirer;
pub mod token_pool;
pub mod token_refresher;

pub use config::Config;
pub use error::TppError;
pub use proxy::TokenPoolProxy;
pub use token_pool::TokenPool;
