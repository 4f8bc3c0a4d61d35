//! Keeps the CNAME records of a DNS zone in step with the hostnames that a
//! reverse proxy currently routes.
//!
//! The library holds the rules and does no I/O. Its heart is the
//! reconciliation engine of [`updater`], a state machine that a driver feeds
//! with events and that says which call to make next, and the fixed-window
//! rate limiter of [`rate_limit`]. Around them stand the routers' rules
//! ([`router`]), the providers' requests and answers ([`dns`]) and the
//! settings ([`settings`]).

mod clock;
pub mod dns;
pub mod hosts;
pub mod rate_limit;
pub mod router;
pub mod seqs;
pub mod settings;
pub mod updater;
