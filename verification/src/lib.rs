//! A verified request dispatcher for a simulated object-store client.
//!
//! A [`Client`] shares one immutable [`Config`]. Each request is one
//! [`Exchange`]: connect, open a channel, send, receive. The exchange decides;
//! the caller performs each [`Action`] on its transport and reports the
//! [`Event`] that came of it. What came back is then turned into the caller's
//! typed result by [`send_request`].

pub mod client;
pub mod config;
pub mod error;
pub mod exchange;
pub mod http;
pub mod laws;
pub mod reply;

pub use client::Client;
pub use config::Config;
pub use error::{ProtocolMismatch, RawResponse, SdkError};
pub use exchange::{Action, Event, Exchange};
pub use reply::{reconstruct, send_request};
