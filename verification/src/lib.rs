//! A minimal client library for OAuth2 application-credential operations
//! against the Twitch identity provider: obtaining an app access token via
//! the client-credentials grant, validating a token, and revoking one.
//!
//! The library builds the three HTTP requests and interprets the three HTTP
//! responses as plain values; performing the network transfer is left to the
//! caller.

pub mod json;
pub mod request;
pub mod response;
pub mod types;
