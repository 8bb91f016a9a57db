//! Command layer of a desktop translation client.
//!
//! The crate holds the two pieces of logic that sit behind the client's
//! commands: a keyed store of credentials, and the rules by which a call to
//! one of three translation providers is turned into an HTTP request and its
//! outcome into the command's result. Nothing here touches the network; the
//! host sends what `request` prepares and hands what came back to `outcome`.

pub mod credentials;
pub mod greeting;
pub mod method;
pub mod outcome;
pub mod provider;
pub mod request;
pub mod text;
