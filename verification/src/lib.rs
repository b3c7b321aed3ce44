//! A client for the GetImg image-generation service, without the network.
//!
//! The library decides everything about a call that can be decided without
//! sending it, and proves what it decides:
//!
//! - [`request`]: the five request shapes and the fields each one sends;
//! - [`client`]: the client, which turns the arguments of an operation into the
//!   one HTTP POST to make;
//! - [`response`]: what the outcome of a call resolves to, an image or an error;
//! - [`utils`] and [`encoding`]: image bytes to base64 text and back;
//! - [`cli`]: the decisions of the command-line front end.
//!
//! Sending the POST, reading files and parsing the command line are left to the
//! program that uses the library.

pub mod cli;
pub mod client;
pub mod encoding;
pub mod request;
pub mod response;
pub mod utils;
