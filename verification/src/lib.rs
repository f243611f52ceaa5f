//! Protocol engine for a contactless smart-card reader that speaks a framed,
//! checksummed, sequence-numbered command/response protocol over a byte
//! transport.
//!
//! The crate is organised like the wire protocol itself: [`helpers`] holds the
//! frame codec (byte-stuffing and CRC16), [`reader`] the transaction layer and
//! the transport interface, [`commands`] the typed command encoders and
//! response decoders, [`card`] the card objects they produce, and [`errors`]
//! the error taxonomy.

pub mod card;
pub mod commands;
pub mod errors;
pub mod helpers;
pub mod reader;
