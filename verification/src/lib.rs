//! Protocol logic for barcode scanners that speak SNAPI or the HID point of
//! sale class: framing, decoding, reassembly and the order of an exchange.
//!
//! Nothing here talks to a device. Every function takes the bytes that were
//! received and answers with the value they stand for, or with the bytes that
//! have to be written next.

pub mod laws;
pub mod scanner;
pub mod text;
pub mod transports;
pub mod wire;
