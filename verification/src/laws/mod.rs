//! What the functions of this library do, said of their arguments and their
//! results alone.
//!
//! A law here takes the arguments and the result of a call, and says what holds
//! of them whenever the function returns. It speaks of single bytes and of
//! plain sequences.

pub mod codes;
pub mod numbers;
pub mod packets;
pub mod values;
pub mod commands;
pub mod requests;
pub mod images;
pub mod point_of_sale;
pub mod assembly;
pub mod attributes;
pub mod direct;
pub mod routing;
pub mod transports;
