//! Verified core of a CITA-backed evidence service: request messages,
//! HMAC request signatures, on-chain payload encoding and decoding, and the
//! decisions of the upload, query and transfer flows.

pub mod decimal;
pub mod error;
pub mod hex_text;
pub mod message;
pub mod signature;
pub mod utf8_facts;
pub mod evidence;
pub mod rpc;
pub mod business;
pub mod password;
