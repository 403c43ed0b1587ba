//! The operations of the client, each as the sequence of calls that it makes.

pub mod decryption;
pub mod encryption;
pub mod general_purpose;
pub mod key_management;
pub mod object_management;
pub mod session_management;
pub mod signing_macing;
pub mod slot_token_management;
pub mod variable_output;
