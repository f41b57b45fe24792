//! Client-side protocol logic for a text translation web service: request
//! signing, classification of the service's JSON replies, and the catalog of
//! the service's error codes, together with the command-line argument rules
//! and the small text utilities they rest on.

pub mod cli;
pub mod conf;
pub mod extract_help;
pub mod fancy_egg;
pub mod fycore;
pub mod fyerrcodes;
pub mod hex;
pub mod json;
pub mod numeral;
pub mod reply;
pub mod text;
