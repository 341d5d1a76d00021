//! Schema definitions for the user-profile search index, and the conversion
//! between the wire record and the document held by the search store.

pub mod decimal;
pub mod helpers;
pub mod proto;
pub mod text;
pub mod timestamp;
