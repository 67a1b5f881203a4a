//! Well-formed markup annotations for a page-description document
//! format: text notes and highlighted regions, built as typed values and
//! compiled down to a generic object graph of dictionaries, arrays and
//! scalars, with a verified key order.

pub mod annotation;
pub mod highlight;
pub mod obj;
pub mod text;
