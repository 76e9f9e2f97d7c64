//! A registry of persons linked by parent and marriage relations, the family
//! tree derived from those links, and textual exports of both.

pub mod delimiter;
pub mod error;
pub mod extension;
pub mod family;
pub mod graphviz;
pub mod json;
pub mod person;
pub mod registry;
pub mod text;
pub mod tree;
pub mod utils;
