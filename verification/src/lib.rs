//! Declarative receipt building for thermal printers: components and documents
//! compile to a sequence of printer operations whose shape is verified.

pub mod ir;
pub mod text;
pub mod components;
pub mod markdown;
pub mod document;
pub mod art;
pub mod error;

pub use error::EstrellaError;
