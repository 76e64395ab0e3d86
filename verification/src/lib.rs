//! Generates Elm bindings (type declarations, JSON decoders, JSON encoders and
//! query-string encoders) from a structural description of a data type.

pub mod casing;
pub mod decl;
pub mod decode;
pub mod encode;
pub mod ir;
pub mod json;
pub mod laws;
pub mod query;
pub mod registry;
pub mod resolve;
pub mod text;
pub mod wire;

pub use registry::Elm;
pub use registry::ElmDecode;
pub use registry::ElmEncode;
pub use registry::ElmJson;
pub use registry::ElmQuery;
pub use registry::ElmQueryField;
