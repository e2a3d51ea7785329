//! Typed indirect-object references and the textual object syntax of a
//! structured document (dictionaries, arrays, names, references), with a
//! verified serializer: every public operation carries a contract that pins
//! the exact bytes written.

pub mod decimal;
pub mod err;
pub mod escape;
pub mod object;
pub mod primitive;
