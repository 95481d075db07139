use vstd::prelude::*;

verus! {

/// The failures of this layer; each is handed to the immediate caller.
#[derive(Debug, Clone, PartialEq)]
pub enum WebDriverError {
    /// A capabilities document is not an object.
    MalformedCapabilities,
    /// A header value cannot be encoded as an HTTP header; carries the value.
    HeaderConstruction(String),
    /// A JSON document does not have the expected shape; carries the cause.
    Deserialization(String),
}

} // verus!
