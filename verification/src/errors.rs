use vstd::prelude::*;

verus! {

/// Why an outbound operation failed. Both kinds are fatal to the connection
/// at this layer: there is no retry and no partial-frame recovery.
#[derive(Debug)]
pub enum ClientError {
    /// The outbound value could not be converted to wire text; the caller
    /// handed over a malformed payload. Carries the encoder's report.
    SerializationError(String),
    /// A frame could not be written to the transport: the stream is broken
    /// or closed, and must be treated as unusable for further writes.
    WriteError(String),
}

} // verus!
