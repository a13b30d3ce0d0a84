use vstd::prelude::*;

verus! {

/// Why one item of the batch failed. Every failure is local to the item that
/// produced it: it becomes a `Failure` outcome and never stops the rest of
/// the batch.
#[derive(Clone, Copy, Debug, PartialEq, Eq, Structural)]
pub enum HarvestError {
    /// The URL has no usable path segment to name the destination file after.
    MissingPath,
    /// The probe response does not open with a recognized KBART header.
    InvalidFormat,
    /// The input line is not a well-formed absolute URL.
    ParseError,
    /// The transport layer failed: connection, timeout, or HTTP-level error.
    TransportError,
    /// Writing the fetched body to the destination file failed.
    FilesystemError,
}

impl HarvestError {
    /// A human-readable cause, carried by the failure outcome when reported.
    pub fn message(&self) -> (r: &'static str)
        ensures
            r@ == match self {
                HarvestError::MissingPath => (
                "the URL must have a non-empty last path segment to name the file"@),
                HarvestError::InvalidFormat => ("the resource does not have a valid KBART header"@),
                HarvestError::ParseError => ("the input line is not a well-formed URL"@),
                HarvestError::TransportError => ("the transfer failed at the transport layer"@),
                HarvestError::FilesystemError => ("the fetched body could not be written"@),
            },
    {
        match self {
            HarvestError::MissingPath => {
                "the URL must have a non-empty last path segment to name the file"
            },
            HarvestError::InvalidFormat => "the resource does not have a valid KBART header",
            HarvestError::ParseError => "the input line is not a well-formed URL",
            HarvestError::TransportError => "the transfer failed at the transport layer",
            HarvestError::FilesystemError => "the fetched body could not be written",
        }
    }
}

/// The result of one item's processing: created when the item's unit of work
/// finishes, consumed by the aggregator, never persisted.
#[derive(Clone, Copy, Debug, PartialEq, Eq, Structural)]
pub enum Outcome {
    Success,
    Failure(HarvestError),
}

} // verus!
