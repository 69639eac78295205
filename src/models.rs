use vstd::prelude::*;

verus! {

/// The body of a failed request: a human-readable message and an error label.
pub struct ResponseError {
    pub message: String,
    pub error: String,
}

/// An uploaded file: its declared type and its base64 contents.
pub struct File {
    pub filetype: String,
    pub contents: String,
}

/// The body of an upload request.
pub struct FileUpload {
    pub file: File,
}

/// The body of a successful upload: the image as binary and as hexadecimal text.
pub struct FileResponse {
    pub binary: String,
    pub hex: String,
}

} // verus!
