//! Byte serving for stored files: which bytes of a file a `Range` request
//! header asks for, and the status and headers of the response that carries
//! them.
//!
//! A request's `Range` header is read into a [`RangeHeader`]. Together with
//! the file's length it decides a [`ResolvedWindow`], and from there the
//! [`ResponseOutcome`]: the whole file, a part of it, or a refusal. Nothing in
//! this crate touches a file: the caller opens it, asks for its length, and
//! streams what the outcome's body names.

pub mod file;
pub mod range;
pub mod response;
pub mod window;

pub use file::PartialFile;
pub use range::PartialFileRange;
pub use range::RangeHeader;
pub use response::Body;
pub use response::ResponseOutcome;
pub use window::ResolvedWindow;
