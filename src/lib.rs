//! A blocking writer whose bytes are streamed to an HTTP endpoint as one
//! chunked PUT request, with the decisions of the upload verified.
pub mod error;
pub mod pipe;
pub mod progress;
pub mod session;

pub use error::UploadError;
pub use pipe::{ChannelReader, ChannelWriter};
pub use progress::ProgressReader;
pub use session::UploadSession;
