//! Resolve, transform and serve favicons for web hosts.

pub mod cors;
pub mod fallback;
pub mod favicon;
pub mod format;
pub mod pixels;
pub mod resolve;
pub mod scrape;
pub mod server;
pub mod text;
pub mod url_text;

use vstd::prelude::*;

verus! {

/// The size, in pixels, of a favicon when none is asked for.
pub const DEFAULT_IMAGE_SIZE: u32 = 256;

/// The encoding of a served favicon when negotiation settles none.
pub const DEFAULT_IMAGE_FORMAT: image::ImageFormat = image::ImageFormat::Jpeg;

/// The encoding of a written favicon when none is asked for.
pub const DEFAULT_FILE_FORMAT: image::ImageFormat = image::ImageFormat::Png;

} // verus!
