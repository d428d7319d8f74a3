//! Serving HLS files over HTTP: the path-resolution and response-status
//! rules that the server applies to each request.
//!
//! A request names a tail path under the fixed `hls` base directory.
//! This crate decides whether the tail is acceptable, resolves it to a
//! file path under the base directory, and maps each request outcome to
//! an HTTP status code. The HTTP transport and the filesystem reads live
//! outside the library.

pub mod paths;
pub mod response;

use vstd::prelude::*;

verus! {

/// The bytes of the base directory prefix `./hls/` that every resolved
/// path begins with.
pub open spec fn base_dir() -> Seq<u8> {
    seq![46u8, 47u8, 104u8, 108u8, 115u8, 47u8]
}

} // verus!
