//! # gifterm
//!
//! Play GIF animations in kitty-protocol terminals: the verified core.
//!
//! The library decodes GIF frames and scales them, names the entries of the
//! frame cache, decides each step of loading (from the cache or by
//! decoding), and builds the escape sequences of the
//! [kitty graphics protocol](https://sw.kovidgoyal.net/kitty/graphics-protocol/).
//! The program around it reads and writes the files and the terminal.
//!
//! - [`protocol`]: graphics commands, including the file transfer.
//! - [`playback`]: the commands of one animation, and its image id.
//! - [`decode`]: GIF frames, their delays and their scaling.
//! - [`cache`]: the cache key, directory and file names.
//! - [`load`]: the steps of loading frames.
//! - [`terminal`]: terminal detection and yes/no answers.
//! - [`style`]: the status lines of the CLI.
//! - [`text`]: decimal and hex notation.
use vstd::prelude::*;

pub mod cache;
pub mod decode;
pub mod error;
pub mod load;
pub mod playback;
pub mod protocol;
pub mod style;
pub mod terminal;
pub mod text;

pub use cache::cache_key;
pub use decode::{Meta, RawFrame};
pub use error::Error;
pub use load::load_frames;
pub use playback::unique_image_id;
pub use protocol::gr_cmd;
