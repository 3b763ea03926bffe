//! symfetch shows a graphic on the left and the host's information on the
//! right, one line to a row:
//!
//! ```text
//!   ,-~~-.___.      | ada@artemis
//!  / |  '     \     |
//! (  )         0    | OS: linux x86_64
//!  \_/-, ,----'     | Shell: zsh
//!     ====          | Terminal: xterm-256color
//! ```
//!
//! This library is the part that decides and lays out. It reads no file and
//! prints nothing: the program around it hands it what it read and prints what
//! it gets back.
//!
//! - [`config_handler`]: the configuration, an `[ascii]` table that names a
//!   text file or an `[image]` table that names an image and says how to
//!   render it.
//! - [`data`]: the selector, which picks the source of the left column step by
//!   step, and `render`, which gives the lines to print.
//! - [`layout`]: blocks of text, `normalize` and `compose`.
//! - [`backend`]: the calls into the crates that draw an image as text.
//! - [`text`]: lines of characters: width, splitting, trimming, decoding.
//! - [`util`]: resolving `~/.config/` in a configured path.
pub mod backend;
pub mod config_handler;
pub mod data;
pub mod layout;
pub mod text;
pub mod util;
