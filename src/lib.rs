//! Image acquisition and wallpaper update pipeline: fetch a random image's
//! metadata, resolve where it is stored, read the download's size header,
//! account for the received bytes, build the command that applies the file,
//! and drive all of it through one refresh cycle at a time.

pub mod apply;
pub mod catalog;
pub mod download;
pub mod error;
pub mod pipeline;
pub mod store;
pub mod text;
