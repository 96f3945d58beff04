//! Pretty-printed JSON bodies for `reqwest` request builders.
//!
//! `reqwest`'s builders attach a JSON body in the terse one-line encoding.
//! The [`PrettyJson`] trait adds `pretty_json`, which attaches the indented
//! encoding instead and leaves the `Content-Type` header as the terse path
//! sets it. When the indented encoding cannot be produced, the terse body
//! stays in place and no error is reported.
//!
//! ```no_run
//! use reqwest_pretty_json::PrettyJson;
//!
//! let data = vec![1, 2, 3];
//! let client = reqwest::Client::new();
//! let request = client
//!     .post("http://httpbin.org/post")
//!     .pretty_json(&data)
//!     .build();
//! ```
//!
//! The contracts speak of a builder through the request it holds, see
//! [`request::RequestView`]. `pretty_json` asks that the headers have room
//! for one more name; `try_pretty_json` asks nothing and looks first.

pub mod encode;
pub mod pretty;
pub mod request;

pub use pretty::PrettyJson;
