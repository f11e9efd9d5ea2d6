//! Library for sending e-book files to a Kindle account by driving a browser
//! through the "Send to Kindle" web page.
//!
//! The library holds the decision logic of one upload run: which files are
//! selected from a source path, and how the fixed interaction script against
//! the page advances step by step until a terminal outcome. The browser, the
//! webdriver daemon and the file system are driven by the caller, which feeds
//! each observation back into the [`session::Session`] state machine.

pub mod args;
pub mod selector;
pub mod session;

pub use args::Args;
pub use args::DEFAULT_FILE_TIMEOUT;
pub use selector::Listing;
pub use selector::SelectError;
pub use selector::extension_of;
pub use selector::file_matches;
pub use selector::filter_by_suffix;
pub use selector::select;
pub use selector::suffix_matches;
pub use session::Action;
pub use session::Config;
pub use session::Event;
pub use session::Outcome;
pub use session::Phase;
pub use session::Session;
