use vstd::prelude::*;

verus! {

/// Seconds granted to each file before the upload wait gives up.
pub const DEFAULT_FILE_TIMEOUT: usize = 60;

/// Parameters of one upload run: the account credentials, the source of the
/// files, the extension filter, the per-file timeout and the mode switches.
#[derive(Debug)]
pub struct Args {
    /// Username of the account connected to the Kindle app or device.
    pub username: String,
    /// Password of the account.
    pub password: String,
    /// A single file to send. Ignored if a directory is also given.
    pub file: String,
    /// A directory whose entries are sent.
    pub directory: String,
    /// Only files with this extension are sent; empty means no filter.
    pub extension: String,
    /// Seconds to wait per file before giving up on the upload.
    pub file_timeout: usize,
    /// Whether this run spawns the webdriver daemon itself.
    pub geckodriver_daemon: bool,
    /// Debugging mode: visible browser, no send, wait for operator input.
    pub debugging_mode: bool,
    /// The "Send to Kindle" page to drive.
    pub amazon_url: String,
}

impl Default for Args {
    /// Empty credentials and paths, a 60 second per-file timeout, a spawned
    /// daemon, no debugging, and the standard page address.
    fn default() -> (a: Args)
        ensures
            a.username@ == Seq::<char>::empty(),
            a.password@ == Seq::<char>::empty(),
            a.file@ == Seq::<char>::empty(),
            a.directory@ == Seq::<char>::empty(),
            a.extension@ == Seq::<char>::empty(),
            a.file_timeout == DEFAULT_FILE_TIMEOUT,
            a.geckodriver_daemon,
            !a.debugging_mode,
            a.amazon_url@ == "https://www.amazon.com/sendtokindle"@,
    {
        proof {
            reveal_strlit("");
        }
        Args {
            username: String::from_str(""),
            password: String::from_str(""),
            file: String::from_str(""),
            directory: String::from_str(""),
            extension: String::from_str(""),
            file_timeout: DEFAULT_FILE_TIMEOUT,
            geckodriver_daemon: true,
            debugging_mode: false,
            amazon_url: String::from_str("https://www.amazon.com/sendtokindle"),
        }
    }
}

impl Args {
    /// Arguments for the given username and password, every other field at
    /// its default.
    pub fn new(u: &str, p: &str) -> (a: Args)
        ensures
            a.username@ == u@,
            a.password@ == p@,
            a.file@ == Seq::<char>::empty(),
            a.directory@ == Seq::<char>::empty(),
            a.extension@ == Seq::<char>::empty(),
            a.file_timeout == DEFAULT_FILE_TIMEOUT,
            a.geckodriver_daemon,
            !a.debugging_mode,
            a.amazon_url@ == "https://www.amazon.com/sendtokindle"@,
    {
        let mut args = Args::default();
        args.username = String::from_str(u);
        args.password = String::from_str(p);
        args
    }
}

} // verus!
