use vstd::prelude::*;

verus! {

/// Account credentials from the configuration file.
pub struct UserInfo {
    pub username: String,
    pub password: String,
    pub character: String,
}

/// Tunable settings; `buffer_size` is the scrollback capacity of a chat log.
#[derive(PartialEq, Eq, Structural, Clone, Copy, Debug)]
pub struct Settings {
    pub buffer_size: u16,
}

impl Default for Settings {
    /// The settings used when the configuration file names none.
    fn default() -> (r: Settings)
        ensures
            r.buffer_size == 400,
    {
        Settings { buffer_size: 400 }
    }
}

/// Everything read from the configuration file.
pub struct Config {
    pub user_info: UserInfo,
    pub settings: Settings,
}

} // verus!
