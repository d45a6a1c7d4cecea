use vstd::prelude::*;

verus! {

/// Static configuration for a session: the list title, where the roster is
/// read from, the total meeting duration, and whether the countdown gauge
/// is shown. Immutable once the session starts.
#[derive(Debug, Clone)]
pub struct Config {
    pub title: String,
    pub names_file: String,
    /// Total meeting duration, in milliseconds.
    pub duration_ms: u64,
    pub hide_timer: bool,
}

impl Default for Config {
    /// Fifteen-minute meeting, default title, roster read from `team.txt`,
    /// gauge visible.
    fn default() -> (c: Config)
        ensures
            c.title@ == "Team daily standup"@,
            c.names_file@ == "team.txt"@,
            c.duration_ms == 900000,
            c.hide_timer == false,
    {
        Config {
            title: "Team daily standup".to_owned(),
            names_file: "team.txt".to_owned(),
            duration_ms: 15 * 60 * 1000,
            hide_timer: false,
        }
    }
}

} // verus!
