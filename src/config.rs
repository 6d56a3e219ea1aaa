//! Which of the bar's modules are shown, and how the clock is formatted.
use vstd::prelude::*;

verus! {

/// Turns individual bar modules on or off.
#[derive(Debug, Clone, PartialEq, Eq)]
pub struct ModulesConfig {
    pub clock: bool,
    /// The clock's strftime-style format.
    pub clock_format: String,
    pub system_stats: bool,
    pub todo: bool,
}

/// The default clock format: hours, minutes and seconds.
pub open spec fn default_clock_format() -> Seq<char> {
    seq!['%', 'H', ':', '%', 'M', ':', '%', 'S']
}

impl Default for ModulesConfig {
    /// Every module on, with the clock showing `%H:%M:%S`.
    fn default() -> (r: ModulesConfig)
        ensures
            r.clock,
            r.clock_format@ == default_clock_format(),
            r.system_stats,
            r.todo,
    {
        proof { reveal_strlit("%H:%M:%S"); }
        let r = ModulesConfig {
            clock: true,
            clock_format: String::from_str("%H:%M:%S"),
            system_stats: true,
            todo: true,
        };
        assert(r.clock_format@ =~= default_clock_format());
        r
    }
}

} // verus!
