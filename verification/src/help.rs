//! Help topics of the interactive console: each topic knows its label and
//! the argument vector that prints its help text.

use vstd::prelude::*;

verus! {

#[derive(Debug, Clone, Copy, PartialEq, Eq, Structural)]
pub enum HelpTopic {
    General,
    Route,
    Waypoint,
    Search,
    Info,
    Near,
}

impl HelpTopic {
    pub open spec fn s_label(self) -> Seq<char> {
        match self {
            HelpTopic::General => "General"@,
            HelpTopic::Route => "route"@,
            HelpTopic::Waypoint => "waypoint"@,
            HelpTopic::Search => "search"@,
            HelpTopic::Info => "info"@,
            HelpTopic::Near => "near"@,
        }
    }

    /// The topic's display label.
    pub fn label(self) -> (r: &'static str)
        ensures
            r@ == self.s_label(),
    {
        match self {
            HelpTopic::General => "General",
            HelpTopic::Route => "route",
            HelpTopic::Waypoint => "waypoint",
            HelpTopic::Search => "search",
            HelpTopic::Info => "info",
            HelpTopic::Near => "near",
        }
    }

    /// The argument vector that prints this topic's help: the command name
    /// for specific topics, then the help flag.
    pub fn argv(self) -> (r: Vec<String>)
        ensures
            (self is General ==> r@.map_values(|s: String| s@) == seq!["--help"@]),
            (!(self is General) ==> r@.map_values(|s: String| s@) == seq![
                self.s_label(),
                "--help"@,
            ]),
    {
        let mut out: Vec<String> = Vec::new();
        match self {
            HelpTopic::General => {
                out.push(String::from_str("--help"));
                proof {
                    assert(out@.map_values(|s: String| s@) =~= seq!["--help"@]);
                }
            },
            _ => {
                out.push(String::from_str(self.label()));
                out.push(String::from_str("--help"));
                proof {
                    assert(out@.map_values(|s: String| s@) =~= seq![self.s_label(), "--help"@]);
                }
            },
        }
        out
    }
}

} // verus!
