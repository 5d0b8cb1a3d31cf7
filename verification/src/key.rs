//! Series keys: a user and a direction of traffic.

use vstd::prelude::*;

verus! {

/// The direction of the traffic that a counter measures.
#[derive(Clone, Copy, Debug, PartialEq, Eq, Structural, Hash)]
pub enum Direction {
    Uplink,
    Downlink,
}

impl Direction {
    /// The word that stands for this direction at the end of a stat name.
    pub open spec fn literal(self) -> Seq<char> {
        match self {
            Direction::Uplink => "uplink"@,
            Direction::Downlink => "downlink"@,
        }
    }

    /// The word that stands for this direction at the end of a stat name.
    pub fn as_str(self) -> (word: &'static str)
        ensures
            word@ == self.literal(),
    {
        match self {
            Direction::Uplink => "uplink",
            Direction::Downlink => "downlink",
        }
    }
}

/// The label that tells the series of one counter family apart.
pub const USER_LABEL: &'static str = "user";

impl Direction {
    /// The name of the counter family that exports this direction.
    pub open spec fn metric(self) -> Seq<char> {
        match self {
            Direction::Uplink => "xray_uplink_bytes_total"@,
            Direction::Downlink => "xray_downlink_bytes_total"@,
        }
    }

    /// The name of the counter family that exports this direction.
    pub fn metric_name(self) -> (name: &'static str)
        ensures
            name@ == self.metric(),
    {
        match self {
            Direction::Uplink => "xray_uplink_bytes_total",
            Direction::Downlink => "xray_downlink_bytes_total",
        }
    }

    /// The help text of the counter family that exports this direction.
    pub fn metric_help(self) -> (help: &'static str)
        ensures
            help@ == match self {
                Direction::Uplink => "Xray uplink traffic in bytes"@,
                Direction::Downlink => "Xray downlink traffic in bytes"@,
            },
    {
        match self {
            Direction::Uplink => "Xray uplink traffic in bytes",
            Direction::Downlink => "Xray downlink traffic in bytes",
        }
    }
}

/// What a `ParsedStatKey` stands for: the user's label and the direction.
pub ghost struct KeyView {
    pub user: Seq<char>,
    pub direction: Direction,
}

/// The key of one exported series, as decoded from a stat name.
#[derive(Debug, PartialEq, Eq, Hash)]
pub struct ParsedStatKey {
    pub user: String,
    pub direction: Direction,
}

impl View for ParsedStatKey {
    type V = KeyView;

    open spec fn view(&self) -> KeyView {
        KeyView { user: self.user@, direction: self.direction }
    }
}

impl Clone for ParsedStatKey {
    fn clone(&self) -> (copy: Self)
        ensures
            copy@ == self@,
    {
        ParsedStatKey { user: self.user.clone(), direction: self.direction }
    }
}

} // verus!
