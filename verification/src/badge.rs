//! The connection badge of the dashboard: what it says for each state of the
//! streaming connection.

use vstd::prelude::*;

verus! {

/// The states of a streaming connection as a browser reports them.
#[derive(Clone, Copy, Debug, PartialEq, Eq, Structural)]
pub enum Link {
    Connecting,
    Open,
    Closing,
    Closed,
}

/// The three faces of the badge.
#[derive(Clone, Copy, Debug, PartialEq, Eq, Structural)]
pub enum Badge {
    Online,
    Offline,
    Connecting,
}

impl Badge {
    /// The badge for a connection: online while it is open, offline once it
    /// has closed, and connecting in between, on the way up as on the way
    /// down.
    pub open spec fn of(link: Link) -> Badge {
        match link {
            Link::Open => Badge::Online,
            Link::Closed => Badge::Offline,
            Link::Connecting => Badge::Connecting,
            Link::Closing => Badge::Connecting,
        }
    }

    /// The words on the badge.
    pub open spec fn label_text(self) -> Seq<char> {
        match self {
            Badge::Online => "Online"@,
            Badge::Offline => "Offline"@,
            Badge::Connecting => "Connecting..."@,
        }
    }

    /// The style classes of the badge.
    pub open spec fn class_text(self) -> Seq<char> {
        match self {
            Badge::Online => "badge badge-success gap-2"@,
            Badge::Offline => "badge badge-error gap-2"@,
            Badge::Connecting => "badge badge-warning gap-2"@,
        }
    }

    /// The badge for a connection in the given state.
    pub fn for_link(link: Link) -> (r: Badge)
        ensures
            r == Badge::of(link),
    {
        match link {
            Link::Open => Badge::Online,
            Link::Closed => Badge::Offline,
            Link::Connecting => Badge::Connecting,
            Link::Closing => Badge::Connecting,
        }
    }

    /// The words on the badge.
    pub fn label(self) -> (r: &'static str)
        ensures
            r@ == self.label_text(),
    {
        match self {
            Badge::Online => "Online",
            Badge::Offline => "Offline",
            Badge::Connecting => "Connecting...",
        }
    }

    /// The style classes of the badge.
    pub fn class(self) -> (r: &'static str)
        ensures
            r@ == self.class_text(),
    {
        match self {
            Badge::Online => "badge badge-success gap-2",
            Badge::Offline => "badge badge-error gap-2",
            Badge::Connecting => "badge badge-warning gap-2",
        }
    }
}

} // verus!
