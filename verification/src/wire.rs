use vstd::prelude::*;
use crate::strutil::str_eq;

verus! {

/// The closed set of notification kinds the service knows about.
#[derive(Clone, Copy, PartialEq, Eq, Structural, Debug)]
pub enum NotificationType {
    All,
    Message,
    FriendRequest,
    Invite,
    VoteToKick,
    Help,
    Hidden,
    RequestInvite,
}

/// The pinned wire string of each variant. These are an external contract
/// with the server and are written out one by one rather than derived from
/// the variant names: the spellings are not uniform (`friendRequest` keeps
/// its capital letter) and must match the server exactly.
pub open spec fn spec_wire_string(t: NotificationType) -> Seq<char> {
    match t {
        NotificationType::All => "all"@,
        NotificationType::Message => "message"@,
        NotificationType::FriendRequest => "friendRequest"@,
        NotificationType::Invite => "invite"@,
        NotificationType::VoteToKick => "votetokick"@,
        NotificationType::Help => "help"@,
        NotificationType::Hidden => "hidden"@,
        NotificationType::RequestInvite => "requestinvite"@,
    }
}

/// Decoding a wire string back to a variant. Besides the canonical strings,
/// the two spellings that diverge between close server revisions are both
/// accepted (`friendrequest` beside `friendRequest`, `invitemessage` beside
/// `invite`).
pub open spec fn spec_from_wire(s: Seq<char>) -> Option<NotificationType> {
    if s == "all"@ {
        Option::Some(NotificationType::All)
    } else if s == "message"@ {
        Option::Some(NotificationType::Message)
    } else if s == "friendRequest"@ || s == "friendrequest"@ {
        Option::Some(NotificationType::FriendRequest)
    } else if s == "invite"@ || s == "invitemessage"@ {
        Option::Some(NotificationType::Invite)
    } else if s == "votetokick"@ {
        Option::Some(NotificationType::VoteToKick)
    } else if s == "help"@ {
        Option::Some(NotificationType::Help)
    } else if s == "hidden"@ {
        Option::Some(NotificationType::Hidden)
    } else if s == "requestinvite"@ {
        Option::Some(NotificationType::RequestInvite)
    } else {
        Option::None
    }
}

impl NotificationType {
    /// The wire string of this variant, as sent in filter values and bodies.
    pub fn wire_string(&self) -> (r: String)
        ensures
            r@ == spec_wire_string(*self),
    {
        match self {
            NotificationType::All => String::from_str("all"),
            NotificationType::Message => String::from_str("message"),
            NotificationType::FriendRequest => String::from_str("friendRequest"),
            NotificationType::Invite => String::from_str("invite"),
            NotificationType::VoteToKick => String::from_str("votetokick"),
            NotificationType::Help => String::from_str("help"),
            NotificationType::Hidden => String::from_str("hidden"),
            NotificationType::RequestInvite => String::from_str("requestinvite"),
        }
    }

    /// Decode a wire string; `Option::None` for anything outside the table.
    pub fn from_wire(s: &str) -> (r: Option<NotificationType>)
        ensures
            r == spec_from_wire(s@),
    {
        if str_eq(s, "all") {
            Some(NotificationType::All)
        } else if str_eq(s, "message") {
            Some(NotificationType::Message)
        } else if str_eq(s, "friendRequest") || str_eq(s, "friendrequest") {
            Some(NotificationType::FriendRequest)
        } else if str_eq(s, "invite") || str_eq(s, "invitemessage") {
            Some(NotificationType::Invite)
        } else if str_eq(s, "votetokick") {
            Some(NotificationType::VoteToKick)
        } else if str_eq(s, "help") {
            Some(NotificationType::Help)
        } else if str_eq(s, "hidden") {
            Some(NotificationType::Hidden)
        } else if str_eq(s, "requestinvite") {
            Some(NotificationType::RequestInvite)
        } else {
            None
        }
    }
}

/// Round trip: decoding a variant's own wire string yields the variant back,
/// for every variant of the closed set.
pub proof fn lemma_wire_round_trip(t: NotificationType)
    ensures
        spec_from_wire(spec_wire_string(t)) == Option::Some(t),
{
    reveal_strlit("all");
    reveal_strlit("message");
    reveal_strlit("friendRequest");
    reveal_strlit("friendrequest");
    reveal_strlit("invite");
    reveal_strlit("invitemessage");
    reveal_strlit("votetokick");
    reveal_strlit("help");
    reveal_strlit("hidden");
    reveal_strlit("requestinvite");
    assert("all"@.len() == 3);
    assert("message"@.len() == 7);
    assert("friendRequest"@.len() == 13);
    assert("friendrequest"@.len() == 13);
    assert("invite"@.len() == 6);
    assert("invitemessage"@.len() == 13);
    assert("votetokick"@.len() == 10);
    assert("help"@.len() == 4);
    assert("hidden"@.len() == 6);
    assert("requestinvite"@.len() == 13);
    assert("invite"@[0] == 'i');
    assert("hidden"@[0] == 'h');
    assert("friendRequest"@[0] == 'f');
    assert("friendrequest"@[0] == 'f');
    assert("invitemessage"@[0] == 'i');
    assert("requestinvite"@[0] == 'r');
    match t {
        NotificationType::All => {
            assert(spec_from_wire("all"@) == Option::Some(NotificationType::All));
        },
        NotificationType::Message => {
            assert(spec_from_wire("message"@) == Option::Some(NotificationType::Message));
        },
        NotificationType::FriendRequest => {
            assert(spec_from_wire("friendRequest"@) == Option::Some(
                NotificationType::FriendRequest,
            ));
        },
        NotificationType::Invite => {
            assert(spec_from_wire("invite"@) == Option::Some(NotificationType::Invite));
        },
        NotificationType::VoteToKick => {
            assert(spec_from_wire("votetokick"@) == Option::Some(NotificationType::VoteToKick));
        },
        NotificationType::Help => {
            assert(spec_from_wire("help"@) == Option::Some(NotificationType::Help));
        },
        NotificationType::Hidden => {
            assert(spec_from_wire("hidden"@) == Option::Some(NotificationType::Hidden));
        },
        NotificationType::RequestInvite => {
            assert(spec_from_wire("requestinvite"@) == Option::Some(
                NotificationType::RequestInvite,
            ));
        },
    }
}

} // verus!
