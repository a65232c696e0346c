use vstd::prelude::*;
use crate::strutil::{spec_decimal, u16_decimal};
use crate::wire::NotificationType;

verus! {

/// One inbound notification, as the server lists it: sender identity, the
/// type tag, free text, the opaque `details` payload (decoded further only
/// when a structured value is needed), the seen flag and the creation time.
pub struct Notification {
    pub id: String,
    pub sender_user_id: String,
    pub sender_user_name: String,
    pub message_type: NotificationType,
    pub message: String,
    pub details: String,
    pub seen: bool,
    pub created_at: String,
}

/// The mathematical model of a `Notification`.
#[verifier::ext_equal]
pub struct NotificationView {
    pub id: Seq<char>,
    pub sender_user_id: Seq<char>,
    pub sender_user_name: Seq<char>,
    pub message_type: NotificationType,
    pub message: Seq<char>,
    pub details: Seq<char>,
    pub seen: bool,
    pub created_at: Seq<char>,
}

impl View for Notification {
    type V = NotificationView;

    open spec fn view(&self) -> NotificationView {
        NotificationView {
            id: self.id@,
            sender_user_id: self.sender_user_id@,
            sender_user_name: self.sender_user_name@,
            message_type: self.message_type,
            message: self.message@,
            details: self.details@,
            seen: self.seen,
            created_at: self.created_at@,
        }
    }
}

/// The notifications of one list call, in the order the server returned
/// them; they are never re-sorted locally.
pub struct NotificationList {
    pub items: Vec<Notification>,
}

impl View for NotificationList {
    type V = Seq<NotificationView>;

    open spec fn view(&self) -> Seq<NotificationView> {
        self.items@.map_values(|n: Notification| n@)
    }
}

/// What can go wrong with a single request: the connection itself failed,
/// the server answered outside the 2xx range, or the response body did not
/// decode. All three are recoverable; none ends the polling loop.
#[derive(Clone, Copy, PartialEq, Eq, Structural, Debug)]
pub enum RequestError {
    Network,
    HttpStatus(u16),
    Decode,
}

/// The log text of each request error.
pub open spec fn spec_describe(e: RequestError) -> Seq<char> {
    match e {
        RequestError::Network => "network failure"@,
        RequestError::HttpStatus(status) => "http error status "@ + spec_decimal(status as nat),
        RequestError::Decode => "response decode failure"@,
    }
}

impl RequestError {
    /// A short description for log lines.
    pub fn describe(&self) -> (r: String)
        ensures
            r@ == spec_describe(*self),
    {
        match self {
            RequestError::Network => String::from_str("network failure"),
            RequestError::HttpStatus(status) => {
                let mut s = String::from_str("http error status ");
                s.append(u16_decimal(*status).as_str());
                s
            },
            RequestError::Decode => String::from_str("response decode failure"),
        }
    }
}

/// The body of an outbound invite: the invite type tag, the instance id in
/// its composite form as the details payload, and the free-text message.
pub struct OutboundInviteNotification {
    pub message_type: NotificationType,
    pub details: String,
    pub message: String,
}

/// The mathematical model of an `OutboundInviteNotification`.
#[verifier::ext_equal]
pub struct OutboundInviteNotificationView {
    pub message_type: NotificationType,
    pub details: Seq<char>,
    pub message: Seq<char>,
}

impl View for OutboundInviteNotification {
    type V = OutboundInviteNotificationView;

    open spec fn view(&self) -> OutboundInviteNotificationView {
        OutboundInviteNotificationView {
            message_type: self.message_type,
            details: self.details@,
            message: self.message@,
        }
    }
}

} // verus!
