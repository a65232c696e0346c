use vstd::prelude::*;
use crate::instance::{spec_composite, InstanceId, InstanceIdView};
use crate::model::{
    Notification, NotificationList, OutboundInviteNotification, OutboundInviteNotificationView,
};
use crate::wire::{spec_wire_string, NotificationType};

verus! {

/// Empty-bodied marker payload of the accept call; the endpoint path alone
/// tells it apart from the hide call.
pub struct AcceptFriendRequest {}

/// Empty-bodied marker payload of the hide call.
pub struct HideNotification {}

/// HTTP verb of a request.
#[derive(Clone, Copy, PartialEq, Eq, Structural, Debug)]
pub enum Verb {
    Get,
    Put,
    Post,
}

/// Body of a request: nothing (GET), the empty JSON object (accept/hide),
/// or an outbound invite notification.
pub enum RequestBody {
    Empty,
    EmptyObject,
    Invite(OutboundInviteNotification),
}

/// The mathematical model of a `RequestBody`.
#[verifier::ext_equal]
pub enum RequestBodyView {
    Empty,
    EmptyObject,
    Invite(OutboundInviteNotificationView),
}

impl View for RequestBody {
    type V = RequestBodyView;

    open spec fn view(&self) -> RequestBodyView {
        match self {
            RequestBody::Empty => RequestBodyView::Empty,
            RequestBody::EmptyObject => RequestBodyView::EmptyObject,
            RequestBody::Invite(n) => RequestBodyView::Invite(n@),
        }
    }
}

/// One fully described HTTP request: verb, path, at most one query
/// parameter, and the body.
pub struct HttpRequest {
    pub verb: Verb,
    pub path: String,
    pub query: Option<(String, String)>,
    pub body: RequestBody,
}

/// The mathematical model of an `HttpRequest`.
#[verifier::ext_equal]
pub struct HttpRequestView {
    pub verb: Verb,
    pub path: Seq<char>,
    pub query: Option<(Seq<char>, Seq<char>)>,
    pub body: RequestBodyView,
}

impl View for HttpRequest {
    type V = HttpRequestView;

    open spec fn view(&self) -> HttpRequestView {
        HttpRequestView {
            verb: self.verb,
            path: self.path@,
            query: match self.query {
                Option::Some((k, v)) => Option::Some((k@, v@)),
                Option::None => Option::None,
            },
            body: self.body@,
        }
    }
}

/// Path of the notification list endpoint.
pub open spec fn spec_list_path() -> Seq<char> {
    "/api/1/auth/user/notifications"@
}

/// Path of the send-notification endpoint for one target user.
pub open spec fn spec_notification_path(target_user_id: Seq<char>) -> Seq<char> {
    "/api/1/auth/user/"@ + target_user_id + "/notification"@
}

/// Path of the accept call for one notification.
pub open spec fn spec_accept_path(notification_id: Seq<char>) -> Seq<char> {
    "/api/1/auth/user/notifications/"@ + notification_id + "/accept"@
}

/// Path of the hide call for one notification.
pub open spec fn spec_hide_path(notification_id: Seq<char>) -> Seq<char> {
    "/api/1/auth/user/notifications/"@ + notification_id + "/hide"@
}

impl NotificationList {
    /// The wire path that lists notifications.
    pub fn get_path() -> (r: String)
        ensures
            r@ == spec_list_path(),
    {
        String::from_str("/api/1/auth/user/notifications")
    }
}

impl Notification {
    /// The wire path that sends a notification to `target_user_id`.
    pub fn get_path(target_user_id: &str) -> (r: String)
        ensures
            r@ == spec_notification_path(target_user_id@),
    {
        let mut s = String::from_str("/api/1/auth/user/");
        s.append(target_user_id);
        s.append("/notification");
        s
    }
}

impl AcceptFriendRequest {
    /// The wire path that accepts the friend request behind `notification_id`.
    pub fn get_path(notification_id: &str) -> (r: String)
        ensures
            r@ == spec_accept_path(notification_id@),
    {
        let mut s = String::from_str("/api/1/auth/user/notifications/");
        s.append(notification_id);
        s.append("/accept");
        s
    }
}

impl HideNotification {
    /// The wire path that hides `notification_id`.
    pub fn get_path(notification_id: &str) -> (r: String)
        ensures
            r@ == spec_hide_path(notification_id@),
    {
        let mut s = String::from_str("/api/1/auth/user/notifications/");
        s.append(notification_id);
        s.append("/hide");
        s
    }
}

/// Query parameter of a list call: none for `All`, exactly one
/// `type=<wire string>` for every other filter.
pub open spec fn spec_filter_query(filter: NotificationType) -> Option<(Seq<char>, Seq<char>)> {
    if filter == NotificationType::All {
        Option::None
    } else {
        Option::Some(("type"@, spec_wire_string(filter)))
    }
}

/// The list request for one filter.
pub open spec fn spec_list_request(filter: NotificationType) -> HttpRequestView {
    HttpRequestView {
        verb: Verb::Get,
        path: spec_list_path(),
        query: spec_filter_query(filter),
        body: RequestBodyView::Empty,
    }
}

/// The accept request for one notification id.
pub open spec fn spec_accept_request(notification_id: Seq<char>) -> HttpRequestView {
    HttpRequestView {
        verb: Verb::Put,
        path: spec_accept_path(notification_id),
        query: Option::None,
        body: RequestBodyView::EmptyObject,
    }
}

/// The hide request for one notification id.
pub open spec fn spec_hide_request(notification_id: Seq<char>) -> HttpRequestView {
    HttpRequestView {
        verb: Verb::Put,
        path: spec_hide_path(notification_id),
        query: Option::None,
        body: RequestBodyView::EmptyObject,
    }
}

/// The invite request for one target user: a POST whose body carries the
/// invite type tag, the instance id in composite form, and the message.
pub open spec fn spec_invite_request(
    target_user_id: Seq<char>,
    inst: InstanceIdView,
    message: Seq<char>,
) -> HttpRequestView {
    HttpRequestView {
        verb: Verb::Post,
        path: spec_notification_path(target_user_id),
        query: Option::None,
        body: RequestBodyView::Invite(
            OutboundInviteNotificationView {
                message_type: NotificationType::Invite,
                details: spec_composite(inst),
                message: message,
            },
        ),
    }
}

/// Build the list request; `All` carries no query parameter, every other
/// filter exactly one.
pub fn list_request(filter: NotificationType) -> (r: HttpRequest)
    ensures
        r@ == spec_list_request(filter),
{
    let query = match filter {
        NotificationType::All => None,
        _ => Some((String::from_str("type"), filter.wire_string())),
    };
    HttpRequest { verb: Verb::Get, path: NotificationList::get_path(), query, body: RequestBody::Empty }
}

/// Build the accept request for one notification id.
pub fn accept_request(notification_id: &str) -> (r: HttpRequest)
    ensures
        r@ == spec_accept_request(notification_id@),
{
    HttpRequest {
        verb: Verb::Put,
        path: AcceptFriendRequest::get_path(notification_id),
        query: None,
        body: RequestBody::EmptyObject,
    }
}

/// Build the hide request for one notification id.
pub fn hide_request(notification_id: &str) -> (r: HttpRequest)
    ensures
        r@ == spec_hide_request(notification_id@),
{
    HttpRequest {
        verb: Verb::Put,
        path: HideNotification::get_path(notification_id),
        query: None,
        body: RequestBody::EmptyObject,
    }
}

/// Build the invite request for one target user.
pub fn invite_request(target_user_id: &str, inst: &InstanceId, message: &str) -> (r: HttpRequest)
    ensures
        r@ == spec_invite_request(target_user_id@, inst@, message@),
{
    HttpRequest {
        verb: Verb::Post,
        path: Notification::get_path(target_user_id),
        query: None,
        body: RequestBody::Invite(
            OutboundInviteNotification {
                message_type: NotificationType::Invite,
                details: inst.composite(),
                message: message.to_owned(),
            },
        ),
    }
}

/// Listing with filter `All` appends no query parameter; listing with any
/// other filter appends exactly the one parameter `type=<wire string>`.
pub proof fn lemma_list_filter_query(filter: NotificationType)
    ensures
        filter == NotificationType::All ==> spec_list_request(filter).query is None,
        filter != NotificationType::All ==> spec_list_request(filter).query == Option::Some(
            ("type"@, spec_wire_string(filter)),
        ),
{
}

} // verus!
