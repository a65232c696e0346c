use vrc_agent::cli::{parse_args, unrecognized_mode_message, usage_message, CliCommand};
use vrc_agent::engine::{Action, Engine, Event, Mode};
use vrc_agent::instance::InstanceId;
use vrc_agent::model::{Notification, NotificationList, RequestError};
use vrc_agent::requests::{
    accept_request, hide_request, list_request, AcceptFriendRequest, HideNotification,
    RequestBody, Verb,
};
use vrc_agent::wire::NotificationType;

fn notification(
    id: &str,
    sender_user_id: &str,
    sender_user_name: &str,
    message_type: NotificationType,
    message: &str,
    details: &str,
) -> Notification {
    Notification {
        id: id.to_string(),
        sender_user_id: sender_user_id.to_string(),
        sender_user_name: sender_user_name.to_string(),
        message_type,
        message: message.to_string(),
        details: details.to_string(),
        seen: false,
        created_at: "2018-01-01T00:00:00Z".to_string(),
    }
}

#[test]
fn wire_round_trip_all_variants() {
    let variants = vec![
        NotificationType::All,
        NotificationType::Message,
        NotificationType::FriendRequest,
        NotificationType::Invite,
        NotificationType::VoteToKick,
        NotificationType::Help,
        NotificationType::Hidden,
        NotificationType::RequestInvite,
    ];
    for v in variants {
        let encoded = v.wire_string();
        assert_eq!(NotificationType::from_wire(encoded.as_str()), Some(v));
    }
}

#[test]
fn wire_strings_are_pinned() {
    assert_eq!(NotificationType::All.wire_string(), "all");
    assert_eq!(NotificationType::Message.wire_string(), "message");
    assert_eq!(NotificationType::FriendRequest.wire_string(), "friendRequest");
    assert_eq!(NotificationType::Invite.wire_string(), "invite");
    assert_eq!(NotificationType::VoteToKick.wire_string(), "votetokick");
    assert_eq!(NotificationType::Help.wire_string(), "help");
    assert_eq!(NotificationType::Hidden.wire_string(), "hidden");
    assert_eq!(NotificationType::RequestInvite.wire_string(), "requestinvite");
}

#[test]
fn wire_divergent_spellings_decode() {
    assert_eq!(
        NotificationType::from_wire("friendrequest"),
        Some(NotificationType::FriendRequest)
    );
    assert_eq!(
        NotificationType::from_wire("invitemessage"),
        Some(NotificationType::Invite)
    );
    assert_eq!(NotificationType::from_wire("FriendRequest"), None);
    assert_eq!(NotificationType::from_wire(""), None);
    assert_eq!(NotificationType::from_wire("bogus"), None);
}

#[test]
fn list_with_all_has_no_query() {
    let req = list_request(NotificationType::All);
    assert_eq!(req.verb, Verb::Get);
    assert_eq!(req.path, "/api/1/auth/user/notifications");
    assert!(req.query.is_none());
    assert!(matches!(req.body, RequestBody::Empty));
}

#[test]
fn list_with_filter_has_exactly_one_query() {
    let req = list_request(NotificationType::FriendRequest);
    assert_eq!(req.path, "/api/1/auth/user/notifications");
    let (key, value) = req.query.expect("a filtered list call carries a query parameter");
    assert_eq!(key, "type");
    assert_eq!(value, "friendRequest");

    let req = list_request(NotificationType::RequestInvite);
    let (key, value) = req.query.expect("a filtered list call carries a query parameter");
    assert_eq!(key, "type");
    assert_eq!(value, "requestinvite");
}

#[test]
fn endpoint_paths_are_pinned() {
    assert_eq!(NotificationList::get_path(), "/api/1/auth/user/notifications");
    assert_eq!(
        Notification::get_path("usr_9"),
        "/api/1/auth/user/usr_9/notification"
    );
    assert_eq!(
        AcceptFriendRequest::get_path("not_1"),
        "/api/1/auth/user/notifications/not_1/accept"
    );
    assert_eq!(
        HideNotification::get_path("not_1"),
        "/api/1/auth/user/notifications/not_1/hide"
    );
    assert_eq!(accept_request("not_1").verb, Verb::Put);
    assert!(matches!(accept_request("not_1").body, RequestBody::EmptyObject));
    assert_eq!(hide_request("not_1").verb, Verb::Put);
}

#[test]
fn instance_id_composite_form() {
    let inst = InstanceId { world: "wrld_1".to_string(), instance: "12345".to_string() };
    assert_eq!(inst.composite(), "wrld_1:12345");
}

#[test]
fn instance_id_parse_splits_at_first_colon() {
    let inst = InstanceId::parse("wrld_1:12345").expect("a composite string parses");
    assert_eq!(inst.world, "wrld_1");
    assert_eq!(inst.instance, "12345");

    let inst = InstanceId::parse("w:12345:extra").expect("the first colon splits");
    assert_eq!(inst.world, "w");
    assert_eq!(inst.instance, "12345:extra");

    let inst = InstanceId::parse(":x").expect("an empty world still parses");
    assert_eq!(inst.world, "");
    assert_eq!(inst.instance, "x");

    assert!(InstanceId::parse("no-colon-here").is_none());
    assert!(InstanceId::parse("").is_none());
}

#[test]
fn instance_id_round_trip() {
    let inst = InstanceId { world: "wrld_1".to_string(), instance: "12345~hidden".to_string() };
    let back = InstanceId::parse(inst.composite().as_str()).expect("round trip parses");
    assert_eq!(back.world, inst.world);
    assert_eq!(back.instance, inst.instance);
}

fn dispatched(engine: &mut Engine, ev: Event) -> (Vec<String>, Option<vrc_agent::requests::HttpRequest>) {
    let out = engine.step(ev);
    match out.action {
        Action::Dispatch(req) => (out.logs, Some(req)),
        Action::Sleep => (out.logs, None),
    }
}

#[test]
fn accept_cycle_survives_one_failing_item() {
    let mut engine = Engine::new(Mode::Accept);

    let (_, req) = dispatched(&mut engine, Event::Wake);
    let req = req.expect("waking dispatches the list call");
    assert_eq!(req.path, "/api/1/auth/user/notifications");
    assert_eq!(
        req.query,
        Some(("type".to_string(), "friendRequest".to_string()))
    );

    let items = vec![
        notification("not_0", "usr_0", "alice", NotificationType::FriendRequest, "", ""),
        notification("not_1", "usr_1", "bob", NotificationType::FriendRequest, "", ""),
        notification("not_2", "usr_2", "carol", NotificationType::FriendRequest, "", ""),
    ];
    let (logs, req) = dispatched(&mut engine, Event::FetchOk(NotificationList { items }));
    let req = req.expect("the first item is dispatched");
    assert_eq!(req.path, "/api/1/auth/user/notifications/not_0/accept");
    assert_eq!(logs, vec!["accepting friend request from alice".to_string()]);

    let (_, req) = dispatched(&mut engine, Event::ActionOk);
    let req = req.expect("the second item is dispatched");
    assert_eq!(req.path, "/api/1/auth/user/notifications/not_1/accept");

    // item 1 fails: the failure is reported and item 2 is still processed
    let (logs, req) = dispatched(&mut engine, Event::ActionFailed(RequestError::HttpStatus(500)));
    assert_eq!(logs[0], "error while handling notification: http error status 500");
    let req = req.expect("a failing item does not abort the batch");
    assert_eq!(req.path, "/api/1/auth/user/notifications/not_2/accept");

    let (_, req) = dispatched(&mut engine, Event::ActionOk);
    assert!(req.is_none(), "after the last item the engine sleeps");
}

#[test]
fn invite_hides_before_sending_and_sends_composite_details() {
    let mut engine = Engine::new(Mode::Invite);

    let (_, req) = dispatched(&mut engine, Event::Wake);
    let req = req.expect("waking dispatches the list call");
    assert_eq!(
        req.query,
        Some(("type".to_string(), "requestinvite".to_string()))
    );

    let items = vec![notification(
        "not_7",
        "usr_7",
        "dave",
        NotificationType::RequestInvite,
        "please invite me",
        "wrld_1:12345",
    )];
    let (logs, req) = dispatched(&mut engine, Event::FetchOk(NotificationList { items }));
    let req = req.expect("the item's hide is dispatched first");
    assert_eq!(req.verb, Verb::Put);
    assert_eq!(req.path, "/api/1/auth/user/notifications/not_7/hide");
    assert_eq!(logs, vec!["handling invite request from dave".to_string()]);

    // only after the hide succeeded is the invite send dispatched
    let (_, req) = dispatched(&mut engine, Event::ActionOk);
    let req = req.expect("a parsed instance id leads to the invite send");
    assert_eq!(req.verb, Verb::Post);
    assert_eq!(req.path, "/api/1/auth/user/usr_7/notification");
    match req.body {
        RequestBody::Invite(body) => {
            assert_eq!(body.message_type, NotificationType::Invite);
            assert_eq!(body.details, "wrld_1:12345");
            assert_eq!(body.message, "please invite me");
        },
        _ => panic!("the invite send carries an invite body"),
    }

    let (_, req) = dispatched(&mut engine, Event::ActionOk);
    assert!(req.is_none(), "after the only item the engine sleeps");
}

#[test]
fn invite_with_malformed_details_skips_only_that_item() {
    let mut engine = Engine::new(Mode::Invite);
    let _ = engine.step(Event::Wake);

    let items = vec![
        notification("not_a", "usr_a", "erin", NotificationType::RequestInvite, "hi", "garbage"),
        notification("not_b", "usr_b", "frank", NotificationType::RequestInvite, "yo", "w:1"),
    ];
    let (_, req) = dispatched(&mut engine, Event::FetchOk(NotificationList { items }));
    assert_eq!(req.expect("first hide").path, "/api/1/auth/user/notifications/not_a/hide");

    // hide succeeded, but "garbage" holds no instance id: the item is given
    // up with a report and the next item's hide follows — no send, no retry
    let (logs, req) = dispatched(&mut engine, Event::ActionOk);
    assert_eq!(logs[0], "could not parse an instance id from details: garbage");
    let req = req.expect("the loop proceeds to the next item");
    assert_eq!(req.path, "/api/1/auth/user/notifications/not_b/hide");

    let (_, req) = dispatched(&mut engine, Event::ActionOk);
    let req = req.expect("the second item's details parse");
    assert_eq!(req.verb, Verb::Post);

    let (_, req) = dispatched(&mut engine, Event::ActionOk);
    assert!(req.is_none());
}

#[test]
fn invite_requests_alternate_hide_then_send() {
    let mut engine = Engine::new(Mode::Invite);
    let _ = engine.step(Event::Wake);

    let items = vec![
        notification("not_x", "usr_x", "heidi", NotificationType::RequestInvite, "a", "w1:i1"),
        notification("not_y", "usr_y", "ivan", NotificationType::RequestInvite, "b", "w2:i2"),
    ];
    let mut paths = Vec::new();
    let (_, req) = dispatched(&mut engine, Event::FetchOk(NotificationList { items }));
    paths.push(req.expect("first request").path);
    for _ in 0..3 {
        let (_, req) = dispatched(&mut engine, Event::ActionOk);
        paths.push(req.expect("the cycle is still under way").path);
    }
    assert_eq!(
        paths,
        vec![
            "/api/1/auth/user/notifications/not_x/hide".to_string(),
            "/api/1/auth/user/usr_x/notification".to_string(),
            "/api/1/auth/user/notifications/not_y/hide".to_string(),
            "/api/1/auth/user/usr_y/notification".to_string(),
        ]
    );
    let (_, req) = dispatched(&mut engine, Event::ActionOk);
    assert!(req.is_none(), "after the last send the engine sleeps");
}

#[test]
fn invite_failed_hide_skips_item() {
    let mut engine = Engine::new(Mode::Invite);
    let _ = engine.step(Event::Wake);

    let items = vec![notification(
        "not_c",
        "usr_c",
        "grace",
        NotificationType::RequestInvite,
        "hello",
        "w:1",
    )];
    let _ = engine.step(Event::FetchOk(NotificationList { items }));

    let (logs, req) = dispatched(&mut engine, Event::ActionFailed(RequestError::Network));
    assert_eq!(logs[0], "error while handling notification: network failure");
    assert!(req.is_none(), "the only item failed, so the cycle ends");
}

#[test]
fn fetch_failure_aborts_cycle_and_loop_goes_on() {
    let mut engine = Engine::new(Mode::Accept);
    let _ = engine.step(Event::Wake);

    let out = engine.step(Event::FetchFailed(RequestError::HttpStatus(500)));
    assert_eq!(out.logs, vec!["error while running loop: http error status 500".to_string()]);
    assert!(matches!(out.action, Action::Sleep), "no item processing is attempted");

    // the next wake starts a fresh cycle
    let (_, req) = dispatched(&mut engine, Event::Wake);
    let req = req.expect("the loop retries after sleeping");
    assert_eq!(req.path, "/api/1/auth/user/notifications");
}

#[test]
fn error_descriptions() {
    assert_eq!(RequestError::Network.describe(), "network failure");
    assert_eq!(RequestError::HttpStatus(404).describe(), "http error status 404");
    assert_eq!(RequestError::HttpStatus(0).describe(), "http error status 0");
    assert_eq!(RequestError::HttpStatus(65535).describe(), "http error status 65535");
    assert_eq!(RequestError::Decode.describe(), "response decode failure");
}

#[test]
fn cli_wrong_argument_count_asks_for_usage() {
    let none: Vec<String> = vec!["agent".to_string()];
    assert!(matches!(parse_args(&none), CliCommand::Usage));

    let four = vec![
        "agent".to_string(),
        "key".to_string(),
        "user".to_string(),
        "pass".to_string(),
    ];
    assert!(matches!(parse_args(&four), CliCommand::Usage));

    let six = vec![
        "agent".to_string(),
        "key".to_string(),
        "user".to_string(),
        "pass".to_string(),
        "accept".to_string(),
        "extra".to_string(),
    ];
    assert!(matches!(parse_args(&six), CliCommand::Usage));

    assert_eq!(
        usage_message("agent"),
        "Usage agent <api_key> <username> <password> <mode>"
    );
}

#[test]
fn cli_modes_are_recognized() {
    let args = vec![
        "agent".to_string(),
        "key".to_string(),
        "user".to_string(),
        "pass".to_string(),
        "accept".to_string(),
    ];
    match parse_args(&args) {
        CliCommand::Run { api_key, username, password, mode } => {
            assert_eq!(api_key, "key");
            assert_eq!(username, "user");
            assert_eq!(password, "pass");
            assert_eq!(mode, Mode::Accept);
        },
        _ => panic!("five arguments with mode accept run the agent"),
    }

    let args = vec![
        "agent".to_string(),
        "key".to_string(),
        "user".to_string(),
        "pass".to_string(),
        "invite".to_string(),
    ];
    match parse_args(&args) {
        CliCommand::Run { mode, .. } => assert_eq!(mode, Mode::Invite),
        _ => panic!("five arguments with mode invite run the agent"),
    }

    let args = vec![
        "agent".to_string(),
        "key".to_string(),
        "user".to_string(),
        "pass".to_string(),
        "banana".to_string(),
    ];
    match parse_args(&args) {
        CliCommand::UnrecognizedMode(mode) => assert_eq!(mode, "banana"),
        _ => panic!("an unknown mode word is reported"),
    }
    assert_eq!(
        unrecognized_mode_message("banana"),
        "unrecognized mode banana, supported modes: accept, invite"
    );
}
