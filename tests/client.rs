use bookmarker::{
    check_created, check_done, classify_delivery, recipient_body, ApiCall, ApiError, ApiEvent,
    ApiResponse, Client, CreateMessage, DeliveryOutcome, Method,
};

fn responded(status: u16, id: Option<u64>, error_code: Option<u64>) -> ApiEvent {
    ApiEvent::Responded(ApiResponse { status, id, error_code })
}

#[test]
fn registration_path_by_scope() {
    let client = Client::new("123", "tok");
    let guild = ApiCall::RegisterCommands { guild_id: Some(77), commands: vec![] };
    let global = ApiCall::RegisterCommands { guild_id: None, commands: vec![] };
    assert_eq!(client.path(&guild), "/applications/123/guilds/77/commands");
    assert_eq!(client.path(&global), "/applications/123/commands");
    assert_eq!(client.url(&global), "https://discord.com/api/v10/applications/123/commands");
    assert_eq!(Client::method(&global), Method::Put);
}

#[test]
fn message_paths() {
    let client = Client::new("1", "tok");
    let open = ApiCall::OpenDirectChannel { recipient_id: 5 };
    let post = ApiCall::PostMessage { channel_id: 6, message: CreateMessage::new() };
    let delete = ApiCall::DeleteMessage { channel_id: 6, message_id: 8 };
    assert_eq!(client.path(&open), "/users/@me/channels");
    assert_eq!(client.path(&post), "/channels/6/messages");
    assert_eq!(client.path(&delete), "/channels/6/messages/8");
    assert_eq!(Client::method(&open), Method::Post);
    assert_eq!(Client::method(&post), Method::Post);
    assert_eq!(Client::method(&delete), Method::Delete);
}

#[test]
fn authorization_header() {
    let client = Client::new("1", "abc.def");
    assert_eq!(client.authorization, "Bot abc.def");
    assert_eq!(client.application_id, "1");
}

#[test]
fn recipient_json() {
    assert_eq!(recipient_body(42), r#"{"recipient_id":"42"}"#);
}

#[test]
fn delivery_classification() {
    assert_eq!(classify_delivery(3, &responded(403, None, Some(50007))), Ok(DeliveryOutcome::Blocked));
    assert_eq!(classify_delivery(3, &responded(400, None, Some(50007))), Ok(DeliveryOutcome::Blocked));
    assert_eq!(
        classify_delivery(3, &responded(403, None, Some(50013))),
        Err(ApiError::Rejected { status: 403, code: Some(50013) })
    );
    assert_eq!(
        classify_delivery(3, &responded(502, None, Some(50007))),
        Err(ApiError::ServerFault { status: 502 })
    );
    assert_eq!(
        classify_delivery(3, &responded(200, Some(9), None)),
        Ok(DeliveryOutcome::Delivered { channel_id: 3, message_id: 9 })
    );
    assert_eq!(classify_delivery(3, &responded(200, None, None)), Err(ApiError::InvalidBody { status: 200 }));
    assert_eq!(classify_delivery(3, &ApiEvent::TransportFailed), Err(ApiError::Transport));
}

#[test]
fn plain_call_classification() {
    assert_eq!(check_done(&responded(204, None, None)), Ok(()));
    assert_eq!(check_done(&responded(200, None, None)), Ok(()));
    assert_eq!(check_done(&responded(299, None, None)), Ok(()));
    assert_eq!(check_done(&responded(500, None, None)), Err(ApiError::Rejected { status: 500, code: None }));
    assert_eq!(check_done(&responded(404, None, Some(10008))), Err(ApiError::Rejected { status: 404, code: Some(10008) }));
    assert_eq!(check_created(&responded(200, Some(4), None)), Ok(4));
    assert_eq!(check_created(&responded(201, None, None)), Err(ApiError::InvalidBody { status: 201 }));
    assert_eq!(check_created(&responded(403, Some(4), Some(50007))), Err(ApiError::Rejected { status: 403, code: Some(50007) }));
    assert_eq!(check_created(&ApiEvent::TransportFailed), Err(ApiError::Transport));
}

#[test]
fn non_success_statuses_are_rejected() {
    for status in [100u16, 199, 302, 304, 399, 600, 999] {
        assert_eq!(check_done(&responded(status, None, None)), Err(ApiError::Rejected { status, code: None }));
        assert_eq!(
            check_created(&responded(status, Some(4), None)),
            Err(ApiError::Rejected { status, code: None })
        );
        assert_eq!(
            classify_delivery(3, &responded(status, Some(9), Some(50007))),
            Err(ApiError::Rejected { status, code: Some(50007) })
        );
    }
}
