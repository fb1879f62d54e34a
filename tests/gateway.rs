use lemmy_api_gateway::dispatch::{begin_operation, Action, Event, OperationRun, Stage};
use lemmy_api_gateway::envelope::{parse_websocket_message, serialize_websocket_message};
use lemmy_api_gateway::error::{ApiError, BlockingError, StoreError};
use lemmy_api_gateway::guards::{check_community_ban, get_post, is_admin, is_mod_or_admin};
use lemmy_api_gateway::identity::{
    get_user_from_jwt, get_user_from_jwt_opt, user_id_from_claims, Claims, TokenRejected,
    UserRecord,
};
use lemmy_api_gateway::operation::{op_at, UserOperation, OP_COUNT};

fn user(id: i32, admin: bool, banned: bool) -> UserRecord {
    UserRecord { id, admin, banned }
}

#[test]
fn every_tag_resolves_to_its_own_operation() {
    let mut seen = Vec::new();
    for i in 0..OP_COUNT {
        let op = op_at(i);
        assert_eq!(UserOperation::from_name(op.name()), Some(op));
        assert!(!seen.contains(&op.name()));
        seen.push(op.name());
    }
    assert_eq!(seen.len(), 60);
    assert_eq!(UserOperation::from_name("GetPost"), Some(UserOperation::GetPost));
    assert_eq!(UserOperation::from_name("GetPosts"), Some(UserOperation::GetPosts));
    assert_eq!(UserOperation::CreateCommentLike.name(), "CreateCommentLike");
}

#[test]
fn unknown_tag_is_refused() {
    assert_eq!(UserOperation::from_name("GetPostz"), None);
    assert_eq!(UserOperation::from_name(""), None);
    assert_eq!(UserOperation::from_name("getpost"), None);
    assert_eq!(begin_operation("Frobnicate"), Err(ApiError::UnknownOperation));
    assert_eq!(
        begin_operation("Login"),
        Ok(OperationRun { op: UserOperation::Login, stage: Stage::Received })
    );
}

#[test]
fn rejected_token_is_unauthenticated() {
    assert_eq!(user_id_from_claims(Err(TokenRejected)), Err(ApiError::Unauthenticated));
    assert_eq!(user_id_from_claims(Ok(Claims { id: 12, iat: 1_600_000_000 })), Ok(12));
}

#[test]
fn missing_user_is_unauthenticated() {
    assert_eq!(get_user_from_jwt(Ok(Err(StoreError::NotFound))), Err(ApiError::Unauthenticated));
    assert_eq!(get_user_from_jwt(Ok(Err(StoreError::Failed))), Err(ApiError::Unauthenticated));
    assert_eq!(get_user_from_jwt(Err(BlockingError)), Err(ApiError::InfrastructureFailure));
}

#[test]
fn banned_user_is_site_banned() {
    assert_eq!(get_user_from_jwt(Ok(Ok(user(3, false, true)))), Err(ApiError::SiteBanned));
    assert_eq!(get_user_from_jwt(Ok(Ok(user(3, true, true)))), Err(ApiError::SiteBanned));
    assert_eq!(get_user_from_jwt(Ok(Ok(user(3, false, false)))), Ok(user(3, false, false)));
}

#[test]
fn optional_token() {
    assert_eq!(get_user_from_jwt_opt(None), Ok(None));
    assert_eq!(get_user_from_jwt_opt(Some(Ok(user(5, false, false)))), Ok(Some(user(5, false, false))));
    assert_eq!(get_user_from_jwt_opt(Some(Err(ApiError::SiteBanned))), Err(ApiError::SiteBanned));
}

#[test]
fn no_ban_row_passes() {
    assert_eq!(check_community_ban::<()>(Ok(Err(StoreError::NotFound))), Ok(()));
    assert_eq!(check_community_ban::<()>(Ok(Err(StoreError::Failed))), Ok(()));
    assert_eq!(check_community_ban(Ok(Ok(()))), Err(ApiError::CommunityBanned));
    assert_eq!(check_community_ban::<()>(Err(BlockingError)), Err(ApiError::InfrastructureFailure));
}

#[test]
fn admin_check_twice() {
    let u = user(8, false, false);
    assert_eq!(is_admin(Ok(Ok(u))), Err(ApiError::NotAnAdmin));
    assert_eq!(is_admin(Ok(Ok(u))), Err(ApiError::NotAnAdmin));
    assert_eq!(u, user(8, false, false));
    assert_eq!(is_admin(Ok(Ok(user(8, true, false)))), Ok(()));
    assert_eq!(is_admin(Ok(Err(StoreError::NotFound))), Err(ApiError::NotAnAdmin));
    assert_eq!(is_admin(Err(BlockingError)), Err(ApiError::InfrastructureFailure));
}

#[test]
fn mod_or_admin() {
    assert_eq!(is_mod_or_admin(Ok(true)), Ok(()));
    assert_eq!(is_mod_or_admin(Ok(false)), Err(ApiError::NotAModOrAdmin));
    assert_eq!(is_mod_or_admin(Err(BlockingError)), Err(ApiError::InfrastructureFailure));
}

#[test]
fn envelope_round_trip_for_every_operation() {
    for i in 0..OP_COUNT {
        let op = op_at(i);
        let text = serialize_websocket_message(op, "{\"x\":[1,2]}");
        let (back, data) = parse_websocket_message(&text).unwrap();
        assert_eq!(back, op);
        assert_eq!(data, "{\"x\":[1,2]}");
    }
}

#[test]
fn envelope_text_is_exact() {
    let text = serialize_websocket_message(UserOperation::GetPost, "{\"id\":42}");
    assert_eq!(text, "{\"op\":\"GetPost\",\"data\":{\"id\":42}}");
}

#[test]
fn malformed_envelopes_are_refused() {
    assert_eq!(parse_websocket_message(""), None);
    assert_eq!(parse_websocket_message("{}"), None);
    assert_eq!(parse_websocket_message("{\"op\":\"Nope\",\"data\":{}}"), None);
    assert_eq!(parse_websocket_message("{\"op\":\"GetPost\",\"date\":{}}"), None);
    assert_eq!(parse_websocket_message("{\"op\":\"GetPost\",\"data\":{}]"), None);
    assert_eq!(
        parse_websocket_message("{\"op\":\"GetPost\",\"data\":{}"),
        Some((UserOperation::GetPost, String::from("{")))
    );
    assert_eq!(parse_websocket_message("[\"op\":\"GetPost\",\"data\":{}}"), None);
}

#[test]
fn get_post_found_is_sent_back_tagged() {
    let mut run = begin_operation("GetPost").unwrap();
    assert_eq!(run.op, UserOperation::GetPost);
    assert_eq!(run.step(Event::PayloadDecoded), Action::Perform);
    assert_eq!(run.stage, Stage::Decoded);
    let post = get_post(Ok(Ok(String::from("{\"id\":42,\"name\":\"hello\"}")))).unwrap();
    let action = run.step(Event::Performed(post));
    assert_eq!(
        action,
        Action::Reply(String::from("{\"op\":\"GetPost\",\"data\":{\"id\":42,\"name\":\"hello\"}}"))
    );
    assert_eq!(run.stage, Stage::Finished);
}

#[test]
fn get_post_missing_fails_without_reply() {
    let mut run = begin_operation("GetPost").unwrap();
    assert_eq!(run.step(Event::PayloadDecoded), Action::Perform);
    let outcome = get_post::<String>(Ok(Err(StoreError::NotFound)));
    assert_eq!(outcome, Err(ApiError::PostNotFound));
    assert_eq!(run.step(Event::Failed(ApiError::PostNotFound)), Action::Fail(ApiError::PostNotFound));
    assert_eq!(run.stage, Stage::Finished);
}

#[test]
fn malformed_payload_fails_first() {
    let mut run = OperationRun::new(UserOperation::CreatePost);
    assert_eq!(run.step(Event::PayloadRejected), Action::Fail(ApiError::MalformedPayload));
    assert_eq!(run.stage, Stage::Finished);
}

#[test]
fn banned_user_stops_before_command() {
    let mut run = begin_operation("CreateComment").unwrap();
    assert_eq!(run.step(Event::PayloadDecoded), Action::Perform);
    let id = user_id_from_claims(Ok(Claims { id: 4, iat: 0 })).unwrap();
    let who = get_user_from_jwt(Ok(Ok(user(id, false, true))));
    assert_eq!(who, Err(ApiError::SiteBanned));
    let action = run.step(Event::Failed(who.unwrap_err()));
    assert_eq!(action, Action::Fail(ApiError::SiteBanned));
}

#[test]
fn error_codes() {
    assert_eq!(ApiError::Unauthenticated.code(), "not_logged_in");
    assert_eq!(ApiError::SiteBanned.code(), "site_ban");
    assert_eq!(ApiError::NotAnAdmin.code(), "not_an_admin");
    assert_eq!(ApiError::NotAModOrAdmin.code(), "not_a_mod_or_admin");
    assert_eq!(ApiError::CommunityBanned.code(), "community_ban");
    assert_eq!(ApiError::PostNotFound.code(), "couldnt_find_post");
}
