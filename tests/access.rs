use std::collections::HashMap;

use white_elephant::api::{parse_action, PlayData, PlayParams};
use white_elephant::auth::{token_needs_refresh, CustomClaims, MyFirebaseUser, OWNER_PERMISSION, PLAY_PERMISSION, VIEW_PERMISSION};
use white_elephant::db::{apply_list_filters, get_order_by_sql, ListParams, UpdateData};
use white_elephant::error::Error;
use white_elephant::games::PlayAction;

fn user(games: &[(u128, i64)]) -> MyFirebaseUser {
    MyFirebaseUser {
        provider_id: None,
        name: Some("Ann".to_string()),
        picture: None,
        iss: "issuer".to_string(),
        aud: "project".to_string(),
        auth_time: 1,
        user_id: "u1".to_string(),
        sub: "u1".to_string(),
        iat: 1,
        exp: 2,
        email: None,
        email_verified: None,
        games: games.iter().copied().collect::<HashMap<u128, i64>>(),
    }
}

#[test]
fn permission_levels() {
    let u = user(&[(1, OWNER_PERMISSION), (2, PLAY_PERMISSION), (3, VIEW_PERMISSION)]);
    assert!(u.can_edit(1) && u.can_play(1) && u.can_view(1));
    assert!(!u.can_edit(2) && u.can_play(2) && u.can_view(2));
    assert!(!u.can_edit(3) && !u.can_play(3) && u.can_view(3));
    assert!(!u.can_edit(4) && !u.can_play(4) && !u.can_view(4));
    assert_eq!(u.permission_level(1), 0xff);
    assert_eq!(u.permission_level(4), 0);
}

#[test]
fn claims_copy_and_grant() {
    let u = user(&[(1, PLAY_PERMISSION)]);
    let mut c = u.custom_claims();
    assert_eq!(c.games, u.games);
    c.grant(9, OWNER_PERMISSION);
    assert_eq!(c.games.get(&9), Some(&0xff));
    assert_eq!(c.games.len(), 2);
    assert!(CustomClaims::new().games.is_empty());
}

#[test]
fn invitation_adds_view_only_once_and_only_for_members() {
    let u = user(&[(1, PLAY_PERMISSION)]);
    let members = vec!["x".to_string(), "u1".to_string()];
    let c = u.invitation_claims(5, &members).unwrap();
    assert_eq!(c.games.get(&5), Some(&VIEW_PERMISSION));
    assert_eq!(c.games.get(&1), Some(&PLAY_PERMISSION));
    assert!(u.invitation_claims(1, &members).is_none());
    assert!(u.invitation_claims(5, &vec!["x".to_string()]).is_none());
}

#[test]
fn order_by_clause() {
    assert_eq!(get_order_by_sql("-name", vec!["id", "name"]).unwrap(), "name desc");
    assert_eq!(get_order_by_sql("id", vec!["id", "name"]).unwrap(), "id asc");
    assert_eq!(get_order_by_sql("foo", vec!["id", "name"]), Err(Error::InvalidOrder));
    assert_eq!(get_order_by_sql("-", vec!["id"]), Err(Error::InvalidOrder));
    assert_eq!(get_order_by_sql("id", vec![]), Err(Error::InvalidOrder));
}

#[test]
fn list_filters() {
    let p = ListParams { order: Some("-id".to_string()), offset: Some(5), limit: Some(10) };
    let c = apply_list_filters(&p, vec!["id"]).unwrap();
    assert_eq!(c.order_by.as_deref(), Some("id desc"));
    assert_eq!((c.offset, c.limit), (Some(5), Some(10)));
    let p = ListParams { order: None, offset: None, limit: Some(3) };
    let c = apply_list_filters(&p, vec![]).unwrap();
    assert_eq!((c.order_by, c.offset, c.limit), (None, None, Some(3)));
    let p = ListParams { order: Some("name".to_string()), offset: None, limit: None };
    assert!(matches!(apply_list_filters(&p, vec!["id"]), Err(Error::InvalidOrder)));
}

#[test]
fn update_data_checks() {
    let empty = UpdateData { name: None, images: None, users: None };
    assert!(empty.is_empty());
    let d = UpdateData { name: Some("x".to_string()), images: None, users: Some(vec![("u1".to_string(), VIEW_PERMISSION)]) };
    assert!(!d.is_empty());
    assert!(d.lowers_owner(&"u1".to_string()));
    assert!(!d.lowers_owner(&"u2".to_string()));
    let d = UpdateData { name: None, images: None, users: Some(vec![("u1".to_string(), OWNER_PERMISSION)]) };
    assert!(!d.lowers_owner(&"u1".to_string()));
}

#[test]
fn play_request_parsing() {
    let q = |a: &str| PlayParams { action: a.to_string() };
    let d = Some(PlayData { present_id: 4 });
    assert_eq!(parse_action(&q("start"), None), Some(PlayAction::Start));
    assert_eq!(parse_action(&q("reset"), d), Some(PlayAction::Reset));
    assert_eq!(parse_action(&q("roll"), None), Some(PlayAction::Roll));
    assert_eq!(parse_action(&q("pick"), d), Some(PlayAction::Pick(4)));
    assert_eq!(parse_action(&q("pick"), None), None);
    assert_eq!(parse_action(&q("keep"), None), Some(PlayAction::Keep));
    assert_eq!(parse_action(&q("steal"), d), Some(PlayAction::Steal(4)));
    assert_eq!(parse_action(&q("steal"), None), None);
    assert_eq!(parse_action(&q("dance"), d), None);
}

#[test]
fn error_status_codes() {
    assert_eq!(Error::Empty.status(), 400);
    assert_eq!(Error::InvalidOrder.status(), 400);
    assert_eq!(Error::NotFound.status(), 404);
    assert_eq!(Error::Conflict.status(), 409);
    assert_eq!(Error::Storage.status(), 500);
    assert_eq!(Error::Unknown.status(), 500);
}

#[test]
fn service_token_refresh() {
    assert!(token_needs_refresh(10, 5, &String::new()));
    assert!(token_needs_refresh(10, 11, &"Bearer x".to_string()));
    assert!(!token_needs_refresh(10, 10, &"Bearer x".to_string()));
}
