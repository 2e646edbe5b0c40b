use ribbon::interaction::{InteractionKind, InteractionRef};
use ribbon::models::{
    new_token, request_token_from_state, token_from_draws, AuthoriseRequestKind, AuthoriseRequestModel, RobloxUser,
    ServerModel, WebsiteQuickLinkModel,
};

fn interaction() -> InteractionRef {
    InteractionRef { id: 1, kind: InteractionKind::MessageComponent, token: "t".to_string(), guild_id: Some(2), user_id: None }
}

fn is_token(s: &str) -> bool {
    s.len() == 24 && s.chars().all(|c| c.is_ascii_alphanumeric())
}

#[test]
fn tokens_are_alphanumeric() {
    let a = new_token();
    let b = new_token();
    assert!(is_token(&a));
    assert!(is_token(&b));
    assert_ne!(a, b);
}

#[test]
fn authorise_requests() {
    let request = AuthoriseRequestModel::add_roblox_account(interaction());
    assert!(is_token(&request.id));
    assert_eq!(request.kind, AuthoriseRequestKind::AddRobloxAccount);
    assert_eq!(request.guild_id(), Some(2));
    assert_eq!(request.user_id(), None);
    let other = AuthoriseRequestModel::add_roblox_communities(interaction());
    assert_eq!(other.kind, AuthoriseRequestKind::AddRobloxCommunities);
    let copy = other.interaction.duplicate();
    assert_eq!(copy.token, "t");
    assert_eq!(copy.kind, InteractionKind::MessageComponent);
}

#[test]
fn quick_links() {
    let link = WebsiteQuickLinkModel::new(5, Some(6));
    assert!(is_token(&link.id));
    assert_eq!(link.origin_user_id, 5);
    assert_eq!(link.origin_server_id, Some(6));
}

#[test]
fn placeholder_server() {
    let server = ServerModel::from_guild_id(77);
    assert_eq!(server.id, 77);
    assert_eq!(server.display_name, "placeholder");
}

#[test]
fn request_tokens_from_state() {
    assert_eq!(request_token_from_state("r_abc"), Some("abc"));
    assert_eq!(request_token_from_state("r_"), Some(""));
    assert_eq!(request_token_from_state("x_abc"), None);
    assert_eq!(request_token_from_state("r"), None);
}

#[test]
fn roblox_user_names() {
    let mut user = RobloxUser { sub: 1, name: None, preferred_username: Some("pref".to_string()), profile: None, picture: None };
    assert_eq!(user.shown_name().map(|s| s.as_str()), Some("pref"));
    user.name = Some("Display".to_string());
    assert_eq!(user.shown_name().map(|s| s.as_str()), Some("Display"));
    user.name = None;
    user.preferred_username = None;
    assert!(user.shown_name().is_none());
}

#[test]
fn tokens_from_draws() {
    assert_eq!(token_from_draws(b"aZ09"), "aZ09");
    assert_eq!(token_from_draws(b""), "");
}
