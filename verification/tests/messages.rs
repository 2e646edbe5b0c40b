use ribbon::messages::{
    finished_guild_page,
    authorise_request_url, dashboard_label, decimal_string, emoji_markup, membership_filter,
    missing_emoji_names, png_data_url, quick_link_url, role_change_line, sync_result_text,
    welcome_text,
};
use ribbon::roles::{RoleChange, RoleChangeKind};
use ribbon::sync::SyncOperationResult;
use ribbon::text::parse_u64;

#[test]
fn decimal_text_of_numbers() {
    assert_eq!(decimal_string(0), "0");
    assert_eq!(decimal_string(907), "907");
    assert_eq!(decimal_string(u64::MAX), "18446744073709551615");
}

#[test]
fn decimal_round_trip() {
    for n in [0u64, 1, 10, 99, 1234567890123, u64::MAX] {
        assert_eq!(parse_u64(&decimal_string(n)), Some(n));
    }
}

#[test]
fn emoji_mentions() {
    assert_eq!(emoji_markup(Some(42), Some("hand_waving")), "<:hand_waving:42>");
    assert_eq!(emoji_markup(Some(7), None), "<:unknown:7>");
    assert_eq!(emoji_markup(None, Some("x")), "\u{2753}");
}

#[test]
fn role_change_lines() {
    assert_eq!(role_change_line(&RoleChange::new(RoleChangeKind::Assign, 1), "Member"), "+ Member");
    assert_eq!(role_change_line(&RoleChange::new(RoleChangeKind::Remove, 1), ""), "- ");
}

#[test]
fn sync_result_texts() {
    let updated = SyncOperationResult::Success {
        profile_changed: true,
        role_changes: vec![RoleChange::new(RoleChangeKind::Assign, 1), RoleChange::new(RoleChangeKind::Remove, 2)],
    };
    let names = vec!["Member".to_string(), "Guest".to_string()];
    assert_eq!(
        sync_result_text(&updated, "<:c:1>", "<:e:2>", &names),
        "## <:c:1>  Server profile updated!\nYour roleset has been updated, see changes below.\n```diff\n+ Member\n- Guest\n```"
    );
    let odd = SyncOperationResult::Success { profile_changed: true, role_changes: vec![] };
    assert_eq!(sync_result_text(&odd, "C", "E", &vec![]), "## C  Server profile updated!\nuhhhh");
    let unchanged = SyncOperationResult::Success { profile_changed: false, role_changes: vec![] };
    assert_eq!(
        sync_result_text(&unchanged, "C", "E", &vec![]),
        "\n\t\t\t\t\t## E  Server profile already up to par!\nYour profile seems up-to-date, nothing needs changing at this time!\n\t\t\t\t\t"
    );
    assert_eq!(sync_result_text(&SyncOperationResult::Cancelled, "C", "E", &vec![]), "cancelled");
}

#[test]
fn welcome_message_text() {
    let text = welcome_text("W", "R", "Cafe");
    assert!(text.starts_with("\n\t\t\t\t\t\t\t\t\t## WR  Ribbon welcomes you to Cafe!\nThis server uses Ribbon"));
    assert!(text.ends_with("quick, easy, and secure!\n\t\t\t\t\t\t\t\t\t"));
}

#[test]
fn links_and_labels() {
    assert_eq!(authorise_request_url("https://x.y", "abc"), "https://x.y/roblox_request/abc");
    assert_eq!(quick_link_url("https://d", "tok"), "https://d/auth/quick_link#tok");
    assert_eq!(dashboard_label("Cafe"), "Visit Dashboard for Cafe");
    assert_eq!(membership_filter(156), "user == 'users/156'");
}

#[test]
fn png_data_url_is_base64() {
    assert_eq!(png_data_url(b"hi"), "data:image/png;base64,aGk=");
    assert_eq!(png_data_url(&[]), "data:image/png;base64,");
}

#[test]
fn emojis_still_to_upload() {
    let wanted = vec!["a".to_string(), "b".to_string(), "c".to_string()];
    let existing = vec!["b".to_string(), "z".to_string()];
    assert_eq!(missing_emoji_names(&wanted, &existing), vec![0, 2]);
    assert_eq!(missing_emoji_names(&wanted, &wanted), Vec::<usize>::new());
}

#[test]
fn finished_guild_pages() {
    let template = "{{ roblox_avatar }}|{{ roblox_name }}|{{ guild_avatar }}|{{ guild_name }}|{{ guild_name }}";
    assert_eq!(
        finished_guild_page(template, Some("ra"), Some("Bob"), Some("ga"), "Cafe"),
        "ra|Bob|ga|Cafe|Cafe"
    );
    assert_eq!(
        finished_guild_page(template, None, None, None, "Cafe"),
        "{{ roblox_avatar }}|{{ roblox_name }}|{{ guild_avatar }}|Cafe|Cafe"
    );
}
