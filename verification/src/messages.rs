//! The text the bot writes: numbers, emoji mentions, role-change lists, sync results,
//! and the links it hands out.
use vstd::prelude::*;
use crate::roles::{RoleChange, RoleChangeKind};
use crate::session::{base64_encode, base64_encoded};
use crate::sync::SyncOperationResult;
use crate::text::{digits_value, is_digit, parsed_value, parses_as_u64, push_char, replace_all, replaced, unsigned_digits};

verus! {

/// The decimal digit character for a value below ten.
pub open spec fn digit_char(d: nat) -> char {
    (d + 48) as char
}

/// The decimal text of a number, without sign or leading zeros.
pub open spec fn decimal_text(n: nat) -> Seq<char>
    decreases n,
{
    if n < 10 {
        seq![digit_char(n)]
    } else {
        decimal_text(n / 10).push(digit_char(n % 10))
    }
}

/// Appends the decimal text of `n`.
pub fn push_decimal(s: &mut String, n: u64)
    ensures
        final(s)@ == old(s)@ + decimal_text(n as nat),
    decreases n,
{
    if n >= 10 {
        push_decimal(s, n / 10);
    }
    let digit = (n % 10) as u8;
    push_char(s, (digit + 48) as char);
    proof {
        assert(decimal_text(n as nat) == if n < 10 {
            seq![digit_char(n as nat)]
        } else {
            decimal_text((n / 10) as nat).push(digit_char((n % 10) as nat))
        });
    }
}

/// The decimal text of `n`.
pub fn decimal_string(n: u64) -> (text: String)
    ensures
        text@ == decimal_text(n as nat),
{
    let mut text = String::new();
    push_decimal(&mut text, n);
    text
}

proof fn lemma_decimal_digits(n: nat)
    ensures
        decimal_text(n).len() > 0,
        decimal_text(n)[0] != '+',
        forall|i: int| 0 <= i < decimal_text(n).len() ==> is_digit(#[trigger] decimal_text(n)[i]),
        digits_value(decimal_text(n)) == n,
    decreases n,
{
    if n >= 10 {
        lemma_decimal_digits(n / 10);
        let t = decimal_text(n);
        assert(t.drop_last() =~= decimal_text(n / 10));
        assert(t.last() == digit_char(n % 10));
        assert((digit_char(n % 10) as int) == n % 10 + 48);
        assert((n / 10) * 10 + n % 10 == n);
        assert(('0' as int) == 48);
        assert(digits_value(t) == digits_value(t.drop_last()) * 10 + ((t.last() as int) - ('0' as int)));
        assert forall|i: int| 0 <= i < t.len() implies is_digit(#[trigger] t[i]) by {
            if i < t.len() - 1 {
                assert(t[i] == decimal_text(n / 10)[i]);
            }
        }
    } else {
        let t = decimal_text(n);
        assert(t.drop_last() =~= Seq::<char>::empty());
        assert((digit_char(n) as int) == n + 48);
        assert(('0' as int) == 48);
        assert(digits_value(t) == digits_value(t.drop_last()) * 10 + ((t.last() as int) - ('0' as int)));
    }
}

/// Reading back the decimal text of a number gives the number.
pub proof fn lemma_decimal_round_trip(n: u64)
    ensures
        parses_as_u64(decimal_text(n as nat)),
        parsed_value(decimal_text(n as nat)) == n,
{
    lemma_decimal_digits(n as nat);
    assert(unsigned_digits(decimal_text(n as nat)) == decimal_text(n as nat));
}

/// How an emoji is written in a message: `<:name:id>` for an uploaded emoji, with
/// "unknown" where its name is not known, and a question mark where it has no id.
pub open spec fn emoji_text(id: Option<u64>, name: Option<Seq<char>>) -> Seq<char> {
    match id {
        None => "\u{2753}"@,
        Some(i) => {
            let shown = match name {
                Some(n) => n,
                None => "unknown"@,
            };
            "<:"@ + shown + ":"@ + decimal_text(i as nat) + ">"@
        },
    }
}

/// Writes an emoji for a message.
pub fn emoji_markup(id: Option<u64>, name: Option<&str>) -> (text: String)
    ensures
        text@ == emoji_text(id, match name {
            Some(n) => Some(n@),
            None => None,
        }),
{
    match id {
        None => String::from_str("\u{2753}"),
        Some(i) => {
            let mut text = String::from_str("<:");
            match name {
                Some(n) => text.append(n),
                None => text.append("unknown"),
            }
            text.append(":");
            push_decimal(&mut text, i);
            text.append(">");
            text
        },
    }
}

/// How a role change is listed: "+" or "-", a space, and the role's name.
pub open spec fn change_line(change: RoleChange, role_name: Seq<char>) -> Seq<char> {
    let sign = match change.kind {
        RoleChangeKind::Assign => "+"@,
        RoleChangeKind::Remove => "-"@,
    };
    sign + " "@ + role_name
}

/// Writes a role change for a list.
pub fn role_change_line(change: &RoleChange, role_name: &str) -> (text: String)
    ensures
        text@ == change_line(*change, role_name@),
{
    let mut text = match change.kind {
        RoleChangeKind::Assign => String::from_str("+"),
        RoleChangeKind::Remove => String::from_str("-"),
    };
    text.append(" ");
    text.append(role_name);
    text
}

/// The lines of a list of role changes, each ended by a line break.
pub open spec fn change_lines(changes: Seq<RoleChange>, names: Seq<Seq<char>>) -> Seq<char>
    decreases changes.len(),
{
    if changes.len() == 0 || names.len() != changes.len() {
        Seq::empty()
    } else {
        change_lines(changes.drop_last(), names.drop_last()) + change_line(changes.last(), names.last())
            + "\n"@
    }
}

/// What a sync operation reports, given how the two status emojis are written and the
/// names of the changed roles.
pub open spec fn result_text(
    result: SyncOperationResult,
    updated_emoji: Seq<char>,
    unchanged_emoji: Seq<char>,
    names: Seq<Seq<char>>,
) -> Seq<char> {
    match result {
        SyncOperationResult::Success { profile_changed, role_changes } => if profile_changed {
            let body = if role_changes@.len() == 0 {
                "uhhhh"@
            } else {
                "Your roleset has been updated, see changes below.\n```diff\n"@ + change_lines(
                    role_changes@,
                    names,
                ) + "```"@
            };
            "## "@ + updated_emoji + "  Server profile updated!\n"@ + body
        } else {
            "\n\t\t\t\t\t## "@ + unchanged_emoji
                + "  Server profile already up to par!\nYour profile seems up-to-date, nothing needs changing at this time!\n\t\t\t\t\t"@
        },
        SyncOperationResult::Cancelled => "cancelled"@,
    }
}

/// Writes what a sync operation reports. `role_names` holds the name of each changed
/// role, in the order of the changes.
pub fn sync_result_text(
    result: &SyncOperationResult,
    updated_emoji: &str,
    unchanged_emoji: &str,
    role_names: &Vec<String>,
) -> (text: String)
    requires
        result matches SyncOperationResult::Success { role_changes, .. } ==> role_names@.len()
            == role_changes@.len(),
    ensures
        text@ == result_text(
            *result,
            updated_emoji@,
            unchanged_emoji@,
            role_names@.map_values(|n: String| n@),
        ),
{
    let ghost names = role_names@.map_values(|n: String| n@);
    match result {
        SyncOperationResult::Success { profile_changed, role_changes } => {
            if *profile_changed {
                let mut text = String::from_str("## ");
                text.append(updated_emoji);
                text.append("  Server profile updated!\n");
                if role_changes.len() == 0 {
                    text.append("uhhhh");
                } else {
                    text.append("Your roleset has been updated, see changes below.\n```diff\n");
                    let ghost head = text@;
                    let mut i: usize = 0;
                    while i < role_changes.len()
                        invariant
                            i <= role_changes@.len(),
                            role_names@.len() == role_changes@.len(),
                            names == role_names@.map_values(|n: String| n@),
                            text@ == head + change_lines(
                                role_changes@.take(i as int),
                                names.take(i as int),
                            ),
                        decreases role_changes@.len() - i,
                    {
                        let line = role_change_line(&role_changes[i], role_names[i].as_str());
                        text.append(line.as_str());
                        text.append("\n");
                        proof {
                            assert(role_changes@.take(i + 1).drop_last() =~= role_changes@.take(i as int));
                            assert(names.take(i + 1).drop_last() =~= names.take(i as int));
                        }
                        i = i + 1;
                    }
                    proof {
                        assert(role_changes@.take(i as int) =~= role_changes@);
                        assert(names.take(i as int) =~= names);
                    }
                    text.append("```");
                }
                text
            } else {
                let mut text = String::from_str("\n\t\t\t\t\t## ");
                text.append(unchanged_emoji);
                text.append(
                    "  Server profile already up to par!\nYour profile seems up-to-date, nothing needs changing at this time!\n\t\t\t\t\t",
                );
                text
            }
        },
        SyncOperationResult::Cancelled => String::from_str("cancelled"),
    }
}

/// The message that asks a member new to Ribbon to connect a Roblox account.
pub open spec fn welcome_message(hand_wave: Seq<char>, ribbon: Seq<char>, guild_name: Seq<char>) -> Seq<char> {
    "\n\t\t\t\t\t\t\t\t\t## "@ + hand_wave + ribbon + "  Ribbon welcomes you to "@ + guild_name
        + "!\nThis server uses Ribbon to sync member profiles (roles, etc.) with the Roblox Platform.\nSince you're new to Ribbon, you'll need to connect a Roblox Account to continue. Don't fret\u{2014}it's quick, easy, and secure!\n\t\t\t\t\t\t\t\t\t"@
}

/// Writes the message that asks a member to connect a Roblox account.
pub fn welcome_text(hand_wave: &str, ribbon: &str, guild_name: &str) -> (text: String)
    ensures
        text@ == welcome_message(hand_wave@, ribbon@, guild_name@),
{
    let mut text = String::from_str("\n\t\t\t\t\t\t\t\t\t## ");
    text.append(hand_wave);
    text.append(ribbon);
    text.append("  Ribbon welcomes you to ");
    text.append(guild_name);
    text.append(
        "!\nThis server uses Ribbon to sync member profiles (roles, etc.) with the Roblox Platform.\nSince you're new to Ribbon, you'll need to connect a Roblox Account to continue. Don't fret\u{2014}it's quick, easy, and secure!\n\t\t\t\t\t\t\t\t\t",
    );
    text
}

/// A placeholder replaced by `value` where there is one.
pub open spec fn filled_in(text: Seq<char>, placeholder: Seq<char>, value: Option<Seq<char>>) -> Seq<char> {
    match value {
        Some(v) => replaced(text, placeholder, v),
        None => text,
    }
}

/// The page shown once a member's Roblox account is connected for a server: the
/// template with the Roblox avatar and name filled in where known, then the server's
/// avatar where it has one, then the server's name.
pub open spec fn finished_guild_text(
    template: Seq<char>,
    roblox_avatar: Option<Seq<char>>,
    roblox_name: Option<Seq<char>>,
    guild_avatar: Option<Seq<char>>,
    guild_name: Seq<char>,
) -> Seq<char> {
    let with_avatar = filled_in(template, "{{ roblox_avatar }}"@, roblox_avatar);
    let with_name = filled_in(with_avatar, "{{ roblox_name }}"@, roblox_name);
    let with_guild_avatar = filled_in(with_name, "{{ guild_avatar }}"@, guild_avatar);
    replaced(with_guild_avatar, "{{ guild_name }}"@, guild_name)
}

/// Filling in the Roblox avatar is the same as writing it into the template first: the
/// other values do not change how it is filled.
pub proof fn lemma_roblox_avatar_fill(
    template: Seq<char>,
    avatar: Seq<char>,
    roblox_name: Option<Seq<char>>,
    guild_avatar: Option<Seq<char>>,
    guild_name: Seq<char>,
)
    ensures
        finished_guild_text(template, Some(avatar), roblox_name, guild_avatar, guild_name) == finished_guild_text(
            replaced(template, "{{ roblox_avatar }}"@, avatar),
            None,
            roblox_name,
            guild_avatar,
            guild_name,
        ),
{
}

/// Filling in the Roblox name is the same as writing it into the template, after the
/// Roblox avatar, whatever the server's avatar and name.
pub proof fn lemma_roblox_name_fill(
    template: Seq<char>,
    roblox_avatar: Option<Seq<char>>,
    name: Seq<char>,
    guild_avatar: Option<Seq<char>>,
    guild_name: Seq<char>,
)
    ensures
        finished_guild_text(template, roblox_avatar, Some(name), guild_avatar, guild_name) == finished_guild_text(
            replaced(filled_in(template, "{{ roblox_avatar }}"@, roblox_avatar), "{{ roblox_name }}"@, name),
            None,
            None,
            guild_avatar,
            guild_name,
        ),
{
}

/// Filling in the server's avatar is the same as writing it into the template, after
/// the Roblox values, whatever they are.
pub proof fn lemma_guild_avatar_fill(
    template: Seq<char>,
    roblox_avatar: Option<Seq<char>>,
    roblox_name: Option<Seq<char>>,
    avatar: Seq<char>,
    guild_name: Seq<char>,
)
    ensures
        finished_guild_text(template, roblox_avatar, roblox_name, Some(avatar), guild_name) == finished_guild_text(
            replaced(
                filled_in(filled_in(template, "{{ roblox_avatar }}"@, roblox_avatar), "{{ roblox_name }}"@, roblox_name),
                "{{ guild_avatar }}"@,
                avatar,
            ),
            None,
            None,
            None,
            guild_name,
        ),
{
}

/// A missing value leaves its placeholder as it is: with no Roblox avatar, name or
/// server avatar, only the server's name is filled in.
pub proof fn lemma_only_guild_name(template: Seq<char>, guild_name: Seq<char>)
    ensures
        finished_guild_text(template, None, None, None, guild_name) == replaced(
            template,
            "{{ guild_name }}"@,
            guild_name,
        ),
{
}

/// Fills in the page shown once a member's Roblox account is connected for a server.
pub fn finished_guild_page(
    template: &str,
    roblox_avatar: Option<&str>,
    roblox_name: Option<&str>,
    guild_avatar: Option<&str>,
    guild_name: &str,
) -> (page: String)
    ensures
        page@ == finished_guild_text(
            template@,
            match roblox_avatar {
                Some(v) => Some(v@),
                None => None,
            },
            match roblox_name {
                Some(v) => Some(v@),
                None => None,
            },
            match guild_avatar {
                Some(v) => Some(v@),
                None => None,
            },
            guild_name@,
        ),
{
    proof {
        reveal_strlit("{{ roblox_avatar }}");
        reveal_strlit("{{ roblox_name }}");
        reveal_strlit("{{ guild_avatar }}");
        reveal_strlit("{{ guild_name }}");
    }
    let mut body = String::from_str(template);
    if let Some(avatar_url) = roblox_avatar {
        body = replace_all(body.as_str(), "{{ roblox_avatar }}", avatar_url);
    }
    if let Some(name) = roblox_name {
        body = replace_all(body.as_str(), "{{ roblox_name }}", name);
    }
    if let Some(avatar_url) = guild_avatar {
        body = replace_all(body.as_str(), "{{ guild_avatar }}", avatar_url);
    }
    replace_all(body.as_str(), "{{ guild_name }}", guild_name)
}

/// The page where a member authorises a request: `{website}/roblox_request/{request}`.
pub fn authorise_request_url(website_url: &str, request_id: &str) -> (url: String)
    ensures
        url@ == website_url@ + "/roblox_request/"@ + request_id@,
{
    let mut url = String::from_str(website_url);
    url.append("/roblox_request/");
    url.append(request_id);
    url
}

/// The dashboard link of a quick link: `{dashboard}/auth/quick_link#{token}`.
pub fn quick_link_url(dashboard_url: &str, quick_link_id: &str) -> (url: String)
    ensures
        url@ == dashboard_url@ + "/auth/quick_link#"@ + quick_link_id@,
{
    let mut url = String::from_str(dashboard_url);
    url.append("/auth/quick_link#");
    url.append(quick_link_id);
    url
}

/// The label of the button that opens a server's dashboard.
pub fn dashboard_label(guild_name: &str) -> (label: String)
    ensures
        label@ == "Visit Dashboard for "@ + guild_name@,
{
    let mut label = String::from_str("Visit Dashboard for ");
    label.append(guild_name);
    label
}

/// The Open Cloud filter that lists a user's group memberships: `user == 'users/{id}'`.
pub fn membership_filter(user_id: u64) -> (filter: String)
    ensures
        filter@ == "user == 'users/"@ + decimal_text(user_id as nat) + "'"@,
{
    let mut filter = String::from_str("user == 'users/");
    push_decimal(&mut filter, user_id);
    filter.append("'");
    filter
}

/// The data URL of a PNG image, as emoji uploads carry it.
pub fn png_data_url(png: &[u8]) -> (url: String)
    ensures
        url@ == "data:image/png;base64,"@ + base64_encoded(png@),
{
    let mut url = String::from_str("data:image/png;base64,");
    let encoded = base64_encode(png);
    url.append(encoded.as_str());
    url
}

/// The positions, in order, of the wanted emoji names that are not among the existing
/// ones: the emojis still to upload.
pub fn missing_emoji_names(wanted: &Vec<String>, existing: &Vec<String>) -> (missing: Vec<usize>)
    ensures
        forall|k: int| 0 <= k < missing@.len() ==> #[trigger] missing@[k] < wanted@.len(),
        forall|k: int, l: int| 0 <= k < l < missing@.len() ==> missing@[k] < missing@[l],
        forall|i: int| 0 <= i < wanted@.len() ==> (missing@.contains(i as usize) <==> !existing@.map_values(
            |n: String| n@,
        ).contains(#[trigger] wanted@[i]@)),
{
    let ghost names = existing@.map_values(|n: String| n@);
    let mut missing: Vec<usize> = Vec::new();
    let mut i: usize = 0;
    while i < wanted.len()
        invariant
            i <= wanted@.len(),
            names == existing@.map_values(|n: String| n@),
            forall|k: int| 0 <= k < missing@.len() ==> #[trigger] missing@[k] < i,
            forall|k: int, l: int| 0 <= k < l < missing@.len() ==> missing@[k] < missing@[l],
            forall|j: int| 0 <= j < i ==> (missing@.contains(j as usize) <==> !names.contains(
                #[trigger] wanted@[j]@,
            )),
        decreases wanted@.len() - i,
    {
        let mut found = false;
        let mut j: usize = 0;
        while j < existing.len()
            invariant
                i < wanted@.len(),
                j <= existing@.len(),
                names == existing@.map_values(|n: String| n@),
                found <==> exists|k: int| 0 <= k < j && names[k] == wanted@[i as int]@,
            decreases existing@.len() - j,
        {
            assert(names[j as int] == existing@[j as int]@);
            if crate::commands::text_eq(existing[j].as_str(), wanted[i].as_str()) {
                found = true;
            }
            j = j + 1;
        }
        let ghost before = missing@;
        if !found {
            missing.push(i);
        }
        proof {
            assert forall|j: int| 0 <= j < i + 1 implies (missing@.contains(j as usize) <==> !names.contains(
                #[trigger] wanted@[j]@,
            )) by {
                if j < i {
                    if missing@.contains(j as usize) {
                        let k = choose|k: int| 0 <= k < missing@.len() && missing@[k] == j as usize;
                        if k >= before.len() {
                            assert(missing@[k] == i);
                        }
                        assert(before.contains(j as usize));
                    }
                    if before.contains(j as usize) {
                        let k = choose|k: int| 0 <= k < before.len() && before[k] == j as usize;
                        assert(missing@[k] == j as usize);
                    }
                } else {
                    if names.contains(wanted@[j]@) {
                        let k = choose|k: int| 0 <= k < names.len() && names[k] == wanted@[j]@;
                    }
                    if !found {
                        assert(missing@[missing@.len() - 1] == i);
                    } else {
                        if missing@.contains(j as usize) {
                            let k = choose|k: int| 0 <= k < missing@.len() && missing@[k] == j as usize;
                            assert(before[k] < i);
                        }
                    }
                }
            }
        }
        i = i + 1;
    }
    missing
}

} // verus!
