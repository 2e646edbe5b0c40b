//! Ribbon's own records: authorisation requests, dashboard quick links, servers,
//! emojis and the Roblox user seen at sign-in.
use vstd::prelude::*;
use crate::interaction::InteractionRef;
use crate::text::push_char;

verus! {

/// The outside random number generator of the current thread.
#[verifier::external_type_specification]
#[verifier::external_body]
pub struct ExThreadRng(rand::rngs::ThreadRng);

/// `rand::rng`: the current thread's generator. Nothing is promised of its state.
#[verifier::external_body]
fn thread_rng() -> rand::rngs::ThreadRng {
    rand::rng()
}

/// Whether a byte is an ASCII letter or digit.
pub open spec fn is_alphanumeric_byte(b: u8) -> bool {
    (0x41 <= b && b <= 0x5a) || (0x61 <= b && b <= 0x7a) || (0x30 <= b && b <= 0x39)
}

/// Whether a character is an ASCII letter or digit.
pub open spec fn is_alphanumeric_char(c: char) -> bool {
    ('A' <= c && c <= 'Z') || ('a' <= c && c <= 'z') || ('0' <= c && c <= '9')
}

/// `Rng::sample` with the `Alphanumeric` distribution: one byte drawn from the ASCII
/// letters and digits. Which one is left to chance.
#[verifier::external_body]
fn sample_alphanumeric(rng: &mut rand::rngs::ThreadRng) -> (b: u8)
    ensures
        is_alphanumeric_byte(b),
{
    rand::Rng::sample(rng, rand::distr::Alphanumeric)
}

/// The length of the random tokens that name requests and quick links.
pub const TOKEN_LENGTH: usize = 24;

/// Whether the text could be a random token: 24 ASCII letters and digits.
pub open spec fn is_token(s: Seq<char>) -> bool {
    &&& s.len() == TOKEN_LENGTH
    &&& forall|i: int| 0 <= i < s.len() ==> is_alphanumeric_char(#[trigger] s[i])
}

/// The text of a token drawn as bytes: each byte as a character, in order.
pub fn token_from_draws(draws: &[u8]) -> (token: String)
    ensures
        token@ == Seq::new(draws@.len(), |i: int| draws@[i] as char),
{
    let mut token = String::new();
    let mut i: usize = 0;
    while i < draws.len()
        invariant
            i <= draws@.len(),
            token@ == Seq::new(i as nat, |k: int| draws@[k] as char),
        decreases draws@.len() - i,
    {
        push_char(&mut token, draws[i] as char);
        i = i + 1;
        assert(token@ =~= Seq::new(i as nat, |k: int| draws@[k] as char));
    }
    token
}

/// A fresh random token of 24 ASCII letters and digits.
pub fn new_token() -> (token: String)
    ensures
        is_token(token@),
{
    let mut rng = thread_rng();
    let mut draws: Vec<u8> = Vec::new();
    let mut i: usize = 0;
    while i < TOKEN_LENGTH
        invariant
            i <= TOKEN_LENGTH,
            draws@.len() == i,
            forall|k: int| 0 <= k < i ==> is_alphanumeric_byte(#[trigger] draws@[k]),
        decreases TOKEN_LENGTH - i,
    {
        draws.push(sample_alphanumeric(&mut rng));
        i = i + 1;
    }
    let token = token_from_draws(draws.as_slice());
    assert forall|k: int| 0 <= k < token@.len() implies is_alphanumeric_char(#[trigger] token@[k]) by {
        assert(is_alphanumeric_byte(draws@[k]));
    }
    token
}

/// What a member is asked to authorise on Roblox.
#[derive(Clone, Copy, Debug, PartialEq, Eq, Structural)]
pub enum AuthoriseRequestKind {
    AddRobloxAccount,
    AddRobloxCommunities,
}

/// A pending request for a member to authorise Ribbon on Roblox, named by a random token.
pub struct AuthoriseRequestModel {
    pub id: String,
    pub kind: AuthoriseRequestKind,
    pub interaction: InteractionRef,
}

impl AuthoriseRequestModel {
    /// A new request of `request_kind` for the member of `interaction`, with a fresh token.
    pub fn new(interaction: InteractionRef, request_kind: AuthoriseRequestKind) -> (request: AuthoriseRequestModel)
        ensures
            is_token(request.id@),
            request.kind == request_kind,
            request.interaction == interaction,
    {
        AuthoriseRequestModel { id: new_token(), kind: request_kind, interaction }
    }

    /// A request to connect a Roblox account.
    pub fn add_roblox_account(interaction: InteractionRef) -> (request: AuthoriseRequestModel)
        ensures
            is_token(request.id@),
            request.kind == AuthoriseRequestKind::AddRobloxAccount,
            request.interaction == interaction,
    {
        AuthoriseRequestModel::new(interaction, AuthoriseRequestKind::AddRobloxAccount)
    }

    /// A request to grant access to Roblox communities.
    pub fn add_roblox_communities(interaction: InteractionRef) -> (request: AuthoriseRequestModel)
        ensures
            is_token(request.id@),
            request.kind == AuthoriseRequestKind::AddRobloxCommunities,
            request.interaction == interaction,
    {
        AuthoriseRequestModel::new(interaction, AuthoriseRequestKind::AddRobloxCommunities)
    }

    pub fn guild_id(&self) -> (guild_id: Option<u64>)
        ensures
            guild_id == self.interaction.guild_id,
    {
        self.interaction.guild_id
    }

    pub fn user_id(&self) -> (user_id: Option<u64>)
        ensures
            user_id == self.interaction.user_id,
    {
        self.interaction.user_id
    }
}

/// A one-use link into the dashboard, named by a random token.
pub struct WebsiteQuickLinkModel {
    pub id: String,
    pub origin_server_id: Option<u64>,
    pub origin_user_id: u64,
}

impl WebsiteQuickLinkModel {
    /// A new quick link for `user_id`, from `server_id` where there is one.
    pub fn new(user_id: u64, server_id: Option<u64>) -> (link: WebsiteQuickLinkModel)
        ensures
            is_token(link.id@),
            link.origin_server_id == server_id,
            link.origin_user_id == user_id,
    {
        WebsiteQuickLinkModel { id: new_token(), origin_server_id: server_id, origin_user_id: user_id }
    }
}

/// A Discord server that uses Ribbon.
pub struct ServerModel {
    pub id: u64,
    pub display_name: String,
}

impl ServerModel {
    /// The record of a server known only by its id; its name is a placeholder.
    pub fn from_guild_id(guild_id: u64) -> (server: ServerModel)
        ensures
            server.id == guild_id,
            server.display_name@ == "placeholder"@,
    {
        ServerModel { id: guild_id, display_name: String::from_str("placeholder") }
    }
}

/// A third-party integration that a member set up for a server.
pub struct IntegrationModel {
    pub author_id: u64,
    pub server_id: u64,
}

/// The scopes that a Roblox Open Cloud authorisation grants.
pub struct OpenCloudAuthorisationMetadata {
    pub scopes: Vec<String>,
}

/// An emoji the application owns.
pub struct EmojiModel {
    pub id: u64,
    pub name: String,
}

/// The Roblox user that signed in through OAuth.
pub struct RobloxUser {
    pub sub: u64,
    pub name: Option<String>,
    pub preferred_username: Option<String>,
    pub profile: Option<String>,
    pub picture: Option<String>,
}

impl RobloxUser {
    /// The name to show for the user: the display name, else the preferred username.
    pub fn shown_name(&self) -> (name: Option<&String>)
        ensures
            name == (match self.name {
                Some(n) => Some(&n),
                None => match self.preferred_username {
                    Some(p) => Some(&p),
                    None => None,
                },
            }),
    {
        match &self.name {
            Some(n) => Some(n),
            None => match &self.preferred_username {
                Some(p) => Some(p),
                None => None,
            },
        }
    }
}

/// The token of an authorisation request named in an OAuth state: the state with its
/// leading "r_" taken off, or `None` where it does not start with "r_".
pub fn request_token_from_state(state: &str) -> (token: Option<&str>)
    ensures
        token is Some <==> state@.len() >= 2 && state@[0] == 'r' && state@[1] == '_',
        token matches Some(t) ==> t@ == state@.skip(2),
{
    let len = state.unicode_len();
    if len >= 2 && state.get_char(0) == 'r' && state.get_char(1) == '_' {
        let token = state.substring_char(2, len);
        assert(token@ =~= state@.skip(2));
        Some(token)
    } else {
        None
    }
}

} // verus!
