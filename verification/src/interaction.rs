//! What the bot keeps of a Discord interaction to answer it later.
use vstd::prelude::*;

verus! {

/// The kind of a Discord interaction.
#[derive(Clone, Copy, Debug, PartialEq, Eq, Structural)]
pub enum InteractionKind {
    Ping,
    ApplicationCommand,
    MessageComponent,
    ApplicationCommandAutocomplete,
    ModalSubmit,
}

/// An interaction, held by its ids and the token that answers it.
pub struct InteractionRef {
    pub id: u64,
    pub kind: InteractionKind,
    pub token: String,
    pub guild_id: Option<u64>,
    pub user_id: Option<u64>,
}

impl InteractionRef {
    /// A copy of the reference, field for field.
    pub fn duplicate(&self) -> (copy: InteractionRef)
        ensures
            copy.id == self.id,
            copy.kind == self.kind,
            copy.token@ == self.token@,
            copy.guild_id == self.guild_id,
            copy.user_id == self.user_id,
    {
        InteractionRef {
            id: self.id,
            kind: self.kind,
            token: self.token.clone(),
            guild_id: self.guild_id,
            user_id: self.user_id,
        }
    }
}

} // verus!
