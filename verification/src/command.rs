//! Commands that client sessions send to the game, and the game's answers.
use vstd::prelude::*;

use crate::codec::{bitcode_text_bytes, bitcode_text_decoded, decode_text, encode_text};
use crate::decimal::{i16_to_chars, int_text, lemma_i16_text_round_trip};
use crate::text::{copy_string, string_of};

verus! {

/// The game's answer to a command: optional bytes, or an error code.
pub struct CommandResponse {
    pub response: Result<Option<Vec<u8>>, i16>,
}

impl CommandResponse {
    /// An answer that carries `response`.
    pub fn new(response: Result<Option<Vec<u8>>, i16>) -> (answer: Self)
        ensures
            answer.response == response,
    {
        CommandResponse { response }
    }

    /// A failed answer with the error code `code`.
    pub fn new_err(code: i16) -> (answer: Self)
        ensures
            answer.response == Err::<Option<Vec<u8>>, i16>(code),
    {
        CommandResponse { response: Err(code) }
    }
}

/// The answer that a session acts on: the game's, or a failure with
/// `COMMAND_FAILED` when the answer channel broke.
pub fn received_or_failed(received: Option<CommandResponse>) -> (answer: CommandResponse)
    ensures
        match received {
            Some(r) => answer.response == r.response,
            None => answer.response == Err::<Option<Vec<u8>>, i16>(COMMAND_FAILED),
        },
{
    match received {
        Some(r) => r,
        None => CommandResponse::new(Err(COMMAND_FAILED)),
    }
}

/// What a player asks the game to do.
#[derive(Debug, Clone, Copy, PartialEq, Eq)]
pub enum ActionType {
    /// No action (`None` in the game's own naming).
    NoAction,
    SetBearing,
}

/// An action of a player, with its encoded arguments.
pub struct Action {
    pub player_id: String,
    pub action_type: ActionType,
    pub args: Vec<u8>,
}

impl Action {
    /// The action `action_type` of the player `player_id` with arguments `args`.
    pub fn new(player_id: String, action_type: ActionType, args: Vec<u8>) -> (action: Self)
        ensures
            action.player_id@ == player_id@,
            action.action_type == action_type,
            action.args@ == args@,
    {
        Action { player_id, action_type, args }
    }
}

/// A command as it travels to the game: who sent it (if a player), the id of the
/// packet that asked for it, its kind and its encoded arguments. (The channel
/// on which the game answers travels beside it.)
pub struct CommandRequest {
    pub issuer: Option<String>,
    pub packet_id: String,
    pub cmd_type: i16,
    pub arguments: Option<Vec<u8>>,
}

/// The kind of command that creates a character.
pub const CREATE_CHARACTER: i16 = 0;

/// The error code of a command that the game could not carry out.
pub const COMMAND_FAILED: i16 = -1;

/// Why creating a character gave no player id.
#[derive(Debug, Clone, Copy, PartialEq, Eq)]
pub enum CreateCharacterError {
    /// The session already has a character.
    AlreadyCreated,
    /// The game answered with this error code.
    Rejected(i16),
    /// The game's success answer carried no bytes.
    MissingPlayerId,
    /// The game's success answer held no encoded text.
    UndecodablePlayerId,
}

/// The session side of the command channel: the player it created, if any.
pub struct CommandHandlerClient {
    pub player_id: Option<String>,
}

/// The text of an optional string.
pub open spec fn opt_text(s: Option<String>) -> Option<Seq<char>> {
    match s {
        Some(t) => Some(t@),
        None => None,
    }
}

/// What the answer to a create-character command gives the session: the new
/// player's id when the game succeeded with an encoded text.
pub open spec fn created_player_id(response: Result<Option<Vec<u8>>, i16>) -> Result<
    Seq<char>,
    CreateCharacterError,
> {
    match response {
        Ok(Some(bytes)) => match bitcode_text_decoded(bytes@) {
            Some(t) => Ok(t),
            None => Err(CreateCharacterError::UndecodablePlayerId),
        },
        Ok(None) => Err(CreateCharacterError::MissingPlayerId),
        Err(code) => Err(CreateCharacterError::Rejected(code)),
    }
}

/// The session's player after a create-character request came back with
/// `created`: a session with no player becomes the created one; a session that
/// has a player keeps it.
pub open spec fn player_after(current: Option<Seq<char>>, created: Option<Seq<char>>) -> Option<
    Seq<char>,
> {
    match current {
        Some(p) => Some(p),
        None => created,
    }
}

/// The session's player after a run of create-character outcomes, in order.
pub open spec fn player_after_all(current: Option<Seq<char>>, outcomes: Seq<Option<Seq<char>>>) -> Option<
    Seq<char>,
>
    decreases outcomes.len(),
{
    if outcomes.len() == 0 {
        current
    } else {
        player_after_all(player_after(current, outcomes[0]), outcomes.drop_first())
    }
}

/// The first player that a run of create-character outcomes created, if any.
pub open spec fn first_created(outcomes: Seq<Option<Seq<char>>>) -> Option<Seq<char>>
    decreases outcomes.len(),
{
    if outcomes.len() == 0 {
        None
    } else if outcomes[0] is Some {
        outcomes[0]
    } else {
        first_created(outcomes.drop_first())
    }
}

/// A session's player is set at most once: whatever create-character outcomes
/// follow, a session that has a player keeps it, and a session that has none ends
/// with the first player created.
pub proof fn lemma_player_set_once(current: Option<Seq<char>>, outcomes: Seq<Option<Seq<char>>>)
    ensures
        current is Some ==> player_after_all(current, outcomes) == current,
        current is None ==> player_after_all(current, outcomes) == first_created(outcomes),
    decreases outcomes.len(),
{
    if outcomes.len() > 0 {
        lemma_player_set_once(player_after(current, outcomes[0]), outcomes.drop_first());
    }
}

impl CommandHandlerClient {
    /// A session side with no character yet.
    pub fn new() -> (client: Self)
        ensures
            client.player_id is None,
    {
        CommandHandlerClient { player_id: None }
    }

    /// Records the session's player.
    pub fn set_player_id(&mut self, id: &String)
        ensures
            opt_text(final(self).player_id) == Some(id@),
    {
        self.player_id = Some(copy_string(id));
    }

    /// Takes in what a create-character request gave (`Some` id when it created a
    /// player): the session records it only if it has no player yet, and says
    /// whether it did.
    pub fn record_created(&mut self, created: &Option<String>) -> (recorded: bool)
        ensures
            recorded == (old(self).player_id is None && created is Some),
            opt_text(final(self).player_id) == player_after(
                opt_text(old(self).player_id),
                opt_text(*created),
            ),
    {
        if self.player_id.is_none() {
            if let Some(id) = created {
                self.player_id = Some(copy_string(id));
                return true;
            }
        }
        false
    }

    /// The command that asks the game for a character, unless the session has one:
    /// no issuer, kind `CREATE_CHARACTER`, the packet's id and its payload.
    pub fn create_character_command(&self, packet_id: &String, payload: Option<Vec<u8>>) -> (cmd:
        Option<CommandRequest>)
        ensures
            cmd is None <==> self.player_id is Some,
            cmd matches Some(c) ==> {
                &&& c.issuer is None
                &&& c.packet_id@ == packet_id@
                &&& c.cmd_type == CREATE_CHARACTER
                &&& c.arguments == payload
            },
    {
        if self.player_id.is_some() {
            return None;
        }
        Some(
            CommandRequest {
                issuer: None,
                packet_id: copy_string(packet_id),
                cmd_type: CREATE_CHARACTER,
                arguments: payload,
            },
        )
    }

    /// The player id that the game's answer to a create-character command carries;
    /// the id that `GameManager::process_command` encodes is read back as it was.
    pub fn create_character_result(response: &CommandResponse) -> (r: Result<
        String,
        CreateCharacterError,
    >)
        ensures
            match r {
                Ok(id) => created_player_id(response.response) == Ok::<
                    Seq<char>,
                    CreateCharacterError,
                >(id@),
                Err(e) => created_player_id(response.response) == Err::<
                    Seq<char>,
                    CreateCharacterError,
                >(e),
            },
            forall|t: Seq<char>|
                #![trigger bitcode_text_bytes(t)]
                (response.response matches Ok(Some(b)) && b@ == bitcode_text_bytes(t)) ==> (r is Ok
                    && r->Ok_0@ == t),
    {
        match &response.response {
            Ok(Some(data)) => match decode_text(data.as_slice()) {
                Ok(id) => Ok(id),
                Err(_) => Err(CreateCharacterError::UndecodablePlayerId),
            },
            Ok(None) => Err(CreateCharacterError::MissingPlayerId),
            Err(code) => Err(CreateCharacterError::Rejected(*code)),
        }
    }
}

/// What the game does with a command.
pub enum CommandDecision {
    /// Add a player with this id and name, and answer with `reply`.
    CreatePlayer { player_id: String, username: String, reply: CommandResponse },
    /// Answer with `reply` and change nothing.
    Reject { reply: CommandResponse },
    /// The create-character arguments hold no encoded name: the game stops here.
    MalformedUsername,
}

/// The game's bookkeeping of player ids: the next id it hands out.
pub struct GameManager {
    pub rolling_id: i16,
}

impl GameManager {
    /// Player ids start at 1.
    pub fn new() -> (manager: Self)
        ensures
            manager.rolling_id == 1,
    {
        GameManager { rolling_id: 1 }
    }

    /// Hands out the next player id, in decimal, and moves on.
    pub fn next_id(&mut self) -> (id: String)
        requires
            old(self).rolling_id < i16::MAX,
        ensures
            id@ == int_text(old(self).rolling_id as int),
            final(self).rolling_id == old(self).rolling_id + 1,
    {
        let id = self.rolling_id;
        self.rolling_id = self.rolling_id + 1;
        string_of(&i16_to_chars(id))
    }

    /// What the game does with a command: a create-character command whose
    /// arguments hold an encoded name adds a player under the next id and answers
    /// with that id, encoded; any other command is answered with `COMMAND_FAILED`.
    pub fn process_command(&mut self, command: &CommandRequest) -> (decision: CommandDecision)
        requires
            command.cmd_type == CREATE_CHARACTER && command.arguments is Some ==> old(
                self,
            ).rolling_id < i16::MAX,
        ensures
            match decision {
                CommandDecision::CreatePlayer { player_id, username, reply } => {
                    &&& command.cmd_type == CREATE_CHARACTER
                    &&& command.arguments matches Some(data)
                    &&& bitcode_text_decoded(data@) == Some(username@)
                    &&& player_id@ == int_text(old(self).rolling_id as int)
                    &&& reply.response matches Ok(Some(b))
                    &&& b@ == bitcode_text_bytes(player_id@)
                    &&& final(self).rolling_id == old(self).rolling_id + 1
                },
                CommandDecision::Reject { reply } => {
                    &&& !(command.cmd_type == CREATE_CHARACTER && command.arguments is Some)
                    &&& reply.response == Err::<Option<Vec<u8>>, i16>(COMMAND_FAILED)
                    &&& final(self).rolling_id == old(self).rolling_id
                },
                CommandDecision::MalformedUsername => {
                    &&& command.cmd_type == CREATE_CHARACTER
                    &&& command.arguments matches Some(data)
                    &&& bitcode_text_decoded(data@) is None
                    &&& final(self).rolling_id == old(self).rolling_id
                },
            },
    {
        if command.cmd_type == CREATE_CHARACTER {
            if let Some(data) = &command.arguments {
                match decode_text(data.as_slice()) {
                    Ok(username) => {
                        let player_id = self.next_id();
                        let reply = CommandResponse::new(Ok(Some(encode_text(&player_id))));
                        return CommandDecision::CreatePlayer { player_id, username, reply };
                    },
                    Err(_) => {
                        return CommandDecision::MalformedUsername;
                    },
                }
            }
        }
        CommandDecision::Reject { reply: CommandResponse::new_err(COMMAND_FAILED) }
    }
}

/// Different counter values give different player ids.
pub proof fn lemma_player_ids_distinct(a: i16, b: i16)
    requires
        a != b,
    ensures
        int_text(a as int) != int_text(b as int),
{
    lemma_i16_text_round_trip(a);
    lemma_i16_text_round_trip(b);
}

} // verus!
