use vstd::prelude::*;

verus! {

use crate::message::Message;
use crate::store::SessionConfig;
use crate::store::SessionStore;

/// Who speaks a prompt turn.
#[derive(Clone, Copy, PartialEq, Eq, Structural, Debug)]
pub enum Role {
    System,
    User,
}

/// One role-tagged text turn of the prompt handed to the completion API.
pub struct PromptTurn {
    pub role: Role,
    pub text: String,
}

/// Why a completion attempt failed. Every failure is recoverable for the
/// single request that hit it: the caller answers it with a server error
/// and the shared configuration store is never touched.
#[derive(Clone, Copy, PartialEq, Eq, Structural, Debug)]
pub enum AdapterFailure {
    /// No API credential was available at startup.
    MissingCredential,
    /// The API client could not be constructed.
    ClientBuild,
    /// The network call failed or the API answered with an error.
    Api,
}

/// The system-role greeting line, interpolating the player's name.
pub open spec fn system_greeting(player_name: Seq<char>) -> Seq<char> {
    "Greet them by their name "@ + player_name
}

/// The fallback body when a completion carries no text.
pub open spec fn no_content_fallback() -> Seq<char> {
    "No content returned."@
}

/// Builds the two-turn prompt for the completion API: a system turn that
/// greets the player by the configured name, then the user's text verbatim.
pub fn build_prompt(config: &SessionConfig, m: &Message) -> (turns: Vec<PromptTurn>)
    ensures
        turns@.len() == 2,
        turns@[0].role == Role::System,
        turns@[0].text@ == system_greeting(config@.player_name),
        turns@[1].role == Role::User,
        turns@[1].text@ == m@,
{
    let mut greeting = String::from_str("Greet them by their name ");
    greeting.append(config.player_name.as_str());
    let mut turns: Vec<PromptTurn> = Vec::new();
    turns.push(PromptTurn { role: Role::System, text: greeting });
    turns.push(PromptTurn { role: Role::User, text: m.content.clone() });
    turns
}

/// The request half of the relay handler: snapshot the current
/// configuration and build the prompt from it and the user's message.
/// The caller performs the network call on the returned turns; it needs no
/// access to the store for that, so no lock is held while waiting.
pub fn response_request(store: &SessionStore, m: &Message) -> (turns: Vec<PromptTurn>)
    ensures
        turns@.len() == 2,
        turns@[0].role == Role::System,
        turns@[0].text@ == system_greeting(store@.player_name),
        turns@[1].role == Role::User,
        turns@[1].text@ == m@,
{
    let config = store.read();
    build_prompt(&config, m)
}

/// The reply half of the relay handler: maps the adapter's outcome into
/// the response body. Returned text is relayed verbatim; a completion with
/// no text becomes the fixed fallback; a failure is handed back unchanged
/// for the caller to surface as a per-request server error. The result is
/// `Ok` if and only if the adapter succeeded. The store is not touched:
/// this function has no access to it.
pub fn response_reply(outcome: Result<Option<String>, AdapterFailure>) -> (r: Result<
    Message,
    AdapterFailure,
>)
    ensures
        match outcome {
            Ok(text) => match text {
                Some(t) => (r matches Ok(m) && m@ == t@),
                None => (r matches Ok(m) && m@ == no_content_fallback()),
            },
            Err(e) => (r matches Err(e2) && e2 == e),
        },
{
    match outcome {
        Ok(Some(t)) => Ok(Message { content: t }),
        Ok(None) => Ok(Message { content: String::from_str("No content returned.") }),
        Err(e) => Err(e),
    }
}

} // verus!
