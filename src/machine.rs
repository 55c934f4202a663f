//! The game's transition rules, as functions from the registry and an
//! incoming event to the next registry and the outgoing effect.
//!
//! A suspended call is later run again from its start, so every rule reads
//! the recorded status first: the first run and the resumed run of a call
//! share one rule.
use vstd::prelude::*;

use crate::consts::game_rules::MAX_ATTEMPTS;
use crate::error::SessionError;
use crate::ids::{ActorId, MessageId};
use crate::io::{status_of_event, Action, Event, GameOverStatus, GameStatus, WordleAction, WordleEvent};
use crate::player::{is_playing_status, is_waiting_status, Correlation, PlayerInfo};
use crate::word::word_shape;

verus! {

/// What the proxy does after handling a call.
#[derive(Clone, Debug, PartialEq, Eq)]
pub enum Effect {
    /// Reply with the event to the call being handled.
    Reply(Event),
    /// Send the request to the word service, record it (`begin_start` or
    /// `begin_check`) and suspend the call until the answer comes.
    Forward(WordleAction),
    /// Send `event` to `user`.
    Notify { user: ActorId, event: Event },
    /// Nothing to send: a stale or finished check.
    Ignore,
}

/// The registry of games: user to game.
pub type Registry = Map<ActorId, PlayerInfo>;

/// Attempts never pass the ceiling, and a game that reached it is over.
pub open spec fn registry_ok(m: Registry) -> bool {
    forall|k: ActorId|
        m.contains_key(k) ==> {
            &&& (#[trigger] m[k]).attempts_count <= MAX_ATTEMPTS
            &&& !(m[k].game_status is Completed) ==> m[k].attempts_count < MAX_ATTEMPTS
        }
}

/// `p` with another status.
pub open spec fn with_status(p: PlayerInfo, s: GameStatus) -> PlayerInfo {
    PlayerInfo { game_status: s, ..p }
}

/// A start request from `user` in the call `call_id`.
///
/// With no game, or a finished one, the start goes to the word service and
/// the registry is left as it is until the request is sent. The resumed call
/// of a confirmed start moves the game to `InProgress`. Any other start while a
/// game exists is refused.
pub open spec fn start_step(m: Registry, user: ActorId, call_id: MessageId) -> (
    Registry,
    Result<Effect, SessionError>,
) {
    if !m.contains_key(user) || m[user].game_status is Completed {
        (m, Ok(Effect::Forward(WordleAction::StartGame { user })))
    } else if m[user].game_status is Started && m[user].pending.call_id == call_id {
        (
            m.insert(user, with_status(m[user], GameStatus::InProgress)),
            Ok(Effect::Reply(Event::GameStarted)),
        )
    } else {
        (m, Err(SessionError::SessionConflict))
    }
}

/// The registry once the start request `sent_id` of the call `call_id` has
/// been sent: a fresh game whose generation is `call_id`.
pub open spec fn begin_start_next(
    m: Registry,
    user: ActorId,
    sent_id: MessageId,
    call_id: MessageId,
) -> Registry {
    m.insert(user, PlayerInfo::spec_new(sent_id, call_id))
}

/// The game and the reply once an answered guess is taken into account.
pub open spec fn finish_round(p: PlayerInfo) -> (PlayerInfo, Event)
    recommends
        p.game_status is WordChecked,
{
    let attempts = (p.attempts_count + 1) as u32;
    match p.game_status {
        GameStatus::WordChecked { correct_positions, contained_in_word, is_guessed } => {
            if is_guessed {
                (
                    PlayerInfo {
                        game_status: GameStatus::Completed(GameOverStatus::Win),
                        attempts_count: attempts,
                        ..p
                    },
                    Event::GameOver(GameOverStatus::Win),
                )
            } else if attempts == MAX_ATTEMPTS {
                (
                    PlayerInfo {
                        game_status: GameStatus::Completed(GameOverStatus::Lose),
                        attempts_count: attempts,
                        ..p
                    },
                    Event::GameOver(GameOverStatus::Lose),
                )
            } else {
                (
                    PlayerInfo {
                        game_status: GameStatus::InProgress,
                        attempts_count: attempts,
                        ..p
                    },
                    Event::WordChecked { correct_positions, contained_in_word },
                )
            }
        },
        _ => (p, Event::GameStarted),
    }
}

/// A guess `word` from `user`.
///
/// An answered guess is finished first, whatever the word. Otherwise the
/// word's shape is tested and a well-shaped word goes to the word service; the
/// registry is left as it is until the request is sent.
pub open spec fn guess_step(m: Registry, user: ActorId, word: String) -> (
    Registry,
    Result<Effect, SessionError>,
) {
    if !m.contains_key(user) {
        (m, Err(SessionError::SessionNotFound))
    } else if !is_playing_status(m[user].game_status) {
        (m, Err(SessionError::SessionNotPlayable))
    } else if m[user].game_status is WordChecked {
        (m.insert(user, finish_round(m[user]).0), Ok(Effect::Reply(finish_round(m[user]).1)))
    } else {
        match word_shape(word@) {
            Err(e) => (m, Err(SessionError::InvalidWordShape(e))),
            Ok(_) => (m, Ok(Effect::Forward(WordleAction::CheckWord { user, word }))),
        }
    }
}

/// The registry once the guess request `sent_id` of the call `call_id` has
/// been sent: the game waits for the answer, if it is still being played.
pub open spec fn begin_check_next(
    m: Registry,
    user: ActorId,
    sent_id: MessageId,
    call_id: MessageId,
) -> Registry {
    if m.contains_key(user) && is_playing_status(m[user].game_status) {
        m.insert(
            user,
            PlayerInfo {
                game_status: GameStatus::CheckingWord,
                pending: Correlation { request_id: sent_id, call_id },
                ..m[user]
            },
        )
    } else {
        m
    }
}

/// The deferred check of `user`'s game of generation `init_id`, sent by `source`.
///
/// Only the proxy itself may send it. A finished game, or one restarted since
/// (another generation), is left alone; otherwise the game has stalled and
/// is lost.
pub open spec fn liveness_step(
    m: Registry,
    source: ActorId,
    program_id: ActorId,
    user: ActorId,
    init_id: MessageId,
) -> (Registry, Result<Effect, SessionError>) {
    if source != program_id {
        (m, Err(SessionError::UnauthorizedCaller))
    } else if !m.contains_key(user) {
        (m, Err(SessionError::SessionNotFound))
    } else if m[user].game_status is Completed {
        (m, Ok(Effect::Ignore))
    } else if init_id == m[user].init_msg_id {
        (
            m.insert(user, with_status(m[user], GameStatus::Completed(GameOverStatus::Lose))),
            Ok(Effect::Notify { user, event: Event::GameOver(GameOverStatus::Lose) }),
        )
    } else {
        (m, Ok(Effect::Ignore))
    }
}

/// The word service's answer `event` to the message `reply_to`.
///
/// Only the answer to the pending request of a waiting game counts: it sets
/// the status and names the call to resume. Any other answer is stale.
pub open spec fn reply_step(m: Registry, reply_to: MessageId, event: WordleEvent) -> (
    Registry,
    Result<Option<MessageId>, SessionError>,
) {
    let user = event.spec_user();
    if !m.contains_key(user) {
        (m, Err(SessionError::SessionNotFound))
    } else if is_waiting_status(m[user].game_status) && reply_to == m[user].pending.request_id {
        (m.insert(user, with_status(m[user], status_of_event(event))), Ok(Some(m[user].pending.call_id)))
    } else {
        (m, Ok(None))
    }
}

/// The call `call_id` of `source` carrying `action`, handled by the proxy
/// `program_id`.
pub open spec fn handle_step(
    m: Registry,
    program_id: ActorId,
    source: ActorId,
    call_id: MessageId,
    action: Action,
) -> (Registry, Result<Effect, SessionError>) {
    match action {
        Action::StartGame => start_step(m, source, call_id),
        Action::CheckWord { word } => guess_step(m, source, word),
        Action::CheckGameStatus { user, init_id } => liveness_step(
            m,
            source,
            program_id,
            user,
            init_id,
        ),
    }
}

} // verus!
