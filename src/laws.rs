//! Properties of the transition rules that hold for every registry and input.
use vstd::prelude::*;
use vstd::utf8::encode_utf8;

use crate::consts::game_rules::{MAX_ATTEMPTS, WORD_LENGTH};
use crate::error::SessionError;
use crate::ids::{ActorId, MessageId};
use crate::io::{Event, GameOverStatus, GameStatus, WordleAction, WordleEvent};
use crate::machine::{
    begin_check_next, begin_start_next, guess_step, liveness_step, registry_ok, reply_step,
    start_step, Effect, Registry,
};
use crate::word::all_lowercase;

verus! {

/// A user with no game, or a finished one, who asks to start gets the
/// request forwarded; once the word service confirms it, the resumed call
/// replies `GameStarted` and leaves the game `InProgress` with no attempts.
pub proof fn lemma_fresh_start_reaches_in_progress(
    m: Registry,
    user: ActorId,
    call_id: MessageId,
    sent_id: MessageId,
)
    requires
        !m.contains_key(user) || m[user].game_status is Completed,
    ensures
        start_step(m, user, call_id) == (m, Ok::<Effect, SessionError>(
            Effect::Forward(WordleAction::StartGame { user }),
        )),
        ({
            let m1 = begin_start_next(m, user, sent_id, call_id);
            let (m2, woken) = reply_step(m1, sent_id, WordleEvent::GameStarted { user });
            let (m3, r) = start_step(m2, user, call_id);
            &&& woken == Ok::<Option<MessageId>, SessionError>(Some(call_id))
            &&& r == Ok::<Effect, SessionError>(Effect::Reply(Event::GameStarted))
            &&& m3.contains_key(user)
            &&& m3[user].game_status == GameStatus::InProgress
            &&& m3[user].attempts_count == 0
        }),
{
}

/// A start from any call but the resumed one, while the user's game is
/// starting, started or being played, is refused and changes nothing.
pub proof fn lemma_start_while_active_conflicts(m: Registry, user: ActorId, call_id: MessageId)
    requires
        m.contains_key(user),
        !(m[user].game_status is Completed),
        !(m[user].game_status is Started && m[user].pending.call_id == call_id),
    ensures
        start_step(m, user, call_id) == (m, Err::<Effect, SessionError>(
            SessionError::SessionConflict,
        )),
{
}

/// A guess of the wrong length, or with a character that is not lowercase,
/// in a game that waits for a guess or for an answer, is refused as
/// misshapen and changes nothing, attempts included.
pub proof fn lemma_misshapen_word_rejected(m: Registry, user: ActorId, word: String)
    requires
        m.contains_key(user),
        m[user].game_status is InProgress || m[user].game_status is CheckingWord,
        encode_utf8(word@).len() != WORD_LENGTH || !all_lowercase(word@),
    ensures
        guess_step(m, user, word).0 == m,
        guess_step(m, user, word).1 matches Err(SessionError::InvalidWordShape(_)),
{
}

/// Finishing the round of a wrong guess adds exactly one attempt; the game is
/// lost exactly when the attempts reach the ceiling, and otherwise goes on
/// with the feedback sent to the user. The ceiling is never passed.
pub proof fn lemma_wrong_guess_round(m: Registry, user: ActorId, word: String)
    requires
        registry_ok(m),
        m.contains_key(user),
        m[user].game_status matches GameStatus::WordChecked { is_guessed, .. } && !is_guessed,
    ensures
        ({
            let (m1, r) = guess_step(m, user, word);
            &&& registry_ok(m1)
            &&& m1.contains_key(user)
            &&& m1[user].attempts_count == m[user].attempts_count + 1
            &&& m1[user].attempts_count <= MAX_ATTEMPTS
            &&& (m1[user].game_status == GameStatus::Completed(GameOverStatus::Lose) <==> m1[user].attempts_count == MAX_ATTEMPTS)
            &&& (m1[user].attempts_count < MAX_ATTEMPTS ==> {
                &&& m1[user].game_status == GameStatus::InProgress
                &&& r matches Ok(Effect::Reply(Event::WordChecked { .. }))
            })
            &&& (m1[user].attempts_count == MAX_ATTEMPTS ==> r == Ok::<Effect, SessionError>(
                Effect::Reply(Event::GameOver(GameOverStatus::Lose)),
            ))
        }),
{
}

/// An answer that puts every letter in its place wins the game when the
/// guess is resumed, however many attempts were left.
pub proof fn lemma_full_match_wins(
    m: Registry,
    user: ActorId,
    word: String,
    sent_id: MessageId,
    correct_positions: Vec<u8>,
    contained_in_word: Vec<u8>,
)
    requires
        registry_ok(m),
        m.contains_key(user),
        m[user].game_status is CheckingWord,
        m[user].pending.request_id == sent_id,
        correct_positions@.len() == WORD_LENGTH,
    ensures
        ({
            let event = WordleEvent::WordChecked { user, correct_positions, contained_in_word };
            let (m1, woken) = reply_step(m, sent_id, event);
            let (m2, r) = guess_step(m1, user, word);
            &&& woken == Ok::<Option<MessageId>, SessionError>(Some(m[user].pending.call_id))
            &&& r == Ok::<Effect, SessionError>(Effect::Reply(Event::GameOver(GameOverStatus::Win)))
            &&& m2.contains_key(user)
            &&& m2[user].game_status == GameStatus::Completed(GameOverStatus::Win)
            &&& m2[user].attempts_count == m[user].attempts_count + 1
        }),
{
}

/// A status check of another generation than the game's current one changes
/// nothing and sends nothing.
pub proof fn lemma_stale_check_ignored(
    m: Registry,
    program_id: ActorId,
    user: ActorId,
    init_id: MessageId,
)
    requires
        m.contains_key(user),
        init_id != m[user].init_msg_id,
    ensures
        liveness_step(m, program_id, program_id, user, init_id) == (m, Ok::<Effect, SessionError>(
            Effect::Ignore,
        )),
{
}

/// A status check of a finished game changes nothing and sends nothing.
pub proof fn lemma_check_of_finished_game_ignored(
    m: Registry,
    program_id: ActorId,
    user: ActorId,
    init_id: MessageId,
)
    requires
        m.contains_key(user),
        m[user].game_status is Completed,
    ensures
        liveness_step(m, program_id, program_id, user, init_id) == (m, Ok::<Effect, SessionError>(
            Effect::Ignore,
        )),
{
}

/// A finished game keeps its outcome and attempts: guesses are refused,
/// answers and status checks change nothing, and only a new start replaces it.
pub proof fn lemma_finished_game_frozen(
    m: Registry,
    user: ActorId,
    word: String,
    program_id: ActorId,
    init_id: MessageId,
    reply_to: MessageId,
    event: WordleEvent,
    sent_id: MessageId,
    call_id: MessageId,
)
    requires
        m.contains_key(user),
        m[user].game_status is Completed,
        event.spec_user() == user,
    ensures
        guess_step(m, user, word) == (m, Err::<Effect, SessionError>(
            SessionError::SessionNotPlayable,
        )),
        liveness_step(m, program_id, program_id, user, init_id).0 == m,
        reply_step(m, reply_to, event) == (m, Ok::<Option<MessageId>, SessionError>(None)),
        begin_check_next(m, user, sent_id, call_id) == m,
{
}

/// Only finishing an answered guess changes a game's attempts, by one, and
/// only a new start (which begins at zero) replaces them otherwise: starts
/// that are forwarded or refused, status checks, answers of the word service
/// and recorded guesses leave every user's attempts as they were.
pub proof fn lemma_attempts_change_only_by_rounds(
    m: Registry,
    user: ActorId,
    other: ActorId,
    call_id: MessageId,
    sent_id: MessageId,
    source: ActorId,
    program_id: ActorId,
    init_id: MessageId,
    reply_to: MessageId,
    event: WordleEvent,
    word: String,
)
    requires
        m.contains_key(other),
    ensures
        start_step(m, user, call_id).0.contains_key(other),
        start_step(m, user, call_id).0[other].attempts_count == m[other].attempts_count,
        liveness_step(m, source, program_id, user, init_id).0[other].attempts_count
            == m[other].attempts_count,
        reply_step(m, reply_to, event).0[other].attempts_count == m[other].attempts_count,
        begin_check_next(m, user, sent_id, call_id)[other].attempts_count
            == m[other].attempts_count,
        !(m.contains_key(user) && m[user].game_status is WordChecked && user == other)
            ==> guess_step(m, user, word).0[other].attempts_count == m[other].attempts_count,
        begin_start_next(m, user, sent_id, call_id)[user].attempts_count == 0,
{
}

/// A game's generation changes exactly when it is started again: the new
/// generation is the starting call, and no other rule touches it.
pub proof fn lemma_generation_changes_only_on_start(
    m: Registry,
    user: ActorId,
    other: ActorId,
    call_id: MessageId,
    sent_id: MessageId,
    source: ActorId,
    program_id: ActorId,
    init_id: MessageId,
    reply_to: MessageId,
    event: WordleEvent,
    word: String,
)
    requires
        m.contains_key(other),
    ensures
        begin_start_next(m, user, sent_id, call_id)[user].init_msg_id == call_id,
        other != user ==> begin_start_next(m, user, sent_id, call_id)[other] == m[other],
        start_step(m, user, call_id).0[other].init_msg_id == m[other].init_msg_id,
        guess_step(m, user, word).0[other].init_msg_id == m[other].init_msg_id,
        begin_check_next(m, user, sent_id, call_id)[other].init_msg_id == m[other].init_msg_id,
        liveness_step(m, source, program_id, user, init_id).0[other].init_msg_id
            == m[other].init_msg_id,
        reply_step(m, reply_to, event).0[other].init_msg_id == m[other].init_msg_id,
{
}

} // verus!
