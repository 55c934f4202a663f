//! The proxy's state and its handlers: each one decides from the recorded
//! status and the incoming event, changes the registry, and says what to send.
use vstd::prelude::*;

use crate::consts::game_rules::MAX_ATTEMPTS;
use crate::error::SessionError;
use crate::ids::{ActorId, MessageId};
use crate::io::{Action, Event, GameOverStatus, GameStatus, WordleAction, WordleEvent};
use crate::machine::{
    begin_check_next, begin_start_next, finish_round, guess_step, handle_step, liveness_step,
    registry_ok, reply_step, start_step, Effect, Registry,
};
use crate::player::{Correlation, PlayerInfo};
use crate::players::Players;
use crate::word::check_word_shape;

verus! {

/// The proxy: the word service it delegates to, and every user's game.
pub struct Session {
    pub target_program_id: ActorId,
    pub players: Players,
}

impl View for Session {
    type V = Registry;

    open spec fn view(&self) -> Registry {
        self.players@
    }
}

impl Session {
    /// The registry is well formed and its games keep the attempt ceiling.
    pub open spec fn wf(&self) -> bool {
        self.players.wf() && registry_ok(self.players@)
    }

    pub fn new(target_program_id: ActorId) -> (r: Session)
        ensures
            r.wf(),
            r.target_program_id == target_program_id,
            r@ == Map::<ActorId, PlayerInfo>::empty(),
    {
        Session { target_program_id, players: Players::new() }
    }

    /// Every user's game, for reading.
    pub fn players(&self) -> (r: &Players)
        requires
            self.wf(),
        ensures
            r.wf(),
            r@ == self@,
    {
        &self.players
    }

    /// `user`'s game, if there is one.
    pub fn player(&self, user: &ActorId) -> (r: Option<&PlayerInfo>)
        requires
            self.wf(),
        ensures
            match r {
                Some(info) => self@.contains_key(*user) && *info == self@[*user],
                None => !self@.contains_key(*user),
            },
    {
        self.players.get(user)
    }

    /// A start request from `user`, in the call `call_id`.
    ///
    /// Refuses while a game is going, unless this is the resumed call of a
    /// start that the word service has confirmed: that call replies
    /// `GameStarted`. With no game, or a finished one, asks for the request
    /// to the word service; see `begin_start`.
    pub fn start_game(&mut self, user: ActorId, call_id: MessageId) -> (r: Result<
        Effect,
        SessionError,
    >)
        requires
            old(self).wf(),
        ensures
            final(self).wf(),
            final(self).target_program_id == old(self).target_program_id,
            (final(self)@, r) == start_step(old(self)@, user, call_id),
    {
        let (status_started, resumed, attempts, pending) = match self.players.get(&user) {
            None => {
                return Ok(Effect::Forward(WordleAction::StartGame { user }));
            },
            Some(player) => {
                if let GameStatus::Completed(_) = player.game_status {
                    return Ok(Effect::Forward(WordleAction::StartGame { user }));
                }
                (
                    matches!(player.game_status, GameStatus::Started),
                    player.original_msg_id() == call_id,
                    player.attempts_count,
                    player.pending,
                )
            },
        };
        if status_started && resumed {
            self.update_player(user, GameStatus::InProgress, attempts, pending);
            Ok(Effect::Reply(Event::GameStarted))
        } else {
            Err(SessionError::SessionConflict)
        }
    }

    /// Records the start request `sent_id`, sent for the call `call_id`: the
    /// user's game starts over, and `call_id` becomes its generation. Returns
    /// the status check to schedule.
    pub fn begin_start(&mut self, user: ActorId, sent_id: MessageId, call_id: MessageId) -> (r:
        Action)
        requires
            old(self).wf(),
        ensures
            final(self).wf(),
            final(self).target_program_id == old(self).target_program_id,
            final(self)@ == begin_start_next(old(self)@, user, sent_id, call_id),
            r == (Action::CheckGameStatus { user, init_id: call_id }),
    {
        self.players.insert(user, PlayerInfo::new(sent_id, call_id));
        Action::CheckGameStatus { user, init_id: call_id }
    }

    /// A guess `word` from `user`.
    ///
    /// The resumed call of an answered guess finishes the round (see
    /// `handle_word_checked`). Otherwise a well-shaped word is to be sent to
    /// the word service; see `begin_check`. Refusals change nothing.
    pub fn check_word(&mut self, user: ActorId, word: String) -> (r: Result<Effect, SessionError>)
        requires
            old(self).wf(),
        ensures
            final(self).wf(),
            final(self).target_program_id == old(self).target_program_id,
            (final(self)@, r) == guess_step(old(self)@, user, word),
    {
        let answered = match self.players.get(&user) {
            None => {
                return Err(SessionError::SessionNotFound);
            },
            Some(player) => {
                if !player.is_playing() {
                    return Err(SessionError::SessionNotPlayable);
                }
                matches!(player.game_status, GameStatus::WordChecked { .. })
            },
        };
        if answered {
            return Ok(Effect::Reply(self.handle_word_checked(user)));
        }
        match check_word_shape(word.as_str()) {
            Err(e) => Err(SessionError::InvalidWordShape(e)),
            Ok(()) => Ok(Effect::Forward(WordleAction::CheckWord { user, word })),
        }
    }

    /// Records the guess request `sent_id`, sent for the call `call_id`: the
    /// game waits for the answer. A game no longer being played is left alone.
    pub fn begin_check(&mut self, user: ActorId, sent_id: MessageId, call_id: MessageId)
        requires
            old(self).wf(),
        ensures
            final(self).wf(),
            final(self).target_program_id == old(self).target_program_id,
            final(self)@ == begin_check_next(old(self)@, user, sent_id, call_id),
    {
        let attempts = match self.players.get(&user) {
            None => {
                return;
            },
            Some(player) => {
                if !player.is_playing() {
                    return;
                }
                player.attempts_count
            },
        };
        let pending = Correlation { request_id: sent_id, call_id };
        self.update_player(user, GameStatus::CheckingWord, attempts, pending);
    }

    /// The deferred status check of `user`'s game of generation `init_id`,
    /// sent by `source` to the proxy `program_id`.
    ///
    /// Refused unless the proxy sent it. A finished game, or one started
    /// again since, is left alone; otherwise the game is lost and the user is
    /// told so.
    pub fn check_game_status(
        &mut self,
        source: ActorId,
        program_id: ActorId,
        user: ActorId,
        init_id: MessageId,
    ) -> (r: Result<Effect, SessionError>)
        requires
            old(self).wf(),
        ensures
            final(self).wf(),
            final(self).target_program_id == old(self).target_program_id,
            (final(self)@, r) == liveness_step(old(self)@, source, program_id, user, init_id),
    {
        if source != program_id {
            return Err(SessionError::UnauthorizedCaller);
        }
        let (completed, same_generation, attempts, pending) = match self.players.get(&user) {
            None => {
                return Err(SessionError::SessionNotFound);
            },
            Some(info) => (
                matches!(info.game_status, GameStatus::Completed(_)),
                init_id == info.init_msg_id,
                info.attempts_count,
                info.pending,
            ),
        };
        if completed || !same_generation {
            return Ok(Effect::Ignore);
        }
        let status = GameOverStatus::Lose;
        self.update_player(user, GameStatus::Completed(status), attempts, pending);
        Ok(Effect::Notify { user, event: Event::GameOver(status) })
    }

    /// The word service's answer `event` to the message `reply_to`.
    ///
    /// The answer to the pending request of a waiting game sets its status
    /// and returns the call to resume; any other answer is stale and changes
    /// nothing.
    pub fn handle_reply(&mut self, reply_to: MessageId, event: WordleEvent) -> (r: Result<
        Option<MessageId>,
        SessionError,
    >)
        requires
            old(self).wf(),
        ensures
            final(self).wf(),
            final(self).target_program_id == old(self).target_program_id,
            (final(self)@, r) == reply_step(old(self)@, reply_to, event),
    {
        let user = event.user();
        let (current, attempts, pending) = match self.players.get(&user) {
            None => {
                return Err(SessionError::SessionNotFound);
            },
            Some(info) => (
                info.is_waiting() && reply_to == info.sent_msg_id(),
                info.attempts_count,
                info.pending,
            ),
        };
        if !current {
            return Ok(None);
        }
        self.update_player(user, GameStatus::from(event), attempts, pending);
        Ok(Some(pending.call_id))
    }

    /// The call `call_id` from `source` carrying `action`, handled by the
    /// proxy `program_id`.
    pub fn handle(
        &mut self,
        program_id: ActorId,
        source: ActorId,
        call_id: MessageId,
        action: Action,
    ) -> (r: Result<Effect, SessionError>)
        requires
            old(self).wf(),
        ensures
            final(self).wf(),
            final(self).target_program_id == old(self).target_program_id,
            (final(self)@, r) == handle_step(old(self)@, program_id, source, call_id, action),
    {
        match action {
            Action::StartGame => self.start_game(source, call_id),
            Action::CheckWord { word } => self.check_word(source, word),
            Action::CheckGameStatus { user, init_id } => self.check_game_status(
                source,
                program_id,
                user,
                init_id,
            ),
        }
    }

    /// Finishes the round of an answered guess: one more attempt, then a win,
    /// a loss once the attempts are used up, or the next round.
    fn handle_word_checked(&mut self, user: ActorId) -> (r: Event)
        requires
            old(self).wf(),
            old(self)@.contains_key(user),
            old(self)@[user].game_status is WordChecked,
        ensures
            final(self).wf(),
            final(self).target_program_id == old(self).target_program_id,
            final(self)@ == old(self)@.insert(user, finish_round(old(self)@[user]).0),
            r == finish_round(old(self)@[user]).1,
    {
        let player = self.players.get(&user).unwrap();
        let is_guessed = match &player.game_status {
            GameStatus::WordChecked { is_guessed, .. } => *is_guessed,
            _ => false,
        };
        let attempts = player.attempts_count + 1;
        let pending = player.pending;
        if is_guessed {
            return self.complete_game(user, GameOverStatus::Win, attempts);
        }
        if attempts == MAX_ATTEMPTS {
            return self.complete_game(user, GameOverStatus::Lose, attempts);
        }
        let previous = self.update_player(user, GameStatus::InProgress, attempts, pending);
        match previous.game_status {
            GameStatus::WordChecked { correct_positions, contained_in_word, .. } => {
                Event::WordChecked { correct_positions, contained_in_word }
            },
            // the status was an answered guess when the round began
            _ => Event::GameStarted,
        }
    }

    /// Ends `user`'s game with `status` after `attempts` guesses.
    fn complete_game(&mut self, user: ActorId, status: GameOverStatus, attempts: u32) -> (r: Event)
        requires
            old(self).wf(),
            old(self)@.contains_key(user),
            attempts <= MAX_ATTEMPTS,
        ensures
            final(self).wf(),
            final(self).target_program_id == old(self).target_program_id,
            final(self)@ == old(self)@.insert(
                user,
                PlayerInfo {
                    game_status: GameStatus::Completed(status),
                    attempts_count: attempts,
                    ..old(self)@[user]
                },
            ),
            r == Event::GameOver(status),
    {
        let pending = self.players.get(&user).unwrap().pending;
        self.update_player(user, GameStatus::Completed(status), attempts, pending);
        Event::GameOver(status)
    }

    /// Replaces the status, attempts and pending request of `user`'s game,
    /// and hands back the game as it was.
    fn update_player(
        &mut self,
        user: ActorId,
        game_status: GameStatus,
        attempts_count: u32,
        pending: Correlation,
    ) -> (previous: PlayerInfo)
        requires
            old(self).wf(),
            old(self)@.contains_key(user),
            attempts_count <= MAX_ATTEMPTS,
            !(game_status is Completed) ==> attempts_count < MAX_ATTEMPTS,
        ensures
            final(self).wf(),
            final(self).target_program_id == old(self).target_program_id,
            previous == old(self)@[user],
            final(self)@ == old(self)@.insert(
                user,
                PlayerInfo { game_status, attempts_count, init_msg_id: old(self)@[user].init_msg_id, pending },
            ),
    {
        let init_msg_id = self.players.get(&user).unwrap().init_msg_id;
        let info = PlayerInfo { game_status, attempts_count, init_msg_id, pending };
        self.players.insert(user, info).unwrap()
    }
}

/// A read-only copy of the proxy's state.
#[derive(Clone, Debug)]
pub struct State {
    pub target_program_id: ActorId,
    pub players: Players,
}

impl From<Session> for State {
    fn from(value: Session) -> (r: State) {
        State { target_program_id: value.target_program_id, players: value.players }
    }
}

impl vstd::std_specs::convert::FromSpecImpl<Session> for State {
    open spec fn obeys_from_spec() -> bool {
        true
    }

    open spec fn from_spec(value: Session) -> State {
        State { target_program_id: value.target_program_id, players: value.players }
    }
}

} // verus!
