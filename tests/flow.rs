use session::consts::err_msgs::{
    GAME_IS_PLAYING, GAME_NOT_PLAYABLE, INVALID_WORD_CASE, INVALID_WORD_LEN, PROGRAM_ONLY,
};
use session::consts::game_rules::{DELAY_CHECK_STATUS_DURATION, MAX_ATTEMPTS};
use session::error::SessionError;
use session::ids::{ActorId, MessageId};
use session::io::{Action, Event, GameOverStatus, GameStatus, WordleAction, WordleEvent};
use session::machine::Effect;
use session::player::PlayerInfo;
use session::session::Session;
use std::collections::HashSet;

const PROXY_PROGRAM: u64 = 1;
const TARGET_PROGRAM: u64 = 2;
const USER: u64 = 3;

// item at index 0 or 1 of the service's word bank is the wrong answer
const WRONG_ANSWER: &str = "human";
// item at index 2 of the service's word bank is the correct answer
const CORRECT_ANSWER: &str = "horse";

fn id_bytes(n: u64) -> [u8; 32] {
    let mut b = [0u8; 32];
    b[..8].copy_from_slice(&n.to_le_bytes());
    b
}

fn actor(n: u64) -> ActorId {
    ActorId(id_bytes(n))
}

/// The word service's feedback on `guess` against `target`.
fn feedback(target: &str, guess: &str) -> (Vec<u8>, Vec<u8>) {
    let mut correct_positions: Vec<u8> = Vec::new();
    let mut contained_in_word: Vec<u8> = Vec::new();
    let mut used_indices = HashSet::new();

    for (i, (s_char, u_char)) in target.chars().zip(guess.chars()).enumerate() {
        if s_char == u_char {
            correct_positions.push(i.try_into().unwrap());
            used_indices.insert(i);
        }
    }

    for (i, u_char) in guess.chars().enumerate() {
        if !used_indices.contains(&i) && target.contains(u_char) {
            let mut added = false;
            for (j, s_char) in target.chars().enumerate() {
                if s_char == u_char && !used_indices.contains(&j) {
                    contained_in_word.push(i.try_into().unwrap());
                    used_indices.insert(j);
                    added = true;
                    break;
                }
            }
            let i: u8 = i.try_into().unwrap();
            if !added && !correct_positions.contains(&i) && !contained_in_word.contains(&i) {
                contained_in_word.push(i);
            }
        }
    }
    (correct_positions, contained_in_word)
}

#[allow(dead_code)]
fn word_checked_on_wrong_answer_event() -> Event {
    let (correct_positions, contained_in_word) = feedback(CORRECT_ANSWER, WRONG_ANSWER);
    Event::WordChecked { correct_positions, contained_in_word }
}

/// What happened while one message was handled.
#[derive(Default, Debug)]
struct RunResult {
    failed: Option<SessionError>,
    log: Vec<(ActorId, Event)>,
}

impl RunResult {
    fn main_failed(&self) -> bool {
        self.failed.is_some()
    }

    fn failed_with(&self, message: &str) -> bool {
        match &self.failed {
            Some(e) => e.message() == message,
            None => false,
        }
    }

    fn contains(&self, dest: u64, event: &Event) -> bool {
        self.log.iter().any(|(d, e)| *d == actor(dest) && e == event)
    }

    fn log(&self) -> &Vec<(ActorId, Event)> {
        &self.log
    }
}

/// The proxy, the word service and the clock that delivers deferred messages.
struct System {
    session: Session,
    block: u32,
    next_id: u64,
    delayed: Vec<(u32, Action)>,
    service_answers: bool,
}

impl System {
    fn new() -> System {
        System {
            session: Session::new(actor(TARGET_PROGRAM)),
            block: 0,
            next_id: 1000,
            delayed: Vec::new(),
            service_answers: true,
        }
    }

    fn fresh_id(&mut self) -> MessageId {
        self.next_id += 1;
        MessageId(id_bytes(self.next_id))
    }

    fn answer(request: &WordleAction) -> WordleEvent {
        match request {
            WordleAction::StartGame { user } => WordleEvent::GameStarted { user: *user },
            WordleAction::CheckWord { user, word } => {
                let (correct_positions, contained_in_word) = feedback(CORRECT_ANSWER, word);
                WordleEvent::WordChecked { user: *user, correct_positions, contained_in_word }
            }
        }
    }

    fn dispatch(&mut self, source: ActorId, action: Action) -> RunResult {
        let call_id = self.fresh_id();
        let mut result = RunResult::default();
        loop {
            let effect =
                self.session.handle(actor(PROXY_PROGRAM), source, call_id, action.clone());
            match effect {
                Err(e) => {
                    result.failed = Some(e);
                    return result;
                }
                Ok(Effect::Reply(event)) => {
                    result.log.push((source, event));
                    return result;
                }
                Ok(Effect::Notify { user, event }) => {
                    result.log.push((user, event));
                    return result;
                }
                Ok(Effect::Ignore) => return result,
                Ok(Effect::Forward(request)) => {
                    let sent_id = self.fresh_id();
                    match &request {
                        WordleAction::StartGame { user } => {
                            let check = self.session.begin_start(*user, sent_id, call_id);
                            self.delayed.push((self.block + DELAY_CHECK_STATUS_DURATION, check));
                        }
                        WordleAction::CheckWord { user, .. } => {
                            self.session.begin_check(*user, sent_id, call_id);
                        }
                    }
                    if !self.service_answers {
                        return result;
                    }
                    let answer = System::answer(&request);
                    match self.session.handle_reply(sent_id, answer) {
                        Ok(Some(woken)) => assert_eq!(woken, call_id),
                        _ => return result,
                    }
                }
            }
        }
    }

    fn send(&mut self, from: u64, action: Action) -> RunResult {
        self.dispatch(actor(from), action)
    }

    fn spend_blocks(&mut self, n: u32) -> Vec<RunResult> {
        let mut results = Vec::new();
        for _ in 0..n {
            self.block += 1;
            let now = self.block;
            let due: Vec<Action> =
                self.delayed.iter().filter(|(at, _)| *at == now).map(|(_, a)| a.clone()).collect();
            self.delayed.retain(|(at, _)| *at != now);
            for action in due {
                let r = self.dispatch(actor(PROXY_PROGRAM), action);
                results.push(r);
            }
        }
        results
    }

    fn info(&self) -> &PlayerInfo {
        self.session.player(&actor(USER)).unwrap()
    }
}

fn consume_all_attempts_with_wrong_answers(system: &mut System) {
    for _ in 0..MAX_ATTEMPTS {
        system.send(USER, Action::CheckWord { word: "human".into() });
    }
}

#[test]
fn start_game_should_success_when_first_time() {
    let mut system = System::new();

    // Given: User has never started a game
    assert!(!system.session.players().contains_key(&actor(USER)));

    // When: User starts a game
    let result = system.send(USER, Action::StartGame);
    assert!(!result.main_failed());
    assert!(result.contains(USER, &Event::GameStarted));

    // Then: the user is registered, in a game that waits for a guess
    assert!(system.session.players().contains_key(&actor(USER)));
    let info = system.info();
    assert_eq!(info.game_status, GameStatus::InProgress);
    assert_eq!(info.attempts_count, 0);
}

#[test]
fn start_game_should_fail_when_player_is_in_game() {
    let mut system = System::new();

    // Given: Game is in progress
    system.send(USER, Action::StartGame);
    assert_eq!(system.info().game_status, GameStatus::InProgress);

    // When: User starts another game
    let result = system.send(USER, Action::StartGame);

    // Then: The call fails with the matching error
    assert!(result.main_failed() && result.failed_with(GAME_IS_PLAYING));
}

#[test]
fn start_game_should_work_when_available_to_play() {
    let mut system = System::new();

    // Given: A game is over
    system.send(USER, Action::StartGame);
    system.spend_blocks(DELAY_CHECK_STATUS_DURATION);
    assert_eq!(system.info().game_status, GameStatus::Completed(GameOverStatus::Lose));

    // When: Users start a game again
    let result = system.send(USER, Action::StartGame);

    // Then: action should not fail
    assert!(!result.main_failed())
}

#[test]
fn check_word_should_work_on_wrong_answer() {
    let mut system = System::new();

    // Given: A game is in progress
    system.send(USER, Action::StartGame);
    assert_eq!(system.info().game_status, GameStatus::InProgress);

    // When: User guesses the word incorrectly
    let result = system.send(USER, Action::CheckWord { word: WRONG_ANSWER.into() });

    // Then: the feedback is sent and the game is updated
    assert!(!result.main_failed());
    assert!(result.contains(USER, &word_checked_on_wrong_answer_event()));
    let info = system.info();
    assert_eq!(info.game_status, GameStatus::InProgress);
    assert_eq!(info.attempts_count, 1);
}

#[test]
fn check_word_should_fail_when_not_playing() {
    let mut system = System::new();

    // Given: A game session is over
    system.send(USER, Action::StartGame);
    system.spend_blocks(200);
    assert_eq!(system.info().game_status, GameStatus::Completed(GameOverStatus::Lose));

    // When: User guesses the word
    let result = system.send(USER, Action::CheckWord { word: CORRECT_ANSWER.into() });

    // Then: the call fails since the game is not playable
    assert!(result.main_failed() && result.failed_with(GAME_NOT_PLAYABLE));
}

#[test]
fn check_word_should_fail_when_invalid_length() {
    let mut system = System::new();

    // Given: A game is in progress
    system.send(USER, Action::StartGame);
    assert_eq!(system.info().game_status, GameStatus::InProgress);

    // When: User submits a word of the wrong length
    let result = system.send(USER, Action::CheckWord { word: "honk".to_owned() });

    // Then: the call fails with the length message
    assert!(result.main_failed() && result.failed_with(INVALID_WORD_LEN));
}

#[test]
fn check_word_should_fail_when_not_lowercased() {
    let mut system = System::new();

    // Given: A game is in progress
    system.send(USER, Action::StartGame);
    assert_eq!(system.info().game_status, GameStatus::InProgress);

    // When: User submits a five-character word that is not lowercase
    let result = system.send(USER, Action::CheckWord { word: "HAPPY".to_owned() });

    // Then: the call fails with the case message
    assert!(result.main_failed() && result.failed_with(INVALID_WORD_CASE));
}

#[test]
fn check_word_should_end_game_when_guessed() {
    let mut system = System::new();

    // Given: Game is in progress
    system.send(USER, Action::StartGame);
    assert_eq!(system.info().game_status, GameStatus::InProgress);

    // When: User enters the correct word
    let result = system.send(USER, Action::CheckWord { word: CORRECT_ANSWER.into() });

    // Then: GameOver is sent and the game is updated
    assert!(!result.main_failed() && result.contains(USER, &Event::GameOver(GameOverStatus::Win)));
    let info = system.info();
    assert_eq!(info.attempts_count, 1);
    assert_eq!(info.game_status, GameStatus::Completed(GameOverStatus::Win));
}

#[test]
fn check_word_should_end_game_when_all_attempts_used_up() {
    let mut system = System::new();

    // Given: Game is in progress and the user keeps answering a wrong word
    system.send(USER, Action::StartGame);
    for _ in 0..MAX_ATTEMPTS - 1 {
        system.send(USER, Action::CheckWord { word: WRONG_ANSWER.into() });
    }

    // When: the last chance is a wrong answer too
    let result = system.send(USER, Action::CheckWord { word: WRONG_ANSWER.into() });

    // Then: GameOver is sent and the game is updated
    assert!(result.contains(USER, &Event::GameOver(GameOverStatus::Lose)));
    let info = system.info();
    assert_eq!(info.attempts_count, MAX_ATTEMPTS);
    assert_eq!(info.game_status, GameStatus::Completed(GameOverStatus::Lose));
}

#[test]
fn check_game_status_should_fail_when_called_by_other_actor() {
    let mut system = System::new();

    // When: A user sends the status check
    let result = system.send(
        USER,
        Action::CheckGameStatus { user: actor(USER), init_id: MessageId([0u8; 32]) },
    );

    // Then: the call fails with the matching error
    assert!(result.main_failed() && result.failed_with(PROGRAM_ONLY));
}

#[test]
fn check_game_status_ignore_when_completed() {
    let mut system = System::new();

    // Given: maximum number of attempts is reached
    system.send(USER, Action::StartGame);
    consume_all_attempts_with_wrong_answers(&mut system);
    let info = system.info();
    assert_eq!(info.game_status, GameStatus::Completed(GameOverStatus::Lose));
    assert_eq!(info.attempts_count, MAX_ATTEMPTS);

    // When: check status period has come
    let result = system.spend_blocks(DELAY_CHECK_STATUS_DURATION);

    // Then: nothing is sent
    assert!(result.first().unwrap().log().is_empty());
}

#[test]
fn check_game_status_ignore_when_init_id_changed() {
    let mut system = System::new();

    // Given:
    // - Maximum number of attempts is reached
    // - User restarts the game one block before the check is due
    system.send(USER, Action::StartGame);
    consume_all_attempts_with_wrong_answers(&mut system);
    let info = system.info();
    assert_eq!(info.attempts_count, MAX_ATTEMPTS);

    let prev_init_id = info.init_msg_id;

    system.spend_blocks(DELAY_CHECK_STATUS_DURATION - 1);
    system.send(USER, Action::StartGame);
    let info = system.info().clone();
    assert_eq!(info.game_status, GameStatus::InProgress);

    // When: check status period from previous session has come
    let result = system.spend_blocks(1);

    // Then: nothing is sent, and the generations differ
    assert!(result.first().unwrap().log().is_empty());
    assert_ne!(prev_init_id, info.init_msg_id);
}

#[test]
fn check_game_status_should_declare_game_over_when_time_is_up() {
    let mut system = System::new();

    // Given: A game is in progress
    system.send(USER, Action::StartGame);

    // When: Time is up
    let result = system.spend_blocks(DELAY_CHECK_STATUS_DURATION);

    // Then: GameOver is sent and the game is lost
    assert!(result.first().unwrap().contains(USER, &Event::GameOver(GameOverStatus::Lose)));
    assert_eq!(system.info().game_status, GameStatus::Completed(GameOverStatus::Lose));
}

#[test]
fn scenario_wrong_guess_reports_feedback() {
    let mut system = System::new();
    let started = system.send(USER, Action::StartGame);
    assert!(started.contains(USER, &Event::GameStarted));

    let result = system.send(USER, Action::CheckWord { word: "human".to_owned() });
    let expected = Event::WordChecked { correct_positions: vec![0], contained_in_word: vec![] };
    assert!(result.contains(USER, &expected));
    assert_eq!(system.info().attempts_count, 1);
    assert_eq!(system.info().game_status, GameStatus::InProgress);
}

#[test]
fn scenario_exact_guess_wins() {
    let mut system = System::new();
    system.send(USER, Action::StartGame);
    let result = system.send(USER, Action::CheckWord { word: "horse".to_owned() });
    assert_eq!(result.log.len(), 1);
    assert!(result.contains(USER, &Event::GameOver(GameOverStatus::Win)));
    assert_eq!(system.info().attempts_count, 1);
    assert_eq!(system.info().game_status, GameStatus::Completed(GameOverStatus::Win));
}

#[test]
fn scenario_silent_service_times_out() {
    let mut system = System::new();
    system.service_answers = false;
    let started = system.send(USER, Action::StartGame);
    assert!(started.log.is_empty() && !started.main_failed());
    assert_eq!(system.info().game_status, GameStatus::Starting);

    let before = system.spend_blocks(DELAY_CHECK_STATUS_DURATION - 1);
    assert!(before.is_empty());
    assert_eq!(system.info().game_status, GameStatus::Starting);

    let due = system.spend_blocks(1);
    assert_eq!(due.len(), 1);
    assert!(due[0].contains(USER, &Event::GameOver(GameOverStatus::Lose)));
    assert_eq!(system.info().game_status, GameStatus::Completed(GameOverStatus::Lose));
    assert_eq!(system.info().attempts_count, 0);
}

#[test]
fn scenario_silent_service_restart_is_refused() {
    let mut system = System::new();
    system.service_answers = false;
    system.send(USER, Action::StartGame);
    let again = system.send(USER, Action::StartGame);
    assert_eq!(again.failed, Some(SessionError::SessionConflict));
}

#[test]
fn scenario_restart_before_check_keeps_new_game() {
    let mut system = System::new();
    system.send(USER, Action::StartGame);
    consume_all_attempts_with_wrong_answers(&mut system);
    assert_eq!(system.info().game_status, GameStatus::Completed(GameOverStatus::Lose));

    system.spend_blocks(DELAY_CHECK_STATUS_DURATION - 1);
    let restarted = system.send(USER, Action::StartGame);
    assert!(restarted.contains(USER, &Event::GameStarted));

    // the first game's check is stale
    let stale = system.spend_blocks(1);
    assert_eq!(stale.len(), 1);
    assert!(stale[0].log().is_empty() && !stale[0].main_failed());
    assert_eq!(system.info().game_status, GameStatus::InProgress);

    // the new game's own check still ends it
    let own = system.spend_blocks(DELAY_CHECK_STATUS_DURATION - 1);
    assert_eq!(own.len(), 1);
    assert!(own[0].contains(USER, &Event::GameOver(GameOverStatus::Lose)));
    assert_eq!(system.info().game_status, GameStatus::Completed(GameOverStatus::Lose));
}

#[test]
fn guesses_count_one_per_round_until_the_ceiling() {
    let mut system = System::new();
    system.send(USER, Action::StartGame);
    for n in 1..MAX_ATTEMPTS {
        let r = system.send(USER, Action::CheckWord { word: WRONG_ANSWER.into() });
        assert!(r.contains(USER, &word_checked_on_wrong_answer_event()));
        assert_eq!(system.info().attempts_count, n);
        assert_eq!(system.info().game_status, GameStatus::InProgress);
    }
    let last = system.send(USER, Action::CheckWord { word: WRONG_ANSWER.into() });
    assert!(last.contains(USER, &Event::GameOver(GameOverStatus::Lose)));
    let after = system.send(USER, Action::CheckWord { word: WRONG_ANSWER.into() });
    assert_eq!(after.failed, Some(SessionError::SessionNotPlayable));
    assert_eq!(system.info().attempts_count, MAX_ATTEMPTS);
}

#[test]
fn misshapen_guess_leaves_attempts() {
    let mut system = System::new();
    system.send(USER, Action::StartGame);
    system.send(USER, Action::CheckWord { word: WRONG_ANSWER.into() });
    for word in ["honk", "horses", "Horse", "HAPPY", "h0rse", ""] {
        let r = system.send(USER, Action::CheckWord { word: word.to_owned() });
        assert!(matches!(r.failed, Some(SessionError::InvalidWordShape(_))));
        assert_eq!(system.info().attempts_count, 1);
        assert_eq!(system.info().game_status, GameStatus::InProgress);
    }
}

#[test]
fn guess_without_game_is_not_found() {
    let mut system = System::new();
    let r = system.send(USER, Action::CheckWord { word: CORRECT_ANSWER.into() });
    assert_eq!(r.failed, Some(SessionError::SessionNotFound));
}
