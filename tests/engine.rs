use kanji_guesser::retry::{Backoff, RetryStep};
use kanji_guesser::corpus::{vectorize_joyo_kanji, vectorize_word_list};
use kanji_guesser::client::{
    get_user_friendly_message, parse_error_response, AppState as Screen, ClientError, LobbyPoll,
    PollAction,
};
use kanji_guesser::{
    generate_player_id, generate_random_id, get_lobby, judge, judge_trimmed, AppError, AppState,
    GameSettings, GameStatus, LobbyCreationError, LobbyState, PlayerId, UserInput, UserScore,
    Verdict,
};

fn corpus() -> (Vec<String>, Vec<String>) {
    (
        vec!["日本語".to_string(), "学生".to_string()],
        vec!["日".to_string(), "本".to_string(), "語".to_string()],
    )
}

fn lobby_with(names: &[&str]) -> LobbyState {
    let (w, k) = corpus();
    let mut l = LobbyState::create(w, k).unwrap();
    for n in names {
        l.add_player(PlayerId::from(*n), n.to_string()).unwrap();
    }
    l
}

fn input(word: &str, kanji: &str, player: &str) -> UserInput {
    UserInput {
        word: word.to_string(),
        kanji: kanji.to_string(),
        player_id: PlayerId::from(player),
    }
}

#[test]
fn first_added_player_leads_and_nobody_else() {
    let l = lobby_with(&["a", "b", "c"]);
    assert!(l.is_leader(&PlayerId::from("a")).unwrap());
    assert!(!l.is_leader(&PlayerId::from("b")).unwrap());
    assert!(!l.is_leader(&PlayerId::from("c")).unwrap());
    assert!(!l.is_leader(&PlayerId::from("z")).unwrap());
}

#[test]
fn empty_lobby_has_no_leader() {
    let l = lobby_with(&[]);
    assert!(!l.is_leader(&PlayerId::from("")).unwrap());
    let info = l.get_lobby_info("L").unwrap();
    assert_eq!(info.leader_id, PlayerId::from(""));
}

#[test]
fn score_equals_number_of_increments() {
    let mut l = lobby_with(&["a", "b"]);
    for n in 1..=5u32 {
        assert_eq!(l.increment_player_score(&PlayerId::from("a")).unwrap(), n);
    }
    assert_eq!(l.get_player_score(&PlayerId::from("a")).unwrap(), 5);
    assert_eq!(l.get_player_score(&PlayerId::from("b")).unwrap(), 0);
}

#[test]
fn increment_unknown_player_fails() {
    let mut l = lobby_with(&["a"]);
    match l.increment_player_score(&PlayerId::from("x")) {
        Err(AppError::PlayerNotFound(id)) => assert_eq!(id, "x"),
        other => panic!("unexpected {:?}", other),
    }
}

#[test]
fn player_name_lookup() {
    let l = lobby_with(&["a"]);
    assert_eq!(l.get_player_name(&PlayerId::from("a")).unwrap(), "a");
    assert!(matches!(
        l.get_player_name(&PlayerId::from("q")),
        Err(AppError::PlayerNotFound(_))
    ));
    let p = l.get_player(&PlayerId::from("a")).unwrap();
    assert_eq!(p.score, 0);
    assert!(!p.joined_at.is_empty());
}

#[test]
fn prompt_absent_until_drawn_then_from_list() {
    let mut l = lobby_with(&["a"]);
    assert_eq!(l.get_current_kanji().unwrap(), None);
    let k = l.generate_random_kanji().unwrap();
    assert!(l.kanji_list().contains(&k));
    l.add_player(PlayerId::from("b"), "b".to_string()).unwrap();
    l.increment_player_score(&PlayerId::from("b")).unwrap();
    assert_eq!(l.get_current_kanji().unwrap(), Some(k));
}

#[test]
fn show_kanji_picks_the_indexed_entry() {
    let mut l = lobby_with(&["a"]);
    assert_eq!(l.show_kanji(2), "語");
    assert_eq!(l.get_current_kanji().unwrap(), Some("語".to_string()));
}

#[test]
fn current_or_new_kanji_keeps_existing_prompt() {
    let mut l = lobby_with(&["a"]);
    let first = l.current_or_new_kanji().unwrap();
    assert!(l.kanji_list().contains(&first));
    for _ in 0..5 {
        assert_eq!(l.current_or_new_kanji().unwrap(), first);
    }
}

#[test]
fn good_guess_scores_and_issues_new_kanji() {
    let mut l = lobby_with(&["p1"]);
    let r = l.check_word_at(&input("日本語", "日", "p1"), 1).unwrap();
    assert_eq!(r.message, "Good guess!");
    assert_eq!(r.score, 1);
    assert_eq!(r.error, None);
    assert_eq!(r.kanji, Some("本".to_string()));
    assert_eq!(l.get_current_kanji().unwrap(), Some("本".to_string()));
    assert_eq!(l.get_player_score(&PlayerId::from("p1")).unwrap(), 1);
}

#[test]
fn good_guess_with_random_kanji() {
    let mut l = lobby_with(&["p1"]);
    let r = l.check_word(&input(" 日本語 ", "日", "p1")).unwrap();
    assert_eq!(r.message, "Good guess!");
    assert_eq!(r.score, 1);
    let k = r.kanji.unwrap();
    assert!(l.kanji_list().contains(&k));
    assert_eq!(l.get_current_kanji().unwrap(), Some(k));
}

#[test]
fn correct_kanji_but_unknown_word() {
    let (_, k) = corpus();
    let mut l = LobbyState::create(vec!["学生".to_string()], k).unwrap();
    l.add_player(PlayerId::from("p1"), "P".to_string()).unwrap();
    let r = l.check_word_at(&input("日本語", "語", "p1"), 0).unwrap();
    assert_eq!(r.message, "Bad Guess: Correct kanji, but not a valid word.");
    assert_eq!(r.score, 0);
    assert_eq!(r.kanji, None);
    assert_eq!(l.get_current_kanji().unwrap(), None);
}

#[test]
fn valid_word_without_kanji() {
    let mut l = lobby_with(&["p1"]);
    let r = l.check_word_at(&input("学生", "日", "p1"), 0).unwrap();
    assert_eq!(r.message, "Bad Guess: Valid word, but does not contain the correct kanji.");
    assert_eq!(r.score, 0);
}

#[test]
fn neither_kanji_nor_word() {
    let mut l = lobby_with(&["p1"]);
    let r = l.check_word_at(&input("犬", "日", "p1"), 0).unwrap();
    assert_eq!(r.message, "Bad guess: Incorrect kanji and not a valid word.");
    assert_eq!(r.score, 0);
}

#[test]
fn check_word_by_unknown_player_fails() {
    let mut l = lobby_with(&["p1"]);
    assert!(matches!(
        l.check_word_at(&input("日本語", "日", "nobody"), 0),
        Err(AppError::PlayerNotFound(_))
    ));
    assert_eq!(l.get_current_kanji().unwrap(), None);
}

#[test]
fn judge_trims_both_texts() {
    let dict = vec!["日本語".to_string()];
    assert_eq!(judge("  日本語\n", " 日 ", &dict), Verdict::GoodGuess);
    assert_eq!(judge_trimmed(" 日本語", "日", &dict), Verdict::KanjiOnly);
    assert_eq!(judge_trimmed("日本語", "日本", &dict), Verdict::GoodGuess);
    assert_eq!(judge_trimmed("日本語", "本日", &dict), Verdict::WordOnly);
    assert_eq!(judge_trimmed("本", "日", &dict), Verdict::Neither);
    assert_eq!(judge_trimmed("日本語", "", &dict), Verdict::GoodGuess);
}

#[test]
fn non_leader_settings_update_fails_and_keeps_settings() {
    let mut l = lobby_with(&["leader", "other"]);
    let before = l.settings().clone();
    let new_settings = GameSettings {
        difficulty_levels: vec!["N5".to_string()],
        time_limit_seconds: Some(30),
        max_players: 8,
    };
    match l.update_settings(&PlayerId::from("other"), new_settings.clone()) {
        Err(AppError::AuthError(_)) => {}
        other => panic!("unexpected {:?}", other),
    }
    assert_eq!(*l.settings(), before);
    assert!(l.update_settings(&PlayerId::from("leader"), new_settings.clone()).is_ok());
    assert_eq!(*l.settings(), new_settings);
}

#[test]
fn default_settings_values() {
    let s = GameSettings::default();
    assert_eq!(s.difficulty_levels, vec!["N1", "N2", "N3", "N4", "N5"]);
    assert_eq!(s.time_limit_seconds, None);
    assert_eq!(s.max_players, 4);
}

#[test]
fn second_start_is_invalid_input() {
    let mut l = lobby_with(&["leader", "other"]);
    assert!(matches!(
        l.start_game(&PlayerId::from("other")),
        Err(AppError::AuthError(_))
    ));
    assert_eq!(l.game_status(), GameStatus::Lobby);
    l.start_game(&PlayerId::from("leader")).unwrap();
    assert!(matches!(
        l.start_game(&PlayerId::from("leader")),
        Err(AppError::InvalidInput(_))
    ));
    assert_eq!(l.game_status(), GameStatus::Playing);
}

#[test]
fn start_game_at_shows_indexed_kanji() {
    let mut l = lobby_with(&["leader"]);
    l.start_game_at(&PlayerId::from("leader"), 0).unwrap();
    assert_eq!(l.get_current_kanji().unwrap(), Some("日".to_string()));
}

#[test]
fn many_joins_give_one_leader() {
    let (w, k) = corpus();
    let mut l = LobbyState::create(w, k).unwrap();
    let mut ids = Vec::new();
    for n in 0..20 {
        ids.push(l.join(format!("player {}", n)).unwrap());
    }
    let players = l.get_all_players().unwrap();
    assert_eq!(players.len(), 20);
    let leaders = players
        .iter()
        .filter(|p| l.is_leader(&p.id).unwrap())
        .count();
    assert_eq!(leaders, 1);
    assert!(l.is_leader(&ids[0]).unwrap());
    for id in &ids {
        assert_eq!(id.0.len(), 10);
    }
}

#[test]
fn empty_kanji_list_is_a_load_error() {
    assert!(matches!(
        LobbyState::create(vec![], vec![]),
        Err(AppError::DataLoadError(_))
    ));
    let mut app = AppState::new();
    assert!(matches!(
        app.create("Alice".to_string(), vec![], vec![]),
        Err(AppError::DataLoadError(_))
    ));
}

#[test]
fn unknown_lobby_join_fails() {
    let app = AppState::new();
    match app.join("nope", "Bob".to_string()) {
        Err(AppError::LobbyNotFound(id)) => assert_eq!(id, "nope"),
        other => panic!("unexpected {:?}", other),
    }
}

#[test]
fn end_to_end_scenario() {
    let mut app = AppState::new();
    let (w, k) = corpus();
    let (lobby_id, alice) = app.create("Alice".to_string(), w, k).unwrap();
    assert_eq!(lobby_id.len(), 6);
    assert!(app.contains(&lobby_id));
    let bob = app.join(&lobby_id, "Bob".to_string()).unwrap();
    assert_ne!(alice, bob);

    let lobby = get_lobby(&app, &lobby_id).unwrap();
    let info = lobby.read(|s| s.get_lobby_info(&lobby_id)).unwrap();
    assert_eq!(info.lobby_id, lobby_id);
    assert_eq!(info.leader_id, alice);
    assert_eq!(info.players.len(), 2);
    assert_eq!(info.players[0].id, alice);
    assert_eq!(info.players[0].name, "Alice");
    assert_eq!(info.players[1].id, bob);
    assert_eq!(info.players[1].name, "Bob");
    assert_eq!(info.status, GameStatus::Lobby);

    let alice_c = alice.clone();
    lobby
        .with(move |mut s| {
            let r = s.start_game(&alice_c);
            (s, r)
        })
        .unwrap();
    let (status, current) = lobby.read(|s| (s.game_status(), s.get_current_kanji().unwrap()));
    assert_eq!(status, GameStatus::Playing);
    let k = current.unwrap();
    assert!(["日", "本", "語"].contains(&k.as_str()));

    let word = match k.as_str() {
        "日" | "本" | "語" => "日本語",
        _ => unreachable!(),
    };
    let guess = input(word, &k, &alice.0);
    let resp = lobby
        .with(move |mut s| {
            let r = s.check_word(&guess);
            (s, r)
        })
        .unwrap();
    assert_eq!(resp.message, "Good guess!");
    assert_eq!(resp.score, 1);
    assert!(resp.kanji.is_some());

    let before = lobby.read(|s| s.settings().clone());
    let bob_c = bob.clone();
    let refused = lobby.with(move |mut s| {
        let r = s.update_settings(
            &bob_c,
            GameSettings {
                difficulty_levels: vec![],
                time_limit_seconds: Some(5),
                max_players: 2,
            },
        );
        (s, r)
    });
    assert!(matches!(refused, Err(AppError::AuthError(_))));
    assert_eq!(lobby.read(|s| s.settings().clone()), before);
}

#[test]
fn registry_keeps_ids_unique() {
    let mut app = AppState::new();
    let (w, k) = corpus();
    let (l1, _) = app.create("A".to_string(), w.clone(), k.clone()).unwrap();
    let other = kanji_guesser::Shared::new(LobbyState::create(w, k).unwrap());
    assert!(!app.insert(l1.clone(), other.clone()));
    assert!(app.insert("second".to_string(), other));
    assert!(get_lobby(&app, "second").is_ok());
}

#[test]
fn error_status_codes_and_messages() {
    let e = AppError::LobbyNotFound("abc".to_string());
    assert_eq!(e.status_code(), 404);
    assert_eq!(e.message(), "Lobby with ID abc not found");
    let e = AppError::PlayerNotFound("p".to_string());
    assert_eq!(e.status_code(), 404);
    assert_eq!(e.message(), "Player with ID p not found in lobby");
    assert_eq!(AppError::InvalidInput("x".to_string()).status_code(), 400);
    assert_eq!(AppError::AuthError("x".to_string()).status_code(), 401);
    assert_eq!(
        AppError::AuthError("no".to_string()).message(),
        "Authentication error: no"
    );
    assert_eq!(AppError::LockError("x".to_string()).status_code(), 500);
    assert_eq!(AppError::DataLoadError("x".to_string()).status_code(), 500);
    assert_eq!(AppError::InternalError("x".to_string()).status_code(), 500);
    assert_eq!(
        AppError::DataLoadError("f".to_string()).message(),
        "Failed to load game data: f"
    );
}

#[test]
fn random_ids_have_the_asked_length() {
    assert_eq!(generate_random_id(0), "");
    let id = generate_random_id(32);
    assert_eq!(id.chars().count(), 32);
    assert!(id.chars().all(|c| c.is_ascii_alphanumeric()));
    assert_eq!(generate_player_id().0.len(), 10);
}

#[test]
fn user_score_starts_at_zero() {
    assert_eq!(UserScore::new().score, 0);
    assert_eq!(UserScore::default().score, 0);
}

#[test]
fn friendly_messages() {
    assert!(get_user_friendly_message(&ClientError::Network("x".to_string()))
        .contains("internet connection"));
    assert_eq!(
        get_user_friendly_message(&ClientError::NotFound("Lobby not found".to_string())),
        "Not found: Lobby not found"
    );
    assert_eq!(
        get_user_friendly_message(&ClientError::Validation("Invalid name".to_string())),
        "Invalid input: Invalid name"
    );
    assert_eq!(
        get_user_friendly_message(&ClientError::Server {
            status_code: 503,
            message: "m".to_string()
        }),
        "The server encountered an error. Please try again later."
    );
    assert_eq!(
        get_user_friendly_message(&ClientError::Server {
            status_code: 418,
            message: "m".to_string()
        }),
        "Server error: m"
    );
}

#[test]
fn error_replies_are_classified_by_status() {
    assert_eq!(
        parse_error_response(404, Some("gone".to_string())),
        ClientError::NotFound("gone".to_string())
    );
    assert_eq!(
        parse_error_response(403, Some("no".to_string())),
        ClientError::Auth("no".to_string())
    );
    assert_eq!(
        parse_error_response(400, Some("bad".to_string())),
        ClientError::Validation("bad".to_string())
    );
    assert_eq!(
        parse_error_response(502, None),
        ClientError::Server {
            status_code: 502,
            message: "Could not parse error response".to_string()
        }
    );
}

#[test]
fn screen_names_round_trip() {
    for s in [Screen::NotInLobby, Screen::InLobby, Screen::InGame] {
        assert_eq!(Screen::from_string(s.to_string()), s);
    }
    assert_eq!(Screen::from_string("garbage"), Screen::NotInLobby);
    assert_eq!(Screen::InGame.to_string(), "in_game");
}

#[test]
fn polling_enters_game_or_gives_up() {
    let mut poll = LobbyPoll::new();
    assert_eq!(poll.on_reply(GameStatus::Lobby), PollAction::ShowLobby);
    for _ in 0..4 {
        assert_eq!(poll.on_failure(), PollAction::KeepTrying);
    }
    assert_eq!(poll.on_reply(GameStatus::Lobby), PollAction::ShowLobby);
    assert_eq!(poll.consecutive_errors, 0);
    for _ in 0..4 {
        assert_eq!(poll.on_failure(), PollAction::KeepTrying);
    }
    assert_eq!(poll.on_failure(), PollAction::GiveUp);
    assert_eq!(poll.consecutive_errors, 5);
    assert_eq!(poll.on_reply(GameStatus::Playing), PollAction::EnterGame);
}

#[test]
fn word_list_takes_first_column_after_header() {
    let text = "word,reading\n日本語,にほんご\n学生,がくせい\n";
    assert_eq!(vectorize_word_list(text).unwrap(), vec!["日本語", "学生"]);
    assert_eq!(vectorize_word_list("word\n").unwrap(), Vec::<String>::new());
}

#[test]
fn malformed_csv_is_refused() {
    assert_eq!(
        vectorize_word_list("a,b\n1\n"),
        Err(LobbyCreationError::FailedToVectorizeWordListError)
    );
    assert_eq!(
        vectorize_joyo_kanji(&vec!["k\n日\n".to_string(), "a,b\n1\n".to_string()]),
        Err(LobbyCreationError::FailedToVectorizeKanjiListError)
    );
}

#[test]
fn kanji_lists_are_concatenated() {
    let sources = vec!["kanji\n日\n本\n".to_string(), "kanji\n語\n".to_string()];
    assert_eq!(vectorize_joyo_kanji(&sources).unwrap(), vec!["日", "本", "語"]);
}

#[test]
fn backoff_doubles_waits_then_gives_up() {
    let mut b = Backoff::new(5, 1);
    let mut waits = Vec::new();
    while b.may_try() {
        match b.on_failure() {
            RetryStep::Wait(s) => waits.push(s),
            RetryStep::GiveUp => break,
        }
    }
    assert_eq!(waits, vec![1, 2, 4, 8]);
    assert!(!b.may_try());
    let mut big = Backoff::new(3, u64::MAX);
    assert_eq!(big.on_failure(), RetryStep::Wait(u64::MAX));
    assert_eq!(big.wait_secs, u64::MAX);
}

#[test]
fn join_with_ids_takes_first_free_candidate() {
    let mut l = lobby_with(&["a", "b"]);
    let cands = vec![PlayerId::from("a"), PlayerId::from("c"), PlayerId::from("d")];
    let id = l.join_with_ids("Carol".to_string(), &cands).unwrap();
    assert_eq!(id, PlayerId::from("c"));
    assert_eq!(l.get_player_name(&id).unwrap(), "Carol");
    assert!(!l.is_leader(&id).unwrap());
    let taken = vec![PlayerId::from("a"), PlayerId::from("b"), PlayerId::from("c")];
    assert!(matches!(
        l.join_with_ids("Dan".to_string(), &taken),
        Err(AppError::InternalError(_))
    ));
    assert_eq!(l.get_all_players().unwrap().len(), 3);
}

#[test]
fn join_on_empty_roster_makes_leader() {
    let (w, k) = corpus();
    let mut l = LobbyState::create(w, k).unwrap();
    let id = l.join("Alice".to_string()).unwrap();
    assert!(l.is_leader(&id).unwrap());
}

#[test]
fn registry_uses_first_free_lobby_id() {
    let mut app = AppState::new();
    let (w, k) = corpus();
    let ids = vec!["AAAAAA".to_string(), "BBBBBB".to_string()];
    let (l1, p1) = app
        .create_with_ids("Alice".to_string(), w.clone(), k.clone(), PlayerId::from("alice"), &ids)
        .unwrap();
    assert_eq!(l1, "AAAAAA");
    assert_eq!(p1, PlayerId::from("alice"));
    assert_eq!(app.first_free_lobby_id(&ids), Some("BBBBBB".to_string()));
    let (l2, _) = app
        .create_with_ids("Bob".to_string(), w.clone(), k.clone(), PlayerId::from("bob"), &ids)
        .unwrap();
    assert_eq!(l2, "BBBBBB");
    assert_eq!(app.first_free_lobby_id(&ids), None);
    assert!(matches!(
        app.create_with_ids("Eve".to_string(), w, k, PlayerId::from("eve"), &ids),
        Err(AppError::InternalError(_))
    ));
    let joined = app
        .join_with_ids("AAAAAA", "Carol".to_string(), &vec![PlayerId::from("alice"), PlayerId::from("carol")])
        .unwrap();
    assert_eq!(joined, PlayerId::from("carol"));
    let lobby = get_lobby(&app, "AAAAAA").unwrap();
    assert_eq!(lobby.read(|s| s.get_all_players()).unwrap().len(), 2);
    assert!(lobby.read(|s| s.is_leader(&PlayerId::from("alice"))).unwrap());
}

#[test]
fn judge_trims_unicode_whitespace() {
    let dict = vec!["日本語".to_string()];
    assert_eq!(judge("\u{3000}日本語\t", "\u{a0}日\n", &dict), Verdict::GoodGuess);
    assert_eq!(judge("日 本語", "日", &dict), Verdict::KanjiOnly);
}
