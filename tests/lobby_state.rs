use kanji_guesser::{
    generate_lobby_id, get_lobby, AppError, AppState, GameSettings, GameStatus, LobbyState,
    PlayerId, Shared,
};

fn words() -> Vec<String> {
    vec!["日本語".to_string(), "日本".to_string(), "学生".to_string(), "先生".to_string()]
}

fn kanji() -> Vec<String> {
    vec![
        "日".to_string(),
        "本".to_string(),
        "語".to_string(),
        "学".to_string(),
        "生".to_string(),
        "先".to_string(),
    ]
}

fn new_lobby() -> Result<LobbyState, AppError> {
    LobbyState::create(words(), kanji())
}

#[test]
fn test_generate_lobby_id() {
    let id = generate_lobby_id();
    assert_eq!(id.len(), 6);
    // Check that ID is alphanumeric
    assert!(id.chars().all(|c| c.is_alphanumeric()));
}

#[test]
fn test_increment_player_score() {
    let mut lobby_state = new_lobby().unwrap();
    let player_id = PlayerId(String::from("test_player"));
    lobby_state
        .add_player(player_id.clone(), "Test Player".to_string())
        .unwrap();

    // Initial score should be 0
    assert_eq!(lobby_state.get_player_score(&player_id).unwrap(), 0);

    // After increment, should be 1
    assert_eq!(lobby_state.increment_player_score(&player_id).unwrap(), 1);
    assert_eq!(lobby_state.get_player_score(&player_id).unwrap(), 1);
}

#[test]
fn test_get_current_kanji() {
    let mut lobby_state = new_lobby().unwrap();

    // Initially should be None
    assert_eq!(lobby_state.get_current_kanji().unwrap(), None);

    // Generate a kanji and verify it's set
    let kanji = lobby_state.generate_random_kanji().unwrap();
    assert_eq!(lobby_state.get_current_kanji().unwrap(), Some(kanji));
}

#[test]
fn test_generate_random_kanji() {
    let mut lobby_state = new_lobby().unwrap();

    // Generate a kanji and verify it's from the list
    let kanji = lobby_state.generate_random_kanji().unwrap();
    assert!(lobby_state.kanji_list().contains(&kanji));

    // Generate another and ensure it's set as current
    let kanji2 = lobby_state.generate_random_kanji().unwrap();
    assert_eq!(lobby_state.get_current_kanji().unwrap(), Some(kanji2));
}

#[test]
fn test_get_all_players() {
    let mut lobby_state = new_lobby().unwrap();

    // Initially empty
    assert!(lobby_state.get_all_players().unwrap().is_empty());

    // Add players and verify they're returned
    lobby_state
        .add_player(PlayerId::from("player1"), "Alice".to_string())
        .unwrap();
    lobby_state
        .add_player(PlayerId::from("player2"), "Bob".to_string())
        .unwrap();

    let players = lobby_state.get_all_players().unwrap();
    assert_eq!(players.len(), 2);

    let names: Vec<&String> = players.iter().map(|p| &p.name).collect();
    assert!(names.contains(&&"Alice".to_string()));
    assert!(names.contains(&&"Bob".to_string()));

    let alice = players.iter().find(|p| p.id.0 == "player1");
    let bob = players.iter().find(|p| p.id.0 == "player2");

    assert!(alice.is_some());
    assert!(bob.is_some());

    assert_eq!(alice.unwrap().name, "Alice");
    assert_eq!(bob.unwrap().name, "Bob");
    assert_eq!(alice.unwrap().score, 0);
    assert_eq!(bob.unwrap().score, 0);

    // The first player added is first in the roster
    assert_eq!(players[0].id, PlayerId(String::from("player1")));
    assert_eq!(players[0].name, "Alice");
    assert_eq!(players[1].id, PlayerId(String::from("player2")));
    assert_eq!(players[1].name, "Bob");
}

#[test]
fn test_player_not_found_error() {
    let lobby_state = new_lobby().unwrap();

    // Attempt to get score for non-existent player
    let result = lobby_state.get_player_score(&PlayerId(String::from("nonexistent")));
    assert!(result.is_err());

    match result {
        Err(AppError::PlayerNotFound(id)) => assert_eq!(id, "nonexistent"),
        _ => panic!("Expected PlayerNotFound error"),
    }
}

#[test]
fn test_get_lobby_not_found() {
    let app_state = AppState::new();

    let result = get_lobby(&app_state, "nonexistent");
    assert!(result.is_err());

    match result {
        Err(AppError::LobbyNotFound(id)) => assert_eq!(id, "nonexistent"),
        _ => panic!("Expected LobbyNotFound error"),
    }
}

#[test]
fn test_lobby_workflow() {
    let mut app_state = AppState::new();

    // Create a lobby and add it to the state
    let lobby_id = generate_lobby_id();
    let lobby_state = Shared::new(new_lobby().unwrap());
    assert!(app_state.insert(lobby_id.clone(), lobby_state.clone()));

    // Get the lobby and verify it exists
    let retrieved_lobby = get_lobby(&app_state, &lobby_id).unwrap();

    // Add players to lobby
    retrieved_lobby
        .with(|mut s| {
            let r = s.add_player(PlayerId::from("p1"), "Player 1".to_string());
            (s, r)
        })
        .unwrap();
    retrieved_lobby
        .with(|mut s| {
            let r = s.add_player(PlayerId::from("p2"), "Player 2".to_string());
            (s, r)
        })
        .unwrap();

    // Generate kanji
    let _kanji = retrieved_lobby
        .with(|mut s| {
            let r = s.generate_random_kanji();
            (s, r)
        })
        .unwrap();

    // Verify players and scores
    let players = retrieved_lobby.read(|s| s.get_all_players()).unwrap();
    assert_eq!(players.len(), 2);
}

#[test]
fn test_lobby_leader_functionality() {
    let mut lobby_state = new_lobby().unwrap();

    // First player becomes leader
    let is_leader1 = lobby_state
        .add_player(PlayerId::from("player1"), "Alice".to_string())
        .unwrap();
    assert!(is_leader1);
    assert!(lobby_state.is_leader(&PlayerId::from("player1")).unwrap());

    // Second player is not leader
    let is_leader2 = lobby_state
        .add_player(PlayerId::from("player2"), "Bob".to_string())
        .unwrap();
    assert!(!is_leader2);
    assert!(!lobby_state.is_leader(&PlayerId::from("player2")).unwrap());
}

#[test]
fn test_update_settings_leader_only() {
    let mut lobby_state = new_lobby().unwrap();

    lobby_state
        .add_player(PlayerId::from("leader"), "Leader".to_string())
        .unwrap();
    lobby_state
        .add_player(PlayerId::from("player"), "Player".to_string())
        .unwrap();

    let new_settings = GameSettings {
        difficulty_levels: vec!["N5".to_string(), "N4".to_string()],
        time_limit_seconds: Some(60),
        max_players: 10,
    };

    // Leader can update settings
    assert!(lobby_state
        .update_settings(&PlayerId::from("leader"), new_settings.clone())
        .is_ok());

    // Non-leader cannot update settings
    assert!(lobby_state
        .update_settings(&PlayerId::from("player"), new_settings)
        .is_err());
}

#[test]
fn test_start_game_leader_only() {
    let mut lobby_state = new_lobby().unwrap();

    lobby_state
        .add_player(PlayerId::from("leader"), "Leader".to_string())
        .unwrap();
    lobby_state
        .add_player(PlayerId::from("player"), "Player".to_string())
        .unwrap();

    // Leader can start game
    assert!(lobby_state.start_game(&PlayerId::from("leader")).is_ok());

    // Game status should change to Playing
    let status = lobby_state.game_status();
    assert_eq!(status, GameStatus::Playing);
}
