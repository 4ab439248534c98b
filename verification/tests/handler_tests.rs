use holiday_wheel::handlers::{handle_buzz, handle_claim_host, handle_join_game, handle_join_room, handle_solve, handle_guess, handle_spin};
use holiday_wheel::manager::GameManager;
use holiday_wheel::state::{BonusStage, GamePhase, Puzzle, TOSSUP_AWARD};
use holiday_wheel::wheel::WedgeValue;

/// Create a test GameManager with an empty room
fn create_test_manager() -> GameManager {
    GameManager::new()
}

/// Create a test GameManager with a room containing a puzzle
fn create_test_manager_with_room(room: &str) -> GameManager {
    let mut manager = GameManager::new();
    let game = manager.get_or_create_room(room);
    game.puzzle = Puzzle {
        id: 1,
        category: "Phrase".to_string(),
        answer: "HELLO WORLD".to_string(),
    };
    manager
}

/// Create a test GameManager with a room and players
fn create_test_manager_with_players(room: &str) -> GameManager {
    let mut manager = create_test_manager_with_room(room);
    let game = manager.get_room_mut(room).unwrap();
    game.add_player("Player 1".to_string(), Some("socket1".to_string()), None, None);
    game.add_player("Player 2".to_string(), Some("socket2".to_string()), None, None);
    game.add_player("Player 3".to_string(), Some("socket3".to_string()), None, None);
    manager
}

#[test]
fn test_handle_join_room_nonexistent() {
    let manager = create_test_manager();
    let result = handle_join_room(&manager, "nonexistent");
    assert!(result.is_none());
}

#[test]
fn test_handle_join_room_existing() {
    let manager = create_test_manager_with_room("test-room");
    let result = handle_join_room(&manager, "test-room");
    assert!(result.is_some());
    let state = result.unwrap();
    assert_eq!(state.room, "test-room");
    assert_eq!(state.puzzle.answer, "HELLO WORLD");
}

#[test]
fn test_handle_join_room_returns_player_state() {
    let manager = create_test_manager_with_players("test-room");
    let result = handle_join_room(&manager, "test-room");
    assert!(result.is_some());
    let state = result.unwrap();
    assert_eq!(state.players.len(), 3);
    assert_eq!(state.players[0].name, "Player 1");
}


#[test]
fn test_handle_join_game_new_player() {
    let mut manager = create_test_manager();
    let result = handle_join_game(&mut manager, "test-room", "socket1", Some("Alice".to_string()));

    assert!(result.is_ok());
    let (idx, is_reconnect, name) = result.unwrap();
    assert_eq!(idx, 0);
    assert!(!is_reconnect);
    assert_eq!(name, "Alice");

    // Verify player was added
    let game = manager.get_room("test-room").unwrap();
    assert_eq!(game.players.len(), 1);
    assert_eq!(game.players[0].name, "Alice");
    assert_eq!(game.players[0].socket_id, Some("socket1".to_string()));
}

#[test]
fn test_handle_join_game_default_name() {
    let mut manager = create_test_manager();
    let result = handle_join_game(&mut manager, "test-room", "socket1", None);

    assert!(result.is_ok());
    let (_, _, name) = result.unwrap();
    assert_eq!(name, "Player 1");
}

#[test]
fn test_handle_join_game_multiple_players() {
    let mut manager = create_test_manager();

    let result1 = handle_join_game(&mut manager, "test-room", "socket1", Some("Alice".to_string()));
    let result2 = handle_join_game(&mut manager, "test-room", "socket2", Some("Bob".to_string()));

    assert!(result1.is_ok());
    assert!(result2.is_ok());

    let (idx1, _, _) = result1.unwrap();
    let (idx2, _, _) = result2.unwrap();

    assert_eq!(idx1, 0);
    assert_eq!(idx2, 1);

    let game = manager.get_room("test-room").unwrap();
    assert_eq!(game.players.len(), 2);
}

#[test]
fn test_handle_join_game_same_socket_returns_existing() {
    let mut manager = create_test_manager();

    // First join
    let result1 = handle_join_game(&mut manager, "test-room", "socket1", Some("Alice".to_string()));
    assert!(result1.is_ok());
    let (idx1, is_reconnect1, _) = result1.unwrap();
    assert!(!is_reconnect1);

    // Second join with same socket - should return existing player
    let result2 = handle_join_game(&mut manager, "test-room", "socket1", Some("Different Name".to_string()));
    assert!(result2.is_ok());
    let (idx2, is_reconnect2, name2) = result2.unwrap();

    assert_eq!(idx1, idx2);
    assert!(is_reconnect2);
    assert_eq!(name2, "Alice"); // Original name preserved

    // Should still only have one player
    let game = manager.get_room("test-room").unwrap();
    assert_eq!(game.players.len(), 1);
}

#[test]
fn test_handle_join_game_reconnect_disconnected_player() {
    let mut manager = create_test_manager();

    // Add player then disconnect them
    {
        let game = manager.get_or_create_room("test-room");
        game.add_player("Alice".to_string(), Some("old-socket".to_string()), None, None);
        // Simulate disconnect
        game.players[0].socket_id = None;
        game.players[0].disconnected_at = Some(12345);
    }

    // Reconnect with same name, new socket
    let result = handle_join_game(&mut manager, "test-room", "new-socket", Some("Alice".to_string()));
    assert!(result.is_ok());
    let (idx, is_reconnect, name) = result.unwrap();

    assert_eq!(idx, 0);
    assert!(is_reconnect);
    assert_eq!(name, "Alice");

    // Verify reconnection
    let game = manager.get_room("test-room").unwrap();
    assert_eq!(game.players.len(), 1);
    assert_eq!(game.players[0].socket_id, Some("new-socket".to_string()));
    assert!(game.players[0].disconnected_at.is_none());
}

#[test]
fn test_handle_join_game_creates_room_if_needed() {
    let mut manager = create_test_manager();
    assert!(manager.get_room("new-room").is_none());

    let result = handle_join_game(&mut manager, "new-room", "socket1", Some("Player".to_string()));
    assert!(result.is_ok());

    assert!(manager.get_room("new-room").is_some());
}


#[test]
fn test_handle_claim_host_correct_code() {
    let mut manager = create_test_manager();
    let result = handle_claim_host(&mut manager, "test-room", "socket1", "holiday", "holiday");

    assert!(result);
    let game = manager.get_room("test-room").unwrap();
    assert_eq!(game.host_sid, Some("socket1".to_string()));
}

#[test]
fn test_handle_claim_host_wrong_code() {
    let mut manager = create_test_manager();
    let result = handle_claim_host(&mut manager, "test-room", "socket1", "wrong", "holiday");

    assert!(!result);
    let game = manager.get_room("test-room");
    // Room might not exist since claim failed before creating it
    assert!(game.is_none() || game.unwrap().host_sid.is_none());
}

#[test]
fn test_handle_claim_host_replaces_existing_host() {
    let mut manager = create_test_manager();

    // First host
    handle_claim_host(&mut manager, "test-room", "socket1", "holiday", "holiday");
    // New host
    let result = handle_claim_host(&mut manager, "test-room", "socket2", "holiday", "holiday");

    assert!(result);
    let game = manager.get_room("test-room").unwrap();
    assert_eq!(game.host_sid, Some("socket2".to_string()));
}


#[test]
fn test_handle_spin_wrong_phase() {
    let mut manager = create_test_manager_with_players("test-room");
    {
        let game = manager.get_room_mut("test-room").unwrap();
        game.phase = GamePhase::Tossup;
    }

    let result = handle_spin(&mut manager, "test-room", "socket1", 0);
    assert!(result.is_err());
    assert_eq!(result.unwrap_err(), "Spin is only allowed during normal rounds.");
}

#[test]
fn test_handle_spin_room_not_found() {
    let mut manager = create_test_manager();
    let result = handle_spin(&mut manager, "nonexistent", "socket1", 0);

    assert!(result.is_err());
    assert_eq!(result.unwrap_err(), "Room not found");
}


#[test]
fn test_handle_guess_wrong_phase() {
    let mut manager = create_test_manager_with_players("test-room");
    {
        let game = manager.get_room_mut("test-room").unwrap();
        game.phase = GamePhase::Tossup;
        game.current_wedge = Some(WedgeValue::Cash(500));
    }

    let result = handle_guess(&mut manager, "test-room", "socket1", 'H');
    assert!(result.is_err());
    assert!(result.unwrap_err().contains("only allowed during normal rounds"));
}


#[test]
fn test_handle_solve_tossup_phase_correct() {
    let mut manager = create_test_manager_with_players("test-room");
    {
        let game = manager.get_room_mut("test-room").unwrap();
        game.start_tossup();
        game.tossup.controller_sid = Some("socket2".to_string());
        game.active_idx = 1;
    }

    let result = handle_solve(&mut manager, "test-room", "socket2", "HELLO WORLD");
    assert!(result.is_ok());

    let (solved, msg, delay) = result.unwrap();
    assert!(solved);
    assert!(msg.contains("toss-up"));
    assert!(delay.is_some());

    // Verify tossup award
    let game = manager.get_room("test-room").unwrap();
    assert_eq!(game.players[1].total, TOSSUP_AWARD);
}

#[test]
fn test_handle_solve_tossup_phase_incorrect() {
    let mut manager = create_test_manager_with_players("test-room");
    {
        let game = manager.get_room_mut("test-room").unwrap();
        game.start_tossup();
        game.tossup.controller_sid = Some("socket2".to_string());
        game.active_idx = 1;
    }

    let result = handle_solve(&mut manager, "test-room", "socket2", "WRONG");
    assert!(result.is_ok());

    let (solved, msg, _) = result.unwrap();
    assert!(!solved);
    assert!(msg.contains("locked out"));

    // Verify player is locked out
    let game = manager.get_room("test-room").unwrap();
    assert!(game.tossup.locked_sids.contains("socket2"));
    assert!(game.tossup.controller_sid.is_none());
}

#[test]
fn test_handle_solve_tossup_wrong_controller() {
    let mut manager = create_test_manager_with_players("test-room");
    {
        let game = manager.get_room_mut("test-room").unwrap();
        game.start_tossup();
        game.tossup.controller_sid = Some("socket2".to_string());
    }

    // socket1 tries to solve but socket2 has control
    let result = handle_solve(&mut manager, "test-room", "socket1", "HELLO WORLD");
    assert!(result.is_err());
    assert_eq!(result.unwrap_err(), "Only the player who buzzed in can solve.");
}

#[test]
fn test_handle_buzz_success() {
    let mut manager = create_test_manager_with_players("test-room");
    {
        let game = manager.get_room_mut("test-room").unwrap();
        game.start_tossup();
    }

    let result = handle_buzz(&mut manager, "test-room", "socket2");
    assert!(result.is_ok());

    let (player_idx, name) = result.unwrap();
    assert_eq!(player_idx, 1);
    assert_eq!(name, "Player 2");

    // Verify game state
    let game = manager.get_room("test-room").unwrap();
    assert_eq!(game.tossup.controller_sid, Some("socket2".to_string()));
    assert_eq!(game.active_idx, 1);
}

#[test]
fn test_handle_buzz_not_in_tossup() {
    let mut manager = create_test_manager_with_players("test-room");
    // Phase is Normal, not Tossup

    let result = handle_buzz(&mut manager, "test-room", "socket1");
    assert!(result.is_err());
    assert_eq!(result.unwrap_err(), "Not in toss-up mode");
}

#[test]
fn test_handle_buzz_already_locked_out() {
    let mut manager = create_test_manager_with_players("test-room");
    {
        let game = manager.get_room_mut("test-room").unwrap();
        game.start_tossup();
        game.tossup.locked_sids.insert("socket1".to_string());
    }

    let result = handle_buzz(&mut manager, "test-room", "socket1");
    assert!(result.is_err());
    assert_eq!(result.unwrap_err(), "You are locked out for this toss-up");
}

#[test]
fn test_handle_buzz_someone_already_buzzed() {
    let mut manager = create_test_manager_with_players("test-room");
    {
        let game = manager.get_room_mut("test-room").unwrap();
        game.start_tossup();
        game.tossup.controller_sid = Some("socket1".to_string());
    }

    let result = handle_buzz(&mut manager, "test-room", "socket2");
    assert!(result.is_err());
    assert_eq!(result.unwrap_err(), "Someone else already buzzed in");
}

#[test]
fn test_handle_buzz_not_a_player() {
    let mut manager = create_test_manager_with_players("test-room");
    {
        let game = manager.get_room_mut("test-room").unwrap();
        game.start_tossup();
    }

    // Non-existent socket
    let result = handle_buzz(&mut manager, "test-room", "unknown-socket");
    assert!(result.is_err());
    assert_eq!(result.unwrap_err(), "You must claim a player slot first");
}

#[test]
fn test_handle_buzz_room_not_found() {
    let mut manager = create_test_manager();
    let result = handle_buzz(&mut manager, "nonexistent", "socket1");

    assert!(result.is_err());
    assert_eq!(result.unwrap_err(), "Room not found");
}


#[test]
fn test_multiple_rooms_isolated() {
    let mut manager = create_test_manager();

    // Join different rooms
    handle_join_game(&mut manager, "room-a", "socket1", Some("Alice".to_string())).unwrap();
    handle_join_game(&mut manager, "room-b", "socket2", Some("Bob".to_string())).unwrap();

    // Verify rooms are separate
    let room_a = manager.get_room("room-a").unwrap();
    let room_b = manager.get_room("room-b").unwrap();

    assert_eq!(room_a.players.len(), 1);
    assert_eq!(room_b.players.len(), 1);
    assert_eq!(room_a.players[0].name, "Alice");
    assert_eq!(room_b.players[0].name, "Bob");
}


#[test]
fn test_player_with_user_id() {
    let mut manager = create_test_manager();
    let game = manager.get_or_create_room("test-room");

    // Add player with user_id
    let player_idx = game.add_player(
        "AuthUser".to_string(),
        Some("socket1".to_string()),
        Some(123),
        Some(5),
    );

    assert_eq!(player_idx, 0);
    assert_eq!(game.players[0].user_id, Some(123));
    assert_eq!(game.players[0].name, "AuthUser");
}

#[test]
fn test_reconnect_by_user_id() {
    let mut manager = create_test_manager();
    let game = manager.get_or_create_room("test-room");

    // Add player with user_id
    game.add_player(
        "AuthUser".to_string(),
        Some("socket1".to_string()),
        Some(123),
        Some(5),
    );

    // Disconnect the player
    game.players[0].socket_id = None;
    game.players[0].disconnected_at = Some(1000);

    // Verify player is disconnected
    assert!(game.players[0].socket_id.is_none());

    // Player can reconnect - find by user_id
    let reconnect_idx = game.players.iter().position(|p| {
        p.user_id == Some(123) && p.socket_id.is_none()
    });

    assert_eq!(reconnect_idx, Some(0));

    // Simulate reconnection
    if let Some(idx) = reconnect_idx {
        game.players[idx].socket_id = Some("socket2".to_string());
        game.players[idx].disconnected_at = None;
    }

    assert_eq!(game.players[0].socket_id, Some("socket2".to_string()));
    assert!(game.players[0].disconnected_at.is_none());
}

#[test]
fn test_player_without_user_id() {
    let mut manager = create_test_manager();
    let game = manager.get_or_create_room("test-room");

    // Add player without user_id (anonymous/unauthenticated)
    let player_idx = game.add_player(
        "GuestPlayer".to_string(),
        Some("socket1".to_string()),
        None,
        None,
    );

    assert_eq!(player_idx, 0);
    assert_eq!(game.players[0].user_id, None);
    assert_eq!(game.players[0].name, "GuestPlayer");
}

#[test]
fn test_mixed_authenticated_and_anonymous_players() {
    let mut manager = create_test_manager();
    let game = manager.get_or_create_room("test-room");

    // Add authenticated player
    game.add_player(
        "AuthUser".to_string(),
        Some("socket1".to_string()),
        Some(123),
        Some(5),
    );

    // Add anonymous player
    game.add_player(
        "GuestPlayer".to_string(),
        Some("socket2".to_string()),
        None,
        None,
    );

    assert_eq!(game.players.len(), 2);
    assert_eq!(game.players[0].user_id, Some(123));
    assert_eq!(game.players[1].user_id, None);
}

// ========== SPIN, GUESS AND SOLVE IN A NEW ROOM ==========
// The landing position stands for where the wheel came to rest.

#[test]
fn test_handle_spin_active_player() {
    let mut manager = create_test_manager_with_players("test-room");
    let result = handle_spin(&mut manager, "test-room", "socket1", 5);

    assert!(result.is_ok());
    let (wedge, msg) = result.unwrap();

    // Verify message format based on wedge type
    match wedge {
        WedgeValue::Cash(amount) => {
            assert!(msg.contains(&format!("${}", amount)));
        }
        WedgeValue::Bankrupt => {
            assert!(msg.contains("BANKRUPT"));
        }
        WedgeValue::LoseTurn => {
            assert!(msg.contains("LOSE A TURN"));
        }
        WedgeValue::FreePlay => {
            assert!(msg.contains("FREE PLAY"));
        }
        WedgeValue::Prize { name, .. } => {
            assert!(msg.contains(&name));
        }
    }
}

#[test]
fn test_handle_spin_host_can_spin() {
    let mut manager = create_test_manager_with_players("test-room");
    {
        let game = manager.get_room_mut("test-room").unwrap();
        game.host_sid = Some("host-socket".to_string());
    }

    let result = handle_spin(&mut manager, "test-room", "host-socket", 5);
    assert!(result.is_ok());
}

#[test]
fn test_handle_spin_non_active_player_rejected() {
    let mut manager = create_test_manager_with_players("test-room");
    // Player 1 (socket1) is active, try to spin as Player 2
    let result = handle_spin(&mut manager, "test-room", "socket2", 5);

    assert!(result.is_err());
    assert_eq!(result.unwrap_err(), "Only the active player (or host) can spin.");
}

#[test]
fn test_handle_guess_correct_consonant() {
    let mut manager = create_test_manager_with_players("test-room");
    {
        let game = manager.get_room_mut("test-room").unwrap();
        game.current_wedge = Some(WedgeValue::Cash(500));
    }

    let result = handle_guess(&mut manager, "test-room", "socket1", 'H');
    assert!(result.is_ok());
    let msg = result.unwrap();
    assert!(msg.contains("H(s)!")); // 1 H in HELLO WORLD

    // Verify letter was revealed
    let game = manager.get_room("test-room").unwrap();
    assert!(game.revealed.contains(&'H'));
}

#[test]
fn test_handle_guess_incorrect_consonant() {
    let mut manager = create_test_manager_with_players("test-room");
    {
        let game = manager.get_room_mut("test-room").unwrap();
        game.current_wedge = Some(WedgeValue::Cash(500));
    }

    let result = handle_guess(&mut manager, "test-room", "socket1", 'X');
    assert!(result.is_ok());
    let msg = result.unwrap();
    assert!(msg.contains("No Xs"));

    // Turn should advance
    let game = manager.get_room("test-room").unwrap();
    assert_eq!(game.active_idx, 1);
}

#[test]
fn test_handle_guess_vowel_rejected() {
    let mut manager = create_test_manager_with_players("test-room");
    {
        let game = manager.get_room_mut("test-room").unwrap();
        game.current_wedge = Some(WedgeValue::Cash(500));
    }

    let result = handle_guess(&mut manager, "test-room", "socket1", 'A');
    assert!(result.is_ok());
    let msg = result.unwrap();
    assert!(msg.contains("must be a consonant"));
}

#[test]
fn test_handle_guess_already_used() {
    let mut manager = create_test_manager_with_players("test-room");
    {
        let game = manager.get_room_mut("test-room").unwrap();
        game.current_wedge = Some(WedgeValue::Cash(500));
        game.used_letters.insert('H');
    }

    let result = handle_guess(&mut manager, "test-room", "socket1", 'H');
    assert!(result.is_ok());
    let msg = result.unwrap();
    assert!(msg.contains("already used"));
}

#[test]
fn test_handle_guess_need_to_spin() {
    let mut manager = create_test_manager_with_players("test-room");
    // No current_wedge set (hasn't spun)

    let result = handle_guess(&mut manager, "test-room", "socket1", 'H');
    assert!(result.is_ok());
    let msg = result.unwrap();
    assert!(msg.contains("Spin before"));
}

#[test]
fn test_handle_guess_wrong_player() {
    let mut manager = create_test_manager_with_players("test-room");
    {
        let game = manager.get_room_mut("test-room").unwrap();
        game.current_wedge = Some(WedgeValue::Cash(500));
    }

    // Player 1 (socket1) is active, try to guess as Player 2
    let result = handle_guess(&mut manager, "test-room", "socket2", 'H');
    assert!(result.is_err());
    assert_eq!(result.unwrap_err(), "Only the active player can guess.");
}

#[test]
fn test_handle_solve_correct_normal_phase() {
    let mut manager = create_test_manager_with_players("test-room");

    let result = handle_solve(&mut manager, "test-room", "socket1", "HELLO WORLD");
    assert!(result.is_ok());

    let (solved, msg, delay) = result.unwrap();
    assert!(solved);
    assert!(msg.contains("Correct"));
    assert!(delay.is_some());

    // Verify puzzle is solved
    let game = manager.get_room("test-room").unwrap();
    assert!(game.is_solved());
}

#[test]
fn test_handle_solve_incorrect_normal_phase() {
    let mut manager = create_test_manager_with_players("test-room");

    let result = handle_solve(&mut manager, "test-room", "socket1", "WRONG ANSWER");
    assert!(result.is_ok());

    let (solved, msg, delay) = result.unwrap();
    assert!(!solved);
    assert!(msg.contains("Incorrect"));
    assert!(delay.is_none());

    // Verify turn advanced
    let game = manager.get_room("test-room").unwrap();
    assert_eq!(game.active_idx, 1);
}

#[test]
fn test_handle_solve_wrong_player() {
    let mut manager = create_test_manager_with_players("test-room");

    let result = handle_solve(&mut manager, "test-room", "socket2", "HELLO WORLD");
    assert!(result.is_err());
    assert_eq!(result.unwrap_err(), "Only the active player can solve.");
}

/// The final round of the game is its bonus round.
#[test]
fn test_handle_solve_final_phase_correct() {
    let mut manager = create_test_manager_with_players("test-room");
    {
        let game = manager.get_room_mut("test-room").unwrap();
        game.start_bonus();
        game.bonus_state.stage = BonusStage::Running;
    }

    let result = handle_solve(&mut manager, "test-room", "socket1", "HELLO WORLD");
    assert!(result.is_ok());

    let (solved, msg, delay) = result.unwrap();
    assert!(solved);
    assert!(msg.contains("jackpot"));
    assert!(delay.is_none()); // No auto-advance for final

    // Verify jackpot awarded
    let game = manager.get_room("test-room").unwrap();
    assert_eq!(game.players[0].total, game.config.bonus_jackpot);
}

#[test]
fn test_spin_then_guess_awards_money() {
    let mut manager = create_test_manager_with_players("test-room");

    // Spin the wheel
    let spin_result = handle_spin(&mut manager, "test-room", "socket1", 5);
    assert!(spin_result.is_ok());

    // Get the wedge value to verify scoring later
    let (wedge, _) = spin_result.unwrap();

    // If it's a cash wedge, guess a correct letter
    if let WedgeValue::Cash(amount) = wedge {
        let guess_result = handle_guess(&mut manager, "test-room", "socket1", 'L');
        assert!(guess_result.is_ok());

        // L appears 3 times in "HELLO WORLD"
        let game = manager.get_room("test-room").unwrap();
        assert_eq!(game.players[0].round_bank, amount * 3);
    }
}

#[test]
fn handlers_test_solve_awards_round_bank() {
    let mut manager = create_test_manager_with_players("test-room");
    {
        let game = manager.get_room_mut("test-room").unwrap();
        game.players[0].round_bank = 5000;
    }

    let result = handle_solve(&mut manager, "test-room", "socket1", "HELLO WORLD");
    assert!(result.is_ok());
    assert!(result.unwrap().0);

    let game = manager.get_room("test-room").unwrap();
    assert_eq!(game.players[0].total, 5000);
    assert_eq!(game.players[0].round_bank, 0);
}

#[test]
fn test_handle_guess_lowercase_normalized() {
    let mut manager = create_test_manager_with_players("test-room");
    {
        let game = manager.get_room_mut("test-room").unwrap();
        game.current_wedge = Some(WedgeValue::Cash(500));
    }

    let result = handle_guess(&mut manager, "test-room", "socket1", 'h'); // lowercase
    assert!(result.is_ok());
    let msg = result.unwrap();
    assert!(msg.contains("H(s)!")); // Uppercase in message

    let game = manager.get_room("test-room").unwrap();
    assert!(game.revealed.contains(&'H'));
}

#[test]
fn test_handle_solve_case_insensitive() {
    let mut manager = create_test_manager_with_players("test-room");

    let result = handle_solve(&mut manager, "test-room", "socket1", "hello world");
    assert!(result.is_ok());
    assert!(result.unwrap().0);
}
