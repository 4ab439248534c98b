use holiday_wheel::handlers::{handle_guess, handle_solve, handle_spin, handle_buzz, handle_join_game};
use holiday_wheel::manager::GameManager;
use holiday_wheel::state::{Game, GamePhase, GuessResult, Puzzle};
use holiday_wheel::wheel::{create_standard_wheel, shuffle_wheel_with_spacing, WedgeValue, WHEEL_SIZE};

fn manager_in_normal_round(room: &str) -> GameManager {
    let mut manager = GameManager::new();
    let game = manager.get_or_create_room(room);
    game.puzzle = Puzzle { id: 1, category: "Phrase".to_string(), answer: "HELLO WORLD".to_string() };
    game.add_player("Player 1".to_string(), Some("socket1".to_string()), None, None);
    game.add_player("Player 2".to_string(), Some("socket2".to_string()), None, None);
    game.add_player("Player 3".to_string(), Some("socket3".to_string()), None, None);
    game.phase = GamePhase::Normal;
    manager
}

// ---------- wheel ----------

#[test]
fn test_wheel_has_24_wedges() {
    let wheel = create_standard_wheel();
    assert_eq!(wheel.len(), WHEEL_SIZE);
    assert_eq!(wheel.len(), 24);
}

#[test]
fn test_shuffle_preserves_size() {
    let original = create_standard_wheel();
    let shuffled = shuffle_wheel_with_spacing(original);

    // Should always have exactly 24 wedges
    assert_eq!(shuffled.len(), WHEEL_SIZE);

    // Should have special wedges spread out
    let mut last_special_idx: Option<usize> = None;
    for (i, wedge) in shuffled.iter().enumerate() {
        if wedge.is_special() {
            if let Some(last) = last_special_idx {
                // Special wedges should have some spacing
                assert!(i - last >= 1);
            }
            last_special_idx = Some(i);
        }
    }
}

#[test]
fn test_shuffle_keeps_the_same_wedges() {
    let key = |w: &WedgeValue| format!("{:?}", w);
    let mut before: Vec<String> = create_standard_wheel().iter().map(key).collect();
    let mut after: Vec<String> = shuffle_wheel_with_spacing(create_standard_wheel()).iter().map(key).collect();
    before.sort();
    after.sort();
    assert_eq!(before, after);
}

#[test]
fn test_standard_wheel_values() {
    let wheel = create_standard_wheel();
    assert_eq!(wheel[0], WedgeValue::Cash(5000));
    assert!(wheel[5].is_bankrupt());
    assert!(wheel[14].is_lose_turn());
    assert_eq!(wheel[19], WedgeValue::FreePlay);
    assert!(matches!(&wheel[10], WedgeValue::Prize { name, .. } if name == "GIFT CARD"));
    assert_eq!(wheel.iter().filter(|w| w.is_special()).count(), 5);
}

// ---------- spinning ----------

#[test]
fn test_spin_lands_where_told_without_history() {
    let mut game = Game::new("r");
    game.add_player("A".to_string(), None, None, None);
    let w = game.spin(3).unwrap();
    assert_eq!(game.wheel_index, Some(3));
    assert_eq!(game.last_spin_index, Some(3));
    assert_eq!(w, game.wheel_slots[3]);
    assert_eq!(game.spin_history.len(), 1);
}

#[test]
fn test_spin_history_keeps_six() {
    let mut game = Game::new("r");
    for i in 0..8usize {
        let _ = game.spin(i);
    }
    assert_eq!(game.spin_history.len(), 6);
}

#[test]
fn test_bankrupt_empties_round_bank_and_passes_turn() {
    let mut game = Game::new("r");
    game.add_player("A".to_string(), None, None, None);
    game.add_player("B".to_string(), None, None, None);
    game.players[0].round_bank = 900;
    game.players[0].total = 50;
    game.wheel_slots[2] = WedgeValue::Bankrupt;
    let w = game.spin(2).unwrap();
    assert!(w.is_bankrupt());
    assert_eq!(game.players[0].round_bank, 0);
    assert_eq!(game.players[0].total, 50);
    assert_eq!(game.active_idx, 1);
    assert!(game.current_wedge.is_none());
}

#[test]
fn test_handle_spin_in_normal_round() {
    let mut manager = manager_in_normal_round("room");
    manager.get_room_mut("room").unwrap().wheel_slots[4] = WedgeValue::Cash(650);
    let (w, msg) = handle_spin(&mut manager, "room", "socket1", 24 + 4).unwrap();
    assert_eq!(w, WedgeValue::Cash(650));
    assert_eq!(msg, "$650! Guess a consonant.");
    assert_eq!(
        handle_spin(&mut manager, "room", "socket2", 0).unwrap_err(),
        "Only the active player (or host) can spin."
    );
}

#[test]
fn test_handle_spin_prize_message() {
    let mut manager = manager_in_normal_round("room");
    manager.get_room_mut("room").unwrap().wheel_slots[1] = WedgeValue::prize("SLED");
    let (_, msg) = handle_spin(&mut manager, "room", "socket1", 1).unwrap();
    assert_eq!(msg, "SLED! Guess a consonant to win it.");
}

// ---------- guessing and solving through the handlers ----------

#[test]
fn test_handle_guess_messages() {
    let mut manager = manager_in_normal_round("room");
    manager.get_room_mut("room").unwrap().current_wedge = Some(WedgeValue::Cash(500));
    assert_eq!(handle_guess(&mut manager, "room", "socket1", 'l').unwrap(), "3 L(s)!");
    assert_eq!(manager.get_room("room").unwrap().players[0].round_bank, 1500);
    assert_eq!(handle_guess(&mut manager, "room", "socket1", 'L').unwrap(), "Letter already used");
    assert_eq!(handle_guess(&mut manager, "room", "socket1", 'D').unwrap(), "Spin before guessing a consonant");
    assert_eq!(handle_guess(&mut manager, "room", "socket1", 'a').unwrap(), "Invalid letter (must be a consonant)");
    manager.get_room_mut("room").unwrap().current_wedge = Some(WedgeValue::Cash(500));
    assert_eq!(handle_guess(&mut manager, "room", "socket1", 'x').unwrap(), "No Xs");
    assert_eq!(manager.get_room("room").unwrap().active_idx, 1);
    assert_eq!(handle_guess(&mut manager, "nowhere", "socket1", 'x').unwrap_err(), "Room not found");
}

#[test]
fn test_handle_solve_normal_round() {
    let mut manager = manager_in_normal_round("room");
    manager.get_room_mut("room").unwrap().players[0].round_bank = 5000;
    let (solved, msg, delay) = handle_solve(&mut manager, "room", "socket1", "hello, world").unwrap();
    assert!(solved);
    assert_eq!(msg, "Correct! Puzzle solved!");
    let game = manager.get_room("room").unwrap();
    assert_eq!(delay, Some(game.config.puzzle_display_seconds as u64));
    assert!(game.is_solved());
    assert_eq!(game.players[0].total, 5000);
    assert_eq!(game.puzzle_solved_by, Some("Player 1".to_string()));
}

#[test]
fn test_handle_solve_wrong_and_other_phases() {
    let mut manager = manager_in_normal_round("room");
    let (solved, msg, delay) = handle_solve(&mut manager, "room", "socket1", "GOODBYE").unwrap();
    assert!(!solved);
    assert_eq!(msg, "Incorrect, sorry!");
    assert!(delay.is_none());
    assert_eq!(manager.get_room("room").unwrap().active_idx, 1);
    assert_eq!(
        handle_solve(&mut manager, "room", "socket1", "HELLO WORLD").unwrap_err(),
        "Only the active player can solve."
    );
    manager.get_room_mut("room").unwrap().phase = GamePhase::Pregame;
    assert_eq!(
        handle_solve(&mut manager, "room", "socket2", "HELLO WORLD").unwrap_err(),
        "Solving is not allowed right now."
    );
}

#[test]
fn test_handle_solve_bonus_round_jackpot() {
    let mut manager = manager_in_normal_round("room");
    {
        let game = manager.get_room_mut("room").unwrap();
        game.start_bonus();
        game.active_idx = 0;
    }
    let jackpot = manager.get_room("room").unwrap().config.bonus_jackpot;
    let (solved, msg, delay) = handle_solve(&mut manager, "room", "socket1", "HELLO WORLD").unwrap();
    assert!(solved);
    assert_eq!(msg, format!("Correct! You win the ${} jackpot!", jackpot));
    assert!(delay.is_none());
    assert_eq!(manager.get_room("room").unwrap().players[0].total, jackpot);
}

#[test]
fn test_repeated_consonant_refused() {
    let mut game = Game::new("r");
    game.puzzle = Puzzle { id: 1, category: "Phrase".to_string(), answer: "HELLO WORLD".to_string() };
    game.add_player("A".to_string(), None, None, None);
    game.current_wedge = Some(WedgeValue::Cash(300));
    assert!(matches!(game.guess_consonant('W'), GuessResult::Correct(1)));
    game.current_wedge = Some(WedgeValue::Cash(300));
    assert!(matches!(game.guess_consonant('w'), GuessResult::AlreadyUsed));
}

#[test]
fn test_wrong_tossup_answer_then_buzz_locked() {
    let mut manager = manager_in_normal_round("room");
    manager.get_room_mut("room").unwrap().start_tossup();
    assert_eq!(handle_buzz(&mut manager, "room", "socket3").unwrap(), (2, "Player 3".to_string()));
    let (solved, _, _) = handle_solve(&mut manager, "room", "socket3", "NOPE").unwrap();
    assert!(!solved);
    assert_eq!(handle_buzz(&mut manager, "room", "socket3").unwrap_err(), "You are locked out for this toss-up");
    assert_eq!(handle_buzz(&mut manager, "room", "socket1").unwrap().0, 0);
}

#[test]
fn test_turns_go_round() {
    let mut game = Game::new("r");
    for n in ["A", "B", "C", "D"] {
        game.add_player(n.to_string(), None, None, None);
    }
    game.active_idx = 2;
    for _ in 0..4 {
        game.advance_turn();
    }
    assert_eq!(game.active_idx, 2);
}

// ---------- rooms ----------

#[test]
fn test_manager_lists_and_cleans_rooms() {
    let mut manager = GameManager::new();
    handle_join_game(&mut manager, "a", "s1", None).unwrap();
    manager.get_or_create_room("b");
    manager.get_or_create_room("c").host_sid = Some("h".to_string());
    let rooms = manager.list_rooms();
    assert_eq!(rooms.len(), 3);
    assert_eq!(rooms[0].name, "a");
    assert_eq!(rooms[0].player_count, 1);
    assert!(rooms[2].has_host);
    manager.cleanup_empty_rooms();
    let rooms = manager.list_rooms();
    assert_eq!(rooms.len(), 1);
    assert_eq!(rooms[0].name, "a");
    assert!(manager.remove_room("a").is_some());
    assert!(manager.remove_room("a").is_none());
    assert!(manager.get_room("a").is_none());
}

#[test]
fn test_join_name_numbering_and_state() {
    let mut manager = GameManager::new();
    let (_, _, n1) = handle_join_game(&mut manager, "a", "s1", None).unwrap();
    let (_, _, n2) = handle_join_game(&mut manager, "a", "s2", None).unwrap();
    assert_eq!(n1, "Player 1");
    assert_eq!(n2, "Player 2");
    let state = manager.get_room("a").unwrap().get_state();
    assert_eq!(state.room, "a");
    assert_eq!(state.players.len(), 2);
    assert!(state.players[0].claimed);
    assert_eq!(state.wheel_slots.len(), 24);
}

#[test]
fn test_shuffle_keeps_special_wedges_apart() {
    for _ in 0..200 {
        let r = shuffle_wheel_with_spacing(create_standard_wheel());
        assert_eq!(r.len(), WHEEL_SIZE);
        for i in 0..WHEEL_SIZE {
            assert!(!(r[i].is_special() && r[(i + 1) % WHEEL_SIZE].is_special()));
        }
    }
}
