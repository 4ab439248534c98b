use holiday_wheel::handlers::{
    handle_buy_vowel, handle_claim_host, handle_end_tossup, handle_leave_game, handle_release_host, handle_reveal_all,
    handle_set_active_player, handle_set_config, handle_set_pack, handle_set_players, handle_start_tossup,
    handle_tossup_guess, handle_buzz, handle_disconnect, handle_disconnect_at, handle_new_game, handle_new_puzzle,
    ConfigUpdate,
};
use holiday_wheel::manager::GameManager;
use holiday_wheel::state::{GamePhase, Puzzle};

fn hosted_room() -> GameManager {
    let mut manager = GameManager::new();
    assert!(handle_claim_host(&mut manager, "r", "host", "code", "code"));
    let game = manager.get_room_mut("r").unwrap();
    game.puzzle = Puzzle { id: 1, category: "Phrase".to_string(), answer: "HELLO WORLD".to_string() };
    game.add_player("Ann".to_string(), Some("s1".to_string()), None, None);
    game.add_player("Bob".to_string(), Some("s2".to_string()), None, None);
    manager
}

#[test]
fn test_host_only_actions_refused_for_others() {
    let mut m = hosted_room();
    assert_eq!(handle_set_active_player(&mut m, "r", "s1", 1), Some(Err("Host only.")));
    assert_eq!(handle_reveal_all(&mut m, "r", "s1"), Some(Err("Host only.")));
    assert_eq!(handle_start_tossup(&mut m, "r", "s1"), Some(Err("Host only.")));
    assert_eq!(handle_release_host(&mut m, "r", "s1"), Some(Err("Only the host can release host mode.")));
    assert_eq!(handle_set_active_player(&mut m, "nowhere", "host", 1), None);
}

#[test]
fn test_set_active_player() {
    let mut m = hosted_room();
    assert_eq!(handle_set_active_player(&mut m, "r", "host", 1), Some(Ok("Active player set to Bob.".to_string())));
    assert_eq!(m.get_room("r").unwrap().active_idx, 1);
    assert_eq!(handle_set_active_player(&mut m, "r", "host", 2), Some(Err("Invalid player index.")));
}

#[test]
fn test_release_host() {
    let mut m = hosted_room();
    assert_eq!(handle_release_host(&mut m, "r", "host"), Some(Ok("Host released.".to_string())));
    assert!(m.get_room("r").unwrap().host_sid.is_none());
}

#[test]
fn test_reveal_all_and_tossup_cycle() {
    let mut m = hosted_room();
    assert_eq!(handle_reveal_all(&mut m, "r", "host"), Some(Ok("All letters revealed.".to_string())));
    assert!(m.get_room("r").unwrap().is_solved());
    assert_eq!(handle_start_tossup(&mut m, "r", "host"), Some(Ok("Toss-up started! Buzz in to solve!".to_string())));
    assert_eq!(m.get_room("r").unwrap().phase, GamePhase::Tossup);
    assert_eq!(handle_end_tossup(&mut m, "r", "host"), Some(Ok("Toss-up ended.".to_string())));
    assert_eq!(m.get_room("r").unwrap().phase, GamePhase::Normal);
}

#[test]
fn test_set_pack_labels() {
    let mut m = hosted_room();
    assert_eq!(handle_set_pack(&mut m, "r", "host", None, None), Some(Ok("Puzzle pack changed to: All Packs".to_string())));
    assert_eq!(handle_set_pack(&mut m, "r", "host", Some(0), Some("X".to_string())), Some(Ok("Puzzle pack changed to: All Packs".to_string())));
    assert_eq!(handle_set_pack(&mut m, "r", "host", Some(4), None), Some(Ok("Puzzle pack changed to: Pack 4".to_string())));
    assert_eq!(handle_set_pack(&mut m, "r", "host", Some(4), Some("Winter".to_string())), Some(Ok("Puzzle pack changed to: Winter".to_string())));
    let g = m.get_room("r").unwrap();
    assert_eq!(g.config.pack_id, Some(4));
    assert_eq!(g.active_pack_id, Some(4));
    assert_eq!(g.active_pack_name, Some("Winter".to_string()));
}

#[test]
fn test_set_config() {
    let mut m = hosted_room();
    let update = ConfigUpdate { vowel_cost: Some(100), final_seconds: None, final_jackpot: Some(5000), prize_replace_cash_values: Some(vec![1, 2]) };
    assert_eq!(handle_set_config(&mut m, "r", "host", &update), Some(Ok("Config saved.".to_string())));
    let g = m.get_room("r").unwrap();
    assert_eq!(g.config.vowel_cost, 100);
    assert_eq!(g.config.bonus_seconds, 30);
    assert_eq!(g.config.bonus_jackpot, 5000);
    assert_eq!(g.config.prize_replace_cash_values, vec![1, 2]);
}

#[test]
fn test_set_players_cuts_names() {
    let mut m = hosted_room();
    assert_eq!(handle_set_players(&mut m, "r", "host", &vec![]), Some(Err("Provide a list of player names.")));
    let long = "x".repeat(35);
    let names = vec!["Cy".to_string(), long];
    assert_eq!(handle_set_players(&mut m, "r", "host", &names), Some(Ok("Set 2 players.".to_string())));
    let g = m.get_room("r").unwrap();
    assert_eq!(g.players.len(), 2);
    assert_eq!(g.players[0].name, "Cy");
    assert_eq!(g.players[1].name, "x".repeat(30));
    assert_eq!(g.players[1].id, 1);
    assert!(g.players[1].socket_id.is_none());
    assert_eq!(g.active_idx, 0);
}

#[test]
fn test_leave_game() {
    let mut m = hosted_room();
    assert_eq!(handle_leave_game(&mut m, "r", "s1"), Some("Ann left the game.".to_string()));
    assert_eq!(handle_leave_game(&mut m, "r", "s1"), None);
    let g = m.get_room("r").unwrap();
    assert_eq!(g.players.len(), 1);
    assert_eq!(g.players[0].name, "Bob");
    assert_eq!(g.players[0].id, 0);
}

#[test]
fn test_buy_vowel_messages() {
    let mut m = hosted_room();
    m.get_room_mut("r").unwrap().phase = GamePhase::Tossup;
    assert_eq!(handle_buy_vowel(&mut m, "r", "s1", 'e'), Some(Err("Vowels can only be bought during normal rounds.")));
    m.get_room_mut("r").unwrap().phase = GamePhase::Normal;
    assert_eq!(handle_buy_vowel(&mut m, "r", "s2", 'e'), Some(Err("Only the active player can buy vowels.")));
    assert_eq!(handle_buy_vowel(&mut m, "r", "s1", 'e'), Some(Ok("Need $250 to buy a vowel".to_string())));
    m.get_room_mut("r").unwrap().players[0].round_bank = 600;
    assert_eq!(handle_buy_vowel(&mut m, "r", "s1", 'o'), Some(Ok("2 O(s)!".to_string())));
    assert_eq!(m.get_room("r").unwrap().players[0].round_bank, 350);
    assert_eq!(handle_buy_vowel(&mut m, "r", "s1", 'b'), Some(Ok("Must be a vowel".to_string())));
}

#[test]
fn test_tossup_letter_guess() {
    let mut m = hosted_room();
    assert_eq!(handle_tossup_guess(&mut m, "r", "s1", 'h'), Some(Err("Not in toss-up mode.")));
    handle_start_tossup(&mut m, "r", "host");
    assert_eq!(handle_tossup_guess(&mut m, "r", "s1", 'h'), Some(Err("Only the player who buzzed in can guess.")));
    handle_buzz(&mut m, "r", "s1").unwrap();
    let msg = handle_tossup_guess(&mut m, "r", "s1", 'z').unwrap().unwrap();
    assert_eq!(msg, "No Zs - locked out!");
}

#[test]
fn test_disconnect_keeps_seat_and_drops_roles() {
    let mut m = hosted_room();
    handle_disconnect_at(&mut m, "host", 1_700_000_000);
    let g = m.get_room("r").unwrap();
    assert!(g.host_sid.is_none());
    assert_eq!(g.players.len(), 2);
    handle_disconnect_at(&mut m, "s1", 1_700_000_100);
    let g = m.get_room("r").unwrap();
    assert_eq!(g.players[0].socket_id, None);
    assert_eq!(g.players[0].disconnected_at, Some(1_700_000_100));
    assert_eq!(g.players[1].socket_id, Some("s2".to_string()));
    assert_eq!(g.players[1].disconnected_at, None);
}

#[test]
fn test_disconnect_closes_empty_rooms_only() {
    let mut m = hosted_room();
    assert!(handle_claim_host(&mut m, "empty", "host", "code", "code"));
    assert!(m.get_room("empty").is_some());
    let now = handle_disconnect(&mut m, "nobody");
    assert!(now > 1_600_000_000);
    assert!(m.get_room("empty").is_none());
    let g = m.get_room("r").unwrap();
    assert_eq!(g.host_sid, Some("host".to_string()));
}

#[test]
fn test_disconnect_releases_tossup_control() {
    let mut m = hosted_room();
    assert_eq!(handle_start_tossup(&mut m, "r", "host"), Some(Ok("Toss-up started! Buzz in to solve!".to_string())));
    assert!(handle_buzz(&mut m, "r", "s2").is_ok());
    assert_eq!(m.get_room("r").unwrap().tossup.controller_sid, Some("s2".to_string()));
    handle_disconnect_at(&mut m, "s2", 5);
    let g = m.get_room("r").unwrap();
    assert_eq!(g.tossup.controller_sid, None);
    assert_eq!(g.players[1].disconnected_at, Some(5));
}

#[test]
fn test_disconnect_keeps_scores() {
    let mut m = hosted_room();
    m.get_room_mut("r").unwrap().players[0].total = 1500;
    m.get_room_mut("r").unwrap().players[0].round_bank = 300;
    handle_disconnect_at(&mut m, "s1", 42);
    let g = m.get_room("r").unwrap();
    assert_eq!(g.players[0].name, "Ann");
    assert_eq!(g.players[0].total, 1500);
    assert_eq!(g.players[0].round_bank, 300);
}

#[test]
fn test_new_puzzle_and_new_game() {
    let mut m = hosted_room();
    let next = Puzzle { id: 2, category: "Thing".to_string(), answer: "SLED".to_string() };
    assert_eq!(handle_new_puzzle(&mut m, "r", "s1", next.clone()), Some(Err("Host only.")));
    assert_eq!(m.get_room("r").unwrap().puzzle.id, 1);
    assert_eq!(handle_new_puzzle(&mut m, "nowhere", "host", next.clone()), None);
    {
        let game = m.get_room_mut("r").unwrap();
        game.players[0].total = 700;
        game.players[0].round_bank = 300;
        game.revealed.insert('H');
    }
    assert_eq!(handle_new_puzzle(&mut m, "r", "host", next.clone()), Some(Ok("New puzzle loaded.".to_string())));
    {
        let game = m.get_room("r").unwrap();
        assert_eq!(game.puzzle.answer, "SLED");
        assert!(game.revealed.is_empty());
        assert_eq!(game.players[0].total, 700);
        assert_eq!(game.players[0].round_bank, 0);
    }
    let third = Puzzle { id: 3, category: "Place".to_string(), answer: "NORTH POLE".to_string() };
    assert_eq!(handle_new_game(&mut m, "r", "host", third), Some(Ok("New game started.".to_string())));
    let game = m.get_room("r").unwrap();
    assert_eq!(game.puzzle.id, 3);
    assert_eq!(game.players[0].total, 0);
    assert_eq!(game.phase, GamePhase::Pregame);
    assert_eq!(game.round, 1);
    assert_eq!(game.wheel_slots.len(), 24);
}
