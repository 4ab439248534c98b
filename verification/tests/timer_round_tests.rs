use holiday_wheel::final_round::{
    handle_end_final_at, handle_final_pick_at, handle_final_pick_consonants_at, handle_final_pick_vowel_at,
    handle_final_start_timer_at, handle_start_final,
};
use holiday_wheel::handlers::{handle_buzz, handle_claim_host};
use holiday_wheel::manager::GameManager;
use holiday_wheel::state::{BonusStage, GamePhase, Puzzle};
use holiday_wheel::timers::{
    handle_bonus_timeout_at, handle_buzz_timeout_at, handle_spin_complete_at, handle_turn_timeout_at,
    tossup_reveal_tick,
};
use holiday_wheel::wheel::WedgeValue;

const NOW: i64 = 1_700_000_000_000;

fn room_with_players() -> GameManager {
    let mut manager = GameManager::new();
    assert!(handle_claim_host(&mut manager, "r", "host", "code", "code"));
    let game = manager.get_room_mut("r").unwrap();
    game.puzzle = Puzzle { id: 1, category: "Phrase".to_string(), answer: "HELLO WORLD".to_string() };
    game.add_player("Ann".to_string(), Some("s1".to_string()), None, None);
    game.add_player("Bob".to_string(), Some("s2".to_string()), None, None);
    manager
}

// ========== TURN TIMER ==========

#[test]
fn test_spin_complete_starts_turn_timer() {
    let mut m = room_with_players();
    // Not in a normal round: nothing starts.
    {
        let game = m.get_room_mut("r").unwrap();
        game.phase = GamePhase::Pregame;
        game.current_wedge = Some(WedgeValue::Cash(500));
    }
    assert_eq!(handle_spin_complete_at(&mut m, "r", NOW), None);
    {
        let game = m.get_room_mut("r").unwrap();
        game.phase = GamePhase::Normal;
        game.current_wedge = None;
    }
    // No spin result yet: nothing starts.
    assert_eq!(handle_spin_complete_at(&mut m, "r", NOW), None);
    m.get_room_mut("r").unwrap().current_wedge = Some(WedgeValue::Cash(500));
    assert_eq!(handle_spin_complete_at(&mut m, "r", NOW), Some(10));
    assert_eq!(m.get_room("r").unwrap().turn_timer_end_ms, Some(NOW + 10_000));
    assert_eq!(handle_spin_complete_at(&mut m, "nowhere", NOW), None);
}

#[test]
fn test_turn_timeout_passes_the_turn() {
    let mut m = room_with_players();
    {
        let game = m.get_room_mut("r").unwrap();
        game.phase = GamePhase::Normal;
        game.current_wedge = Some(WedgeValue::Cash(500));
    }
    handle_spin_complete_at(&mut m, "r", NOW);
    // Before the end of the timer nothing happens.
    assert_eq!(handle_turn_timeout_at(&mut m, "r", NOW + 5_000), None);
    assert_eq!(m.get_room("r").unwrap().active_idx, 0);
    assert_eq!(handle_turn_timeout_at(&mut m, "r", NOW + 10_000), Some("Ann ran out of time!".to_string()));
    let game = m.get_room("r").unwrap();
    assert_eq!(game.active_idx, 1);
    assert!(game.current_wedge.is_none());
    assert!(game.turn_timer_end_ms.is_none());
    // The turn was used: a late timer does nothing.
    assert_eq!(handle_turn_timeout_at(&mut m, "r", NOW + 20_000), None);
}

// ========== TOSS-UP ==========

#[test]
fn test_tossup_reveal_ticks() {
    let mut m = room_with_players();
    assert!(!tossup_reveal_tick(&mut m, "r"));
    m.get_room_mut("r").unwrap().start_tossup();
    let letters = m.get_room("r").unwrap().tossup.reveal_order.len();
    assert!(letters > 0);
    let mut ticks = 0;
    while tossup_reveal_tick(&mut m, "r") {
        ticks += 1;
        assert!(ticks <= letters);
    }
    // Each tick showed one new letter; the reveals stop at the first repeated
    // letter of the (shuffled) order, so at least one and at most seven of the
    // letters of HELLO WORLD are shown.
    let shown = m.get_room("r").unwrap().revealed.len();
    assert_eq!(shown, ticks);
    assert!(1 <= shown && shown <= 7);
    assert!(!tossup_reveal_tick(&mut m, "nowhere"));
}

#[test]
fn test_buzz_timeout_locks_out() {
    let mut m = room_with_players();
    m.get_room_mut("r").unwrap().start_tossup();
    assert_eq!(handle_buzz_timeout_at(&mut m, "r", "Bob", NOW), None);
    let (_, name) = handle_buzz(&mut m, "r", "s2").unwrap();
    assert_eq!(name, "Bob");
    let end = m.get_room("r").unwrap().tossup.buzz_timer_end_ms.unwrap();
    assert_eq!(handle_buzz_timeout_at(&mut m, "r", "Bob", end - 1), None);
    assert_eq!(handle_buzz_timeout_at(&mut m, "r", "Bob", end), Some("Bob ran out of time!".to_string()));
    let game = m.get_room("r").unwrap();
    assert!(game.tossup.controller_sid.is_none());
    assert!(game.tossup.locked_sids.contains("s2"));
    assert!(game.tossup.buzz_timer_end_ms.is_none());
}

// ========== FINAL ROUND ==========

#[test]
fn test_final_round_host_actions() {
    let mut m = room_with_players();
    assert_eq!(handle_start_final(&mut m, "r", "s1"), Some(Err("Host only.")));
    assert_eq!(
        handle_start_final(&mut m, "r", "host"),
        Some(Ok("Final round started! Pick 3 consonants and 1 vowel.".to_string()))
    );
    {
        let game = m.get_room("r").unwrap();
        assert_eq!(game.phase, GamePhase::Bonus);
        assert_eq!(game.bonus_state.stage, BonusStage::Pick);
        for c in ['R', 'S', 'T', 'L', 'N', 'E'] {
            assert!(game.revealed.contains(&c));
        }
    }
    assert_eq!(handle_end_final_at(&mut m, "r", "s2", NOW), Some(Err("Host only.")));
    assert_eq!(handle_end_final_at(&mut m, "r", "host", NOW), Some(Ok("Final round ended.".to_string())));
    let game = m.get_room("r").unwrap();
    assert_eq!(game.phase, GamePhase::GameOver);
    assert_eq!(game.game_over_state.reset_at_ms, Some(NOW + 15_000));
}

#[test]
fn test_final_picks_and_solve_timer() {
    let mut m = room_with_players();
    handle_start_final(&mut m, "r", "host");
    assert_eq!(
        handle_final_pick_at(&mut m, "r", "s2", "consonant", Some('H'), NOW),
        Some(Err("Only the active player can pick."))
    );
    assert_eq!(handle_final_pick_at(&mut m, "r", "s1", "consonant", None, NOW), None);
    assert_eq!(
        handle_final_pick_at(&mut m, "r", "s1", "letter", Some('H'), NOW),
        Some(Err("Invalid pick kind"))
    );
    assert_eq!(
        handle_final_start_timer_at(&mut m, "r", "s1", NOW),
        Some(Err("Complete all picks first."))
    );
    assert_eq!(
        handle_final_pick_at(&mut m, "r", "s1", "consonant", Some('h'), NOW),
        Some(Ok(("Picked consonant: H".to_string(), false)))
    );
    assert_eq!(
        handle_final_pick_at(&mut m, "r", "s1", "consonant", Some('A'), NOW),
        Some(Err("That's a vowel"))
    );
    // Refused picks in a batch are passed over.
    assert_eq!(handle_final_pick_consonants_at(&mut m, "r", "s1", &vec!['W', 'H', 'D'], NOW), Some(Ok(())));
    assert_eq!(m.get_room("r").unwrap().bonus_state.picks_consonants, vec!['H', 'W', 'D']);
    assert_eq!(
        handle_final_pick_consonants_at(&mut m, "r", "s2", &vec!['G'], NOW),
        Some(Err("Only the active player can pick."))
    );
    assert_eq!(handle_final_pick_vowel_at(&mut m, "r", "s1", Some('O'), NOW), Some(Ok(())));
    {
        let game = m.get_room("r").unwrap();
        assert_eq!(game.bonus_state.pick_vowel, Some('O'));
        // The last pick started the solve timer.
        assert_eq!(game.bonus_state.stage, BonusStage::Running);
        assert_eq!(game.bonus_state.end_ms, Some(NOW + i64::from(game.config.bonus_seconds) * 1000));
    }
    assert_eq!(handle_final_start_timer_at(&mut m, "r", "s2", NOW), Some(Err("Only the active player can start the timer.")));
    assert_eq!(handle_final_start_timer_at(&mut m, "r", "s1", NOW + 1), Some(Ok("Time to solve!".to_string())));
    // The timer already ran: starting it again changes nothing.
    assert_eq!(
        m.get_room("r").unwrap().bonus_state.end_ms,
        Some(NOW + i64::from(m.get_room("r").unwrap().config.bonus_seconds) * 1000)
    );
}

#[test]
fn test_final_timer_refusals_outside_final() {
    let mut m = room_with_players();
    assert_eq!(handle_final_start_timer_at(&mut m, "r", "s1", NOW), Some(Err("Not in final round.")));
    assert_eq!(handle_final_start_timer_at(&mut m, "nowhere", "s1", NOW), None);
}

#[test]
fn test_bonus_timeout_ends_round() {
    let mut m = room_with_players();
    handle_start_final(&mut m, "r", "host");
    assert_eq!(handle_bonus_timeout_at(&mut m, "r", NOW), None);
    handle_final_pick_consonants_at(&mut m, "r", "s1", &vec!['H', 'W', 'D'], NOW);
    handle_final_pick_vowel_at(&mut m, "r", "s1", Some('O'), NOW);
    let end = m.get_room("r").unwrap().bonus_state.end_ms.unwrap();
    assert_eq!(handle_bonus_timeout_at(&mut m, "r", end - 1_000), None);
    assert_eq!(
        handle_bonus_timeout_at(&mut m, "r", end),
        Some("Time's up! Ann didn't solve in time.".to_string())
    );
    let game = m.get_room("r").unwrap();
    assert_eq!(game.phase, GamePhase::GameOver);
    assert!(!game.game_over_state.bonus_won);
}
