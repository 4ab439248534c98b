use holiday_wheel::account::Lookup;
use holiday_wheel::db::User;
use holiday_wheel::handlers::{handle_disconnect_at, handle_solve};
use holiday_wheel::manager::GameManager;
use holiday_wheel::session::{
    auth_response, auto_advance_puzzle, get_socket_user_id, get_user_avatar_id, handle_join_game_as,
    validate_socket_auth_token, Seat, SocketUsers,
};
use holiday_wheel::state::{GamePhase, Puzzle};

fn user(id: i64, name: &str, verified: bool, avatar_id: i64) -> User {
    User {
        id,
        email: format!("{}@example.com", name.to_lowercase()),
        password_hash: None,
        display_name: name.to_string(),
        verified,
        verification_token: None,
        verification_token_expires: None,
        reset_token: None,
        reset_token_expires: None,
        created_at: 0,
        last_login_at: None,
        remember_token: None,
        is_admin: false,
        avatar_id,
    }
}

fn puzzle(id: i64, answer: &str) -> Puzzle {
    Puzzle { id, category: "Phrase".to_string(), answer: answer.to_string() }
}

// ========== SOCKET AUTHENTICATION ==========

#[test]
fn test_socket_auth_answers() {
    assert_eq!(
        validate_socket_auth_token("", Lookup::Found(user(1, "Ann", true, 3))),
        Err("Token is required")
    );
    assert_eq!(
        validate_socket_auth_token("tok", Lookup::Found(user(1, "Ann", false, 3))),
        Err("Account not verified")
    );
    assert_eq!(
        validate_socket_auth_token("tok", Lookup::Found(user(1, "Ann", true, 3))),
        Ok((1, "Ann".to_string()))
    );
    assert_eq!(validate_socket_auth_token("tok", Lookup::Missing), Err("Invalid or expired token"));
    assert_eq!(validate_socket_auth_token("tok", Lookup::Failed), Err("Database error during authentication"));
}

#[test]
fn test_auth_response_fields() {
    let ok = auth_response(Ok((42, "Ann".to_string())));
    assert!(ok.ok);
    assert_eq!(ok.user_id, Some(42));
    assert_eq!(ok.display_name, Some("Ann".to_string()));
    assert_eq!(ok.error, None);

    let refused = auth_response(Err("Invalid or expired token"));
    assert!(!refused.ok);
    assert_eq!(refused.user_id, None);
    assert_eq!(refused.display_name, None);
    assert_eq!(refused.error, Some("Invalid or expired token".to_string()));
}

#[test]
fn test_user_avatar_lookup() {
    assert_eq!(get_user_avatar_id(&Lookup::Found(user(5, "Bo", true, 9))), Some(9));
    assert_eq!(get_user_avatar_id(&Lookup::Missing), None);
    assert_eq!(get_user_avatar_id(&Lookup::Failed), None);
}

// ========== WHICH USER A SOCKET SPEAKS FOR ==========

#[test]
fn test_socket_users_link_and_lookup() {
    let mut users = SocketUsers::new();
    assert_eq!(get_socket_user_id(&users, "s1"), None);
    users.link(7, "s1");
    users.link(7, "s2");
    users.link(8, "s3");
    users.link(7, "s1");
    assert_eq!(users.links.len(), 3);
    assert_eq!(get_socket_user_id(&users, "s1"), Some(7));
    assert_eq!(get_socket_user_id(&users, "s2"), Some(7));
    assert_eq!(get_socket_user_id(&users, "s3"), Some(8));
    assert_eq!(get_socket_user_id(&users, "s4"), None);
}

#[test]
fn test_forget_socket_undoes_sign_in() {
    let mut users = SocketUsers::new();
    users.link(7, "s1");
    users.link(8, "s3");
    let before = users.links.clone();
    users.link(9, "s9");
    users.forget_socket("s9");
    assert_eq!(users.links, before);
    assert_eq!(get_socket_user_id(&users, "s9"), None);
    users.forget_socket("s1");
    assert_eq!(get_socket_user_id(&users, "s1"), None);
    assert_eq!(get_socket_user_id(&users, "s3"), Some(8));
}

// ========== SEATS ==========

#[test]
fn test_join_as_signed_in_user() {
    let mut manager = GameManager::new();
    let (idx, seat, name) = handle_join_game_as(&mut manager, "room", "s1", Some("Ann".to_string()), Some(12), Some(40));
    assert_eq!((idx, seat, name.as_str()), (0, Seat::New, "Ann"));
    let game = manager.get_room("room").unwrap();
    assert_eq!(game.players[0].user_id, Some(12));
    // A new seat clamps the avatar into 1..=12.
    assert_eq!(game.players[0].avatar_id, 12);

    let (idx, seat, _) = handle_join_game_as(&mut manager, "room", "s2", None, None, None);
    assert_eq!((idx, seat), (1, Seat::New));
    assert_eq!(manager.get_room("room").unwrap().players[1].name, "Player 2");
}

#[test]
fn test_kept_seat_records_account() {
    let mut manager = GameManager::new();
    handle_join_game_as(&mut manager, "room", "s1", Some("Ann".to_string()), None, None);
    let (idx, seat, name) = handle_join_game_as(&mut manager, "room", "s1", Some("Other".to_string()), Some(5), Some(7));
    assert_eq!((idx, seat, name.as_str()), (0, Seat::Kept, "Ann"));
    let game = manager.get_room("room").unwrap();
    assert_eq!(game.players.len(), 1);
    assert_eq!(game.players[0].user_id, Some(5));
    assert_eq!(game.players[0].avatar_id, 7);
    // A recorded user is not replaced.
    handle_join_game_as(&mut manager, "room", "s1", None, Some(6), None);
    assert_eq!(manager.get_room("room").unwrap().players[0].user_id, Some(5));
}

#[test]
fn test_rejoin_by_user_takes_seat_back_with_score() {
    let mut manager = GameManager::new();
    handle_join_game_as(&mut manager, "room", "s1", Some("Ann".to_string()), Some(3), None);
    handle_join_game_as(&mut manager, "room", "s2", Some("Bo".to_string()), None, None);
    manager.get_room_mut("room").unwrap().players[0].total = 2500;
    handle_disconnect_at(&mut manager, "s1", 1000);
    {
        let game = manager.get_room("room").unwrap();
        assert!(game.players[0].socket_id.is_none());
        assert_eq!(game.players[0].disconnected_at, Some(1000));
    }
    // Signed in as the same user under another name: the seat comes back.
    let (idx, seat, name) = handle_join_game_as(&mut manager, "room", "s9", Some("Annie".to_string()), Some(3), Some(4));
    assert_eq!((idx, seat, name.as_str()), (0, Seat::TakenBack, "Ann"));
    let game = manager.get_room("room").unwrap();
    assert_eq!(game.players.len(), 2);
    assert_eq!(game.players[0].socket_id, Some("s9".to_string()));
    assert_eq!(game.players[0].disconnected_at, None);
    assert_eq!(game.players[0].total, 2500);
    assert_eq!(game.players[0].avatar_id, 4);
}

#[test]
fn test_guest_rejoin_by_name() {
    let mut manager = GameManager::new();
    handle_join_game_as(&mut manager, "room", "s1", Some("Ann".to_string()), None, None);
    handle_disconnect_at(&mut manager, "s1", 50);
    let (idx, seat, _) = handle_join_game_as(&mut manager, "room", "s2", Some("Ann".to_string()), None, None);
    assert_eq!((idx, seat), (0, Seat::TakenBack));
    // Another name gets a new seat.
    let (idx, seat, _) = handle_join_game_as(&mut manager, "room", "s3", Some("Cy".to_string()), None, None);
    assert_eq!((idx, seat), (1, Seat::New));
}

// ========== PUZZLES ==========

#[test]
fn test_initial_puzzle_only_replaces_placeholder() {
    let mut manager = GameManager::new();
    let game = manager.get_or_create_room("room");
    assert_eq!(game.puzzle.id, 0);
    game.set_initial_puzzle(puzzle(5, "SNOW DAY"));
    assert_eq!(game.puzzle.id, 5);
    game.set_initial_puzzle(puzzle(6, "ICE"));
    assert_eq!(game.puzzle.id, 5);
    assert_eq!(game.puzzle.answer, "SNOW DAY");
}

#[test]
fn test_auto_advance_only_after_solve() {
    let mut manager = GameManager::new();
    assert!(!auto_advance_puzzle(&mut manager, "nowhere", puzzle(9, "NEXT")));
    handle_join_game_as(&mut manager, "room", "s1", Some("Ann".to_string()), None, None);
    {
        let game = manager.get_room_mut("room").unwrap();
        game.new_puzzle(puzzle(1, "HELLO WORLD"));
        game.phase = GamePhase::Normal;
    }
    assert!(!auto_advance_puzzle(&mut manager, "room", puzzle(9, "NEXT")));
    assert_eq!(manager.get_room("room").unwrap().puzzle.id, 1);

    let (solved, _, delay) = handle_solve(&mut manager, "room", "s1", "hello world").unwrap();
    assert!(solved);
    assert!(delay.is_some());
    assert!(auto_advance_puzzle(&mut manager, "room", puzzle(9, "NEXT")));
    let game = manager.get_room("room").unwrap();
    assert_eq!(game.puzzle.id, 9);
    assert!(game.puzzle_solved_by.is_none());
    assert!(game.revealed.is_empty());
}
