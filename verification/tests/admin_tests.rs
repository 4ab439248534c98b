use holiday_wheel::admin::{
    admin_create_room, admin_delete_room, admin_kick_player, admin_kick_user, admin_list_rooms, admin_new_game,
    admin_required, admin_reset_player_score, admin_room_info, admin_user_infos, apply_settings, current_room_of,
    merged_settings, settings_failed, SaveSettingsRequest, admin_add_puzzle_answer, admin_create_pack_answer,
    admin_delete_pack_answer, admin_delete_pack_check, admin_delete_puzzle_answer, admin_delete_user_answer,
    admin_get_settings_answer, admin_import_answer, admin_import_target, admin_set_user_admin_answer,
    admin_verify_user_answer, ImportTarget,
};
use holiday_wheel::db::User;
use holiday_wheel::manager::GameManager;
use holiday_wheel::state::{Puzzle, RoomConfig};
use holiday_wheel::wheel::WedgeValue;

fn with_players() -> GameManager {
    let mut m = GameManager::new();
    let g = m.get_or_create_room("den");
    g.add_player("Ann".to_string(), Some("s1".to_string()), Some(10), None);
    g.add_player("Bob".to_string(), None, Some(11), Some(5));
    g.add_player("Cy".to_string(), Some("s3".to_string()), None, None);
    m
}

fn user(id: i64) -> User {
    User {
        id,
        email: format!("u{}@x.org", id),
        password_hash: None,
        display_name: format!("U{}", id),
        verified: true,
        verification_token: None,
        verification_token_expires: None,
        reset_token: None,
        reset_token_expires: None,
        created_at: 7,
        last_login_at: Some(8),
        remember_token: None,
        is_admin: false,
        avatar_id: 1,
    }
}

#[test]
fn test_admin_create_room_rules() {
    let mut m = GameManager::new();
    let (status, r) = admin_create_room(&mut m, "  Lobby-1 ");
    assert_eq!(status, 200);
    assert_eq!(r.message, Some("Room 'lobby-1' created".to_string()));
    assert!(m.get_room("lobby-1").is_some());
    let (status, r) = admin_create_room(&mut m, "lobby-1");
    assert_eq!((status, r.error), (409, Some("Room already exists".to_string())));
    let (status, r) = admin_create_room(&mut m, "   ");
    assert_eq!((status, r.error), (400, Some("Room name cannot be empty".to_string())));
    let (status, r) = admin_create_room(&mut m, "a b");
    assert_eq!(
        (status, r.error),
        (400, Some("Room name can only contain letters, numbers, hyphens and underscores".to_string()))
    );
    let (status, r) = admin_delete_room(&mut m, "lobby-1");
    assert_eq!((status, r.message), (200, Some("Room deleted".to_string())));
    assert!(m.get_room("lobby-1").is_none());
    assert_eq!(admin_required().0, 403);
}

#[test]
fn test_admin_kick_and_reset() {
    let mut m = with_players();
    m.get_room_mut("den").unwrap().active_idx = 2;
    m.get_room_mut("den").unwrap().players[1].total = 900;
    let (status, r) = admin_reset_player_score(&mut m, "den", 1);
    assert_eq!((status, r.message), (200, Some("Score reset".to_string())));
    assert_eq!(m.get_room("den").unwrap().players[1].total, 0);
    let (status, r) = admin_kick_player(&mut m, "den", 2);
    assert_eq!((status, r.message), (200, Some("Player 'Cy' kicked".to_string())));
    let g = m.get_room("den").unwrap();
    assert_eq!(g.players.len(), 2);
    assert_eq!(g.active_idx, 0);
    let (status, r) = admin_kick_player(&mut m, "den", 5);
    assert_eq!((status, r.error), (404, Some("Player not found".to_string())));
    let (status, r) = admin_kick_user(&mut m, "den", 11);
    assert_eq!((status, r.message), (200, Some("User 'Bob' kicked from room".to_string())));
    let (status, r) = admin_kick_user(&mut m, "den", 99);
    assert_eq!((status, r.error), (404, Some("User not found in room".to_string())));
    let (status, _) = admin_new_game(&mut m, "den");
    assert_eq!(status, 200);
    let (status, r) = admin_new_game(&mut m, "nowhere");
    assert_eq!((status, r.error), (404, Some("Room not found".to_string())));
}

#[test]
fn test_admin_room_listing() {
    let mut m = with_players();
    {
        let g = m.get_room_mut("den").unwrap();
        g.puzzle = Puzzle { id: 3, category: "Phrase".to_string(), answer: "IT'S A 2ND TRY".to_string() };
        g.current_wedge = Some(WedgeValue::Cash(650));
    }
    let rooms = admin_list_rooms(&m);
    assert_eq!(rooms.len(), 1);
    let r = &rooms[0];
    assert_eq!(r.name, "den");
    assert_eq!(r.player_count, 3);
    assert_eq!(r.phase, "Normal");
    assert_eq!(r.total_letters, 9);
    assert_eq!(r.current_wedge, Some("$650".to_string()));
    assert_eq!(r.puzzle_category, Some("Phrase".to_string()));
    assert_eq!(r.active_idx, Some(0));
    assert!(r.players[0].is_connected);
    assert!(!r.players[1].is_connected);
    assert_eq!(r.players[1].avatar_id, 5);
    let g = m.get_room("den").unwrap();
    let info = admin_room_info("den", g);
    assert_eq!(info.revealed_count, g.revealed.len());
}

#[test]
fn test_admin_users_and_rooms() {
    let mut m = with_players();
    m.get_or_create_room("attic").add_player("Ann".to_string(), None, Some(10), None);
    assert_eq!(current_room_of(&m, 10), Some("attic".to_string()));
    assert_eq!(current_room_of(&m, 11), Some("den".to_string()));
    assert_eq!(current_room_of(&m, 12), None);
    let infos = admin_user_infos(&m, &vec![user(11), user(12)]);
    assert_eq!(infos.len(), 2);
    assert_eq!(infos[0].current_room, Some("den".to_string()));
    assert_eq!(infos[1].current_room, None);
    assert_eq!(infos[1].email, "u12@x.org");
}

#[test]
fn test_admin_settings() {
    let existing = RoomConfig::default();
    let req = SaveSettingsRequest {
        puzzle_display_seconds: Some(9),
        vowel_cost: None,
        final_seconds: Some(45),
        final_jackpot: None,
        prize_wedge_names: None,
        pack_id: Some(0),
        disconnect_timeout_secs: Some(60),
    };
    let c = merged_settings(&existing, req);
    assert_eq!(c.puzzle_display_seconds, 9);
    assert_eq!(c.vowel_cost, existing.vowel_cost);
    assert_eq!(c.bonus_seconds, 45);
    assert_eq!(c.bonus_jackpot, existing.bonus_jackpot);
    assert_eq!(c.pack_id, None);
    assert_eq!(c.disconnect_timeout_secs, 60);
    let mut m = with_players();
    let (status, _) = apply_settings(&mut m, "den", c);
    assert_eq!(status, 200);
    assert_eq!(m.get_room("den").unwrap().config.bonus_seconds, 45);
    let (status, r) = settings_failed("locked");
    assert_eq!((status, r.error), (500, Some("Failed to save settings: locked".to_string())));
}

#[test]
fn test_account_pack_and_puzzle_answers() {
    let (status, r) = admin_set_user_admin_answer(true);
    assert_eq!((status, r.ok, r.message.as_deref()), (200, true, Some("User admin status updated")));
    let (status, r) = admin_set_user_admin_answer(false);
    assert_eq!((status, r.ok, r.error.as_deref()), (500, false, Some("Failed to update user")));
    assert_eq!(admin_verify_user_answer(true).1.message.as_deref(), Some("User verified"));
    assert_eq!(admin_verify_user_answer(false).1.error.as_deref(), Some("Failed to verify user"));

    let (status, r) = admin_delete_user_answer(Some(true));
    assert_eq!((status, r.message.as_deref()), (200, Some("User deleted")));
    let (status, r) = admin_delete_user_answer(Some(false));
    assert_eq!((status, r.error.as_deref()), (404, Some("User not found")));
    let (status, r) = admin_delete_user_answer(None);
    assert_eq!((status, r.error.as_deref()), (500, Some("Failed to delete user")));

    let (status, r) = admin_delete_pack_check(1).unwrap();
    assert_eq!((status, r.error.as_deref()), (400, Some("Cannot delete default pack")));
    assert!(admin_delete_pack_check(2).is_none());
    assert_eq!(admin_delete_pack_answer(Some(false)).1.error.as_deref(), Some("Pack not found"));
    assert_eq!(admin_delete_puzzle_answer(Some(true)).1.message.as_deref(), Some("Puzzle deleted"));
    assert_eq!(admin_delete_puzzle_answer(None).1.error.as_deref(), Some("Failed to delete puzzle"));

    let (status, r) = admin_create_pack_answer(Some(7));
    assert_eq!((status, r.ok, r.id, r.message.as_deref()), (200, true, Some(7), Some("Pack created with ID 7")));
    let (status, r) = admin_create_pack_answer(None);
    assert_eq!((status, r.ok, r.error.as_deref()), (500, false, Some("Failed to create pack")));

    assert_eq!(admin_add_puzzle_answer(Some(42)).1.message.as_deref(), Some("Puzzle added with ID 42"));
    assert_eq!(admin_add_puzzle_answer(None).1.error.as_deref(), Some("Failed to add puzzle"));
}

#[test]
fn test_import_target_and_answer() {
    assert_eq!(admin_import_target(Some(3), Some("X".to_string())), ImportTarget::Pack(3));
    assert_eq!(admin_import_target(None, Some("Winter".to_string())), ImportTarget::Named("Winter".to_string()));
    assert_eq!(admin_import_target(None, None), ImportTarget::Pack(1));
    let (status, r) = admin_import_answer(Some(12), 3, 12);
    assert_eq!((status, r.message.as_deref()), (200, Some("Imported 12 puzzles into pack 3")));
    let (status, r) = admin_import_answer(None, 3, 12);
    assert_eq!(
        (status, r.ok, r.message.as_deref(), r.error.as_deref()),
        (500, false, Some("Failed after importing some of 12 puzzles"), Some("Import failed"))
    );
}

#[test]
fn test_get_settings_answer() {
    let (status, r) = admin_get_settings_answer(None);
    assert_eq!((status, r.ok), (200, true));
    let c = r.config.unwrap();
    assert_eq!(c.vowel_cost, RoomConfig::default().vowel_cost);
    assert_eq!(c.prize_wedge_names, vec!["GIFT CARD".to_string()]);
    let mut mine = RoomConfig::default();
    mine.vowel_cost = 400;
    let (_, r) = admin_get_settings_answer(Some(mine));
    assert_eq!(r.config.unwrap().vowel_cost, 400);
}
