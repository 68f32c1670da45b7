use dungeon_core::gui::{
    CheatMenuResult, GameOverResult, ItemMenuResult, MainMenuResult, MainMenuSelection,
};
use dungeon_core::raws::{load_raws, Item, LootTable, Mob, Prop, RawMaster, Raws, SpawnTableEntry};
use dungeon_core::state::{FrameInput, RunState, State, TickSignal};

fn quiet_frame() -> FrameInput {
    FrameInput {
        frame_time_ms: 16,
        input: RunState::AwaitingInput,
        item_menu: ItemMenuResult::NoResponse,
        item_menu_choice: None,
        target_menu: ItemMenuResult::NoResponse,
        target_choice: None,
        main_menu: MainMenuResult::NoSelection { selected: MainMenuSelection::NewGame },
        game_over: GameOverResult::NoSelection,
        cheat_menu: CheatMenuResult::NoResponse,
    }
}

fn input_frame(input: RunState) -> FrameInput {
    FrameInput { input, ..quiet_frame() }
}

/// Drives a fresh (visualizer-off) game to the player's first turn.
fn new_game_at_input() -> State {
    let mut s = State::new(false);
    assert!(matches!(s.run_state(), RunState::MapGeneration));
    // replay disabled: the scheduled main menu arrives on the first frame
    s.tick(&quiet_frame());
    assert!(matches!(
        s.run_state(),
        RunState::MainMenu { menu_selection: MainMenuSelection::NewGame }
    ));
    s.tick(&FrameInput {
        main_menu: MainMenuResult::Selected { selected: MainMenuSelection::NewGame },
        ..quiet_frame()
    });
    assert!(matches!(s.run_state(), RunState::PreRun));
    s.tick(&quiet_frame());
    assert!(matches!(s.run_state(), RunState::AwaitingInput));
    s
}

#[test]
fn new_game_schedules_depth_one_generation() {
    let s = State::new(false);
    assert!(matches!(s.run_state(), RunState::MapGeneration));
    assert_eq!(s.map_depth(), 1);
    assert_eq!(s.registry_len(), 1);
    assert_eq!(s.mapgen_history_len(), 3);
    assert_eq!(s.mapgen_cursor(), 0);
    assert_eq!(s.entity_count(), 1);
}

#[test]
fn new_game_player_at_start_awaiting_input() {
    let s = new_game_at_input();
    let player = s.player_entity();
    assert!(s.is_alive(player));
    assert_eq!(s.name_of(player).unwrap(), "Player");
    // exactly one entity exists and it stands on the start cell (the center)
    assert_eq!(s.entity_count(), 1);
    let pos = s.position_of(player).unwrap();
    assert_eq!((pos.x, pos.y), (32, 32));
}

#[test]
fn ticking_never_yields_while_still_ticking() {
    let mut s = new_game_at_input();
    s.tick(&input_frame(RunState::Ticking));
    assert!(matches!(s.run_state(), RunState::Ticking));
    s.tick(&quiet_frame());
    // one rendered frame resolves the whole Ticking cascade
    assert!(!matches!(s.run_state(), RunState::Ticking));
    assert!(matches!(s.run_state(), RunState::AwaitingInput));
}

#[test]
fn magic_map_reveal_covers_every_row_then_ticks() {
    let mut s = new_game_at_input();
    let item = s.ecs.spawn_item("Scroll of Magic Mapping".to_string(), 32, 32, true, true, None);
    s.tick(&input_frame(RunState::ShowInventory));
    assert!(matches!(s.run_state(), RunState::ShowInventory));
    s.tick(&FrameInput {
        item_menu: ItemMenuResult::Selected,
        item_menu_choice: Some(item),
        ..quiet_frame()
    });
    assert!(matches!(s.run_state(), RunState::Ticking));
    s.tick(&quiet_frame());
    assert!(matches!(s.run_state(), RunState::MagicMapReveal { row: 0 }));
    // the used consumable is gone
    assert!(!s.is_alive(item));
    // one advancing step per frame: height 64 gives exactly 63 steps
    let mut steps = 0;
    while let RunState::MagicMapReveal { .. } = s.run_state() {
        s.tick(&quiet_frame());
        steps += 1;
        assert!(steps <= 64, "reveal failed to terminate");
    }
    assert_eq!(steps, 63);
    assert!(matches!(s.run_state(), RunState::Ticking));
    // rows 0..=62 are revealed, the last row is not
    for y in 0..63 {
        assert!(s.is_revealed(0, y));
        assert!(s.is_revealed(63, y));
    }
    assert!(!s.is_revealed(0, 63));
}

#[test]
fn replay_advances_cursor_once_per_threshold_then_yields() {
    let mut s = State::new(true);
    assert_eq!(s.mapgen_history_len(), 3);
    assert!(s.current_replay_snapshot().is_some());
    // a frame below the threshold only accumulates time
    s.tick(&FrameInput { frame_time_ms: 10, ..quiet_frame() });
    assert_eq!(s.mapgen_cursor(), 0);
    assert!(matches!(s.run_state(), RunState::MapGeneration));
    // each threshold crossing advances the cursor exactly once
    s.tick(&FrameInput { frame_time_ms: 50, ..quiet_frame() });
    assert_eq!(s.mapgen_cursor(), 1);
    s.tick(&FrameInput { frame_time_ms: 50, ..quiet_frame() });
    assert_eq!(s.mapgen_cursor(), 2);
    assert!(matches!(s.run_state(), RunState::MapGeneration));
    s.tick(&FrameInput { frame_time_ms: 50, ..quiet_frame() });
    assert_eq!(s.mapgen_cursor(), 3);
    assert!(s.current_replay_snapshot().is_none());
    // cursor passed the final snapshot: the scheduled state takes over
    assert!(matches!(
        s.run_state(),
        RunState::MainMenu { menu_selection: MainMenuSelection::NewGame }
    ));
}

#[test]
fn replay_disabled_yields_scheduled_state_immediately() {
    let mut s = State::new(false);
    assert_eq!(s.mapgen_history_len(), 3);
    s.tick(&quiet_frame());
    assert!(matches!(s.run_state(), RunState::MainMenu { .. }));
}

#[test]
fn freeze_thaw_round_trip_restores_entities() {
    let mut s = new_game_at_input();
    let orc = s.ecs.spawn_monster("Orc".to_string(), 5, 6);
    // descend: the orc freezes with the old level
    s.tick(&input_frame(RunState::NextLevel));
    s.tick(&quiet_frame());
    assert!(matches!(s.run_state(), RunState::MapGeneration));
    assert_eq!(s.map_depth(), 2);
    assert!(s.position_of(orc).is_none(), "frozen entity still on the map");
    assert_eq!(s.log_entry(0), "You change level.");
    s.tick(&quiet_frame());
    assert!(matches!(s.run_state(), RunState::PreRun));
    s.tick(&quiet_frame());
    // ascend again: depth 1 is reactivated, the orc thaws where it stood
    s.tick(&input_frame(RunState::PreviousLevel));
    s.tick(&quiet_frame());
    assert_eq!(s.map_depth(), 1);
    s.tick(&quiet_frame());
    s.tick(&quiet_frame());
    assert!(matches!(s.run_state(), RunState::AwaitingInput));
    assert!(s.is_alive(orc));
    assert_eq!(s.name_of(orc).unwrap(), "Orc");
    let pos = s.position_of(orc).unwrap();
    assert_eq!((pos.x, pos.y), (5, 6));
    // both levels are retained in the registry
    assert_eq!(s.registry_len(), 2);
}

#[test]
fn save_then_load_reproduces_entity_set() {
    let mut s = new_game_at_input();
    let orc = s.ecs.spawn_monster("Orc".to_string(), 7, 8);
    let n = s.entity_count();
    s.tick(&input_frame(RunState::SaveGame));
    s.tick(&quiet_frame());
    assert!(s.has_saved_game());
    assert!(matches!(
        s.run_state(),
        RunState::MainMenu { menu_selection: MainMenuSelection::LoadGame }
    ));
    s.tick(&FrameInput {
        main_menu: MainMenuResult::Selected { selected: MainMenuSelection::LoadGame },
        ..quiet_frame()
    });
    assert!(matches!(s.run_state(), RunState::AwaitingInput));
    // single-slot policy: the save is deleted after a successful load
    assert!(!s.has_saved_game());
    assert_eq!(s.entity_count(), n);
    assert!(s.is_alive(orc));
    assert_eq!(s.name_of(orc).unwrap(), "Orc");
    let pos = s.position_of(orc).unwrap();
    assert_eq!((pos.x, pos.y), (7, 8));
    assert_eq!(s.name_of(s.player_entity()).unwrap(), "Player");
    assert_eq!(s.map_depth(), 1);
}

#[test]
fn load_without_save_stays_in_menu() {
    let mut s = State::new(false);
    s.tick(&quiet_frame());
    assert!(matches!(s.run_state(), RunState::MainMenu { .. }));
    s.tick(&FrameInput {
        main_menu: MainMenuResult::Selected { selected: MainMenuSelection::LoadGame },
        ..quiet_frame()
    });
    assert!(matches!(
        s.run_state(),
        RunState::MainMenu { menu_selection: MainMenuSelection::LoadGame }
    ));
}

#[test]
fn game_over_cleanup_then_new_game_resets_world() {
    let mut s = new_game_at_input();
    s.ecs.spawn_monster("Orc".to_string(), 5, 6);
    // visit depth 2 so the registry holds more than one level
    s.tick(&input_frame(RunState::NextLevel));
    s.tick(&quiet_frame());
    s.tick(&quiet_frame());
    s.tick(&quiet_frame());
    assert_eq!(s.registry_len(), 2);
    s.tick(&input_frame(RunState::GameOver));
    s.tick(&quiet_frame());
    assert!(matches!(s.run_state(), RunState::GameOver));
    // the cleanup already ran: fresh registry, fresh depth-1 map
    assert_eq!(s.registry_len(), 1);
    assert_eq!(s.map_depth(), 1);
    assert_eq!(s.name_of(s.player_entity()).unwrap(), "Player");
    s.tick(&FrameInput { game_over: GameOverResult::QuitToMenu, ..quiet_frame() });
    assert!(matches!(
        s.run_state(),
        RunState::MainMenu { menu_selection: MainMenuSelection::NewGame }
    ));
    s.tick(&FrameInput {
        main_menu: MainMenuResult::Selected { selected: MainMenuSelection::NewGame },
        ..quiet_frame()
    });
    s.tick(&quiet_frame());
    assert!(matches!(s.run_state(), RunState::AwaitingInput));
    assert_eq!(s.registry_len(), 1);
    assert_eq!(s.map_depth(), 1);
}

#[test]
fn pickup_and_drop_move_item_through_backpack() {
    let mut s = new_game_at_input();
    let potion = s.ecs.spawn_item("Potion".to_string(), 32, 32, true, false, None);
    s.ecs.insert_pickup_intent(potion);
    s.tick(&input_frame(RunState::Ticking));
    s.tick(&quiet_frame());
    assert_eq!(s.backpack_owner_of(potion), Some(s.player_entity()));
    assert!(s.position_of(potion).is_none());
    // drop it again: it lands on the player's cell
    s.tick(&input_frame(RunState::ShowDropItem));
    s.tick(&FrameInput {
        item_menu: ItemMenuResult::Selected,
        item_menu_choice: Some(potion),
        ..quiet_frame()
    });
    assert!(matches!(s.run_state(), RunState::Ticking));
    s.tick(&quiet_frame());
    assert!(s.backpack_owner_of(potion).is_none());
    let pos = s.position_of(potion).unwrap();
    assert_eq!((pos.x, pos.y), (32, 32));
}

#[test]
fn ranged_item_selection_opens_targeting() {
    let mut s = new_game_at_input();
    let wand = s.ecs.spawn_item("Wand".to_string(), 32, 32, true, false, Some(6));
    s.tick(&input_frame(RunState::ShowInventory));
    s.tick(&FrameInput {
        item_menu: ItemMenuResult::Selected,
        item_menu_choice: Some(wand),
        ..quiet_frame()
    });
    match s.run_state() {
        RunState::ShowTargeting { range, item } => {
            assert_eq!(range, 6);
            assert_eq!(item, wand);
        },
        other => panic!("expected targeting, got {:?}", other),
    }
    // selecting a target records the intent and resolves through Ticking
    s.tick(&FrameInput {
        target_menu: ItemMenuResult::Selected,
        target_choice: Some(dungeon_core::components::Position { x: 30, y: 30 }),
        ..quiet_frame()
    });
    assert!(matches!(s.run_state(), RunState::Ticking));
    s.tick(&quiet_frame());
    // the consumable wand was spent
    assert!(!s.is_alive(wand));
    assert!(matches!(s.run_state(), RunState::AwaitingInput));
}

#[test]
fn stale_targeting_selection_degrades_to_input() {
    let mut s = new_game_at_input();
    let wand = s.ecs.spawn_item("Wand".to_string(), 32, 32, false, false, Some(4));
    s.tick(&input_frame(RunState::ShowInventory));
    s.tick(&FrameInput {
        item_menu: ItemMenuResult::Selected,
        item_menu_choice: Some(wand),
        ..quiet_frame()
    });
    assert!(matches!(s.run_state(), RunState::ShowTargeting { .. }));
    // the item dies between frames; the pending selection degrades gracefully
    s.mark_entity_dead(wand);
    s.tick(&quiet_frame());
    assert!(!s.is_alive(wand));
    s.tick(&FrameInput {
        target_menu: ItemMenuResult::Selected,
        target_choice: Some(dungeon_core::components::Position { x: 1, y: 1 }),
        ..quiet_frame()
    });
    assert!(matches!(s.run_state(), RunState::AwaitingInput));
}

#[test]
fn stale_drop_selection_degrades_to_input() {
    let mut s = new_game_at_input();
    let potion = s.ecs.spawn_item("Potion".to_string(), 32, 32, true, false, None);
    // the item dies before the menu answer arrives; no intent is recorded
    s.mark_entity_dead(potion);
    s.tick(&input_frame(RunState::ShowDropItem));
    assert!(!s.is_alive(potion));
    s.tick(&FrameInput {
        item_menu: ItemMenuResult::Selected,
        item_menu_choice: Some(potion),
        ..quiet_frame()
    });
    assert!(matches!(s.run_state(), RunState::AwaitingInput));
}

#[test]
fn menu_cancel_returns_to_input() {
    let mut s = new_game_at_input();
    s.tick(&input_frame(RunState::ShowInventory));
    s.tick(&FrameInput { item_menu: ItemMenuResult::Cancel, ..quiet_frame() });
    assert!(matches!(s.run_state(), RunState::AwaitingInput));
}

#[test]
fn quit_selection_signals_quit() {
    let mut s = State::new(false);
    s.tick(&quiet_frame());
    let sig = s.tick(&FrameInput {
        main_menu: MainMenuResult::Selected { selected: MainMenuSelection::Quit },
        ..quiet_frame()
    });
    assert!(matches!(sig, TickSignal::Quit));
}

#[test]
fn cheat_teleport_descends_one_level() {
    let mut s = new_game_at_input();
    s.tick(&input_frame(RunState::ShowCheatMenu));
    assert!(matches!(s.run_state(), RunState::ShowCheatMenu));
    s.tick(&FrameInput { cheat_menu: CheatMenuResult::TeleportToExit, ..quiet_frame() });
    assert!(matches!(s.run_state(), RunState::MapGeneration));
    assert_eq!(s.map_depth(), 2);
}

#[test]
fn loaded_raws_are_retained_and_searchable() {
    let raws = Raws {
        items: vec![
            Item { name: "Health Potion".to_string() },
            Item { name: "Longsword".to_string() },
        ],
        mobs: vec![Mob { name: "Orc".to_string() }],
        props: vec![Prop { name: "Door".to_string() }],
        spawn_table: vec![SpawnTableEntry {
            name: "Orc".to_string(),
            weight: 10,
            min_depth: 1,
            max_depth: 5,
        }],
        loot_tables: vec![LootTable { name: "Animal".to_string() }],
    };
    let rm = load_raws(raws);
    assert_eq!(rm.item_index_of(&"Longsword".to_string()), Some(1));
    assert_eq!(rm.item_index_of(&"Health Potion".to_string()), Some(0));
    assert_eq!(rm.item_index_of(&"Shield".to_string()), None);
    let empty = RawMaster::empty();
    assert_eq!(empty.item_index_of(&"Orc".to_string()), None);
}

#[test]
fn dead_entities_are_culled_once_per_frame() {
    let mut s = new_game_at_input();
    let orc = s.ecs.spawn_monster("Orc".to_string(), 4, 4);
    // an entity marked dead is culled exactly once, on the next frame
    s.mark_entity_dead(orc);
    assert!(s.is_alive(orc));
    s.tick(&quiet_frame());
    assert!(!s.is_alive(orc));
    assert!(s.position_of(orc).is_none());
}
