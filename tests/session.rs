use wargame_session::{
    Action, EngineReport, GameOptions, Heuristic, Heuristics, JsCoordPair, JsGame, Outcome, Player,
};

fn report(text: &str, winner: Option<Player>) -> EngineReport {
    EngineReport { description: text.to_string(), winner }
}

fn a_move() -> Action {
    Action::Move(JsCoordPair::from_dims(0, 0, 1, 0))
}

#[test]
fn new_session_starts_with_attacker_and_no_moves() {
    let g = JsGame::new();
    assert_eq!(g.moves_played(), 0);
    assert_eq!(g.next_player(), Player::Attacker);
    assert_eq!(g.end_result(), None);
    assert_eq!(g.has_winner(), None);
    assert!(g.options().debug);
    assert_eq!(g.options().max_depth, Some(6));
    assert_eq!(g.options().max_moves, Some(150));
    assert_eq!(g.options().max_millis, Some(5000));
}

#[test]
fn options_round_trip() {
    let mut g = JsGame::new();
    let mut o = g.options();
    o.max_depth = Some(3);
    o.max_moves = None;
    o.max_millis = Some(250);
    o.adjust_max_depth = true;
    o.rand_traversal = true;
    o.pruning = false;
    o.mutual_damage = true;
    o.move_only_forward = true;
    o.debug = false;
    o.heuristics.set_e2();
    let expected = o.duplicate();
    g.set_options(o);
    assert_eq!(g.options(), expected);
    assert_eq!(g.current_depth(), Some(3));
}

#[test]
fn setters_replace_one_field() {
    let mut g = JsGame::new();
    g.set_max_depth(4);
    g.set_max_moves(20);
    g.set_max_seconds(1500);
    g.set_rand_traversal(true);
    g.set_alpha_beta(false);
    g.auto_adjust_max_depth(true);
    let o = g.options();
    assert_eq!(o.max_depth, Some(4));
    assert_eq!(o.max_moves, Some(20));
    assert_eq!(o.max_millis, Some(1500));
    assert!(o.rand_traversal);
    assert!(!o.pruning);
    assert!(o.adjust_max_depth);
    assert!(o.debug);
}

#[test]
fn heuristic_presets() {
    let mut g = JsGame::new();
    g.set_heuristics_e1();
    assert_eq!(g.options().heuristics.attacker, Heuristic::units_health_weight_bias(10, 10, 100));
    g.set_heuristics_e2();
    assert_eq!(g.options().heuristics.defender, Heuristic::ai_distance(2, 1));
    g.set_heuristics_e3e4();
    let weighted = Heuristic::units_health_weight_bias(10, 10, 100)
        .scaled(10)
        .plus(Heuristic::ai_distance(2, 1))
        .minus(Heuristic::game_moves());
    assert_eq!(g.options().heuristics, Heuristics { attacker: weighted.duplicate(), defender: weighted });
}

#[test]
fn no_action_means_deadlock_without_a_move() {
    let mut g = JsGame::new();
    let r = g.computer_play_turn(None, 10, report("no move", None));
    assert_eq!(r.coords, None);
    assert_eq!(r.string, "no move");
    assert_eq!(g.end_result(), Some(Outcome::Deadlock));
    assert_eq!(g.moves_played(), 0);
    assert_eq!(g.computer_search(), None);
}

#[test]
fn rejected_human_move_changes_nothing() {
    let mut g = JsGame::new();
    assert!(g.human_move_request(1, 1, 1, 1).is_some());
    let r = g.player_play_turn(None);
    assert_eq!(r, None);
    assert_eq!(g.moves_played(), 0);
    assert_eq!(g.next_player(), Player::Attacker);
    assert_eq!(g.end_result(), None);
}

#[test]
fn identical_from_and_to_is_rejected() {
    let mut g = JsGame::new();
    let pair = g.human_move_request(2, 3, 2, 3).unwrap();
    assert_eq!(pair.from, pair.to);
    // The engine rejects a move onto the cell it starts from.
    let accepted = g.player_play_turn(None);
    assert!(accepted.is_none());
    assert_eq!(g.moves_played(), 0);
}

#[test]
fn each_applied_move_counts_one() {
    let mut g = JsGame::new();
    let r = g.player_play_turn(Some(report("human moved", None)));
    assert_eq!(r, Some("human moved".to_string()));
    assert_eq!(g.moves_played(), 1);
    assert_eq!(g.next_player(), Player::Defender);
    let m = g.computer_play_turn(Some(a_move()), 100, report("computer moved", None));
    assert_eq!(m.coords, Some(JsCoordPair::from_dims(0, 0, 1, 0)));
    assert_eq!(m.string, "computer moved");
    assert_eq!(g.moves_played(), 2);
    assert_eq!(g.next_player(), Player::Attacker);
}

#[test]
fn computer_move_with_weighted_profile() {
    let mut o = GameOptions::default();
    o.max_depth = Some(6);
    o.max_moves = Some(150);
    o.max_millis = Some(5000);
    o.heuristics.set_e3e4();
    let mut g = JsGame::from_options(o);
    let q = g.computer_search().unwrap();
    assert_eq!(q.player, Player::Attacker);
    assert_eq!(q.max_depth, Some(6));
    assert_eq!(q.max_millis, Some(5000));
    assert_eq!(q.heuristic.term_list().len(), 3);
    let r = g.computer_play_turn(Some(a_move()), 1200, report("Attacker: move from A0 to B0", None));
    assert!(r.coords.is_some());
    assert_eq!(g.moves_played(), 1);
}

#[test]
fn pass_action_has_no_coordinates() {
    let mut g = JsGame::new();
    let r = g.computer_play_turn(Some(Action::Pass), 5, report("pass", None));
    assert_eq!(r.coords, None);
    assert_eq!(g.moves_played(), 1);
    assert_eq!(g.end_result(), None);
}

#[test]
fn winner_is_announced_and_final() {
    let mut g = JsGame::new();
    g.player_play_turn(Some(report("a", None)));
    g.computer_play_turn(Some(a_move()), 5, report("b", Some(Player::Defender)));
    assert_eq!(g.end_result(), Some(Outcome::Winner(Player::Defender)));
    assert_eq!(g.has_winner(), Some("Defender wins in 2 moves!".to_string()));
    assert_eq!(g.player_play_turn(Some(report("c", None))), None);
    let r = g.computer_play_turn(Some(a_move()), 5, report("d", None));
    assert_eq!(r.coords, None);
    assert_eq!(r.string, "");
    assert_eq!(g.moves_played(), 2);
    assert_eq!(g.human_move_request(0, 0, 0, 1), None);
}

#[test]
fn move_limit_ends_the_game() {
    let mut g = JsGame::new();
    g.set_max_moves(2);
    g.player_play_turn(Some(report("a", None)));
    assert_eq!(g.end_result(), None);
    g.player_play_turn(Some(report("b", None)));
    assert_eq!(g.end_result(), Some(Outcome::MoveLimitReached));
    assert_eq!(g.has_winner(), None);
}

#[test]
fn adaptive_depth_lowers_after_slow_and_raises_after_quick_run() {
    let mut g = JsGame::new();
    g.set_max_depth(4);
    g.set_max_seconds(1000);
    g.auto_adjust_max_depth(true);
    g.computer_play_turn(Some(a_move()), 950, report("slow", None));
    assert_eq!(g.current_depth(), Some(3));
    g.computer_play_turn(Some(a_move()), 100, report("quick", None));
    assert_eq!(g.current_depth(), Some(3));
    g.computer_play_turn(Some(a_move()), 100, report("quick", None));
    assert_eq!(g.current_depth(), Some(4));
    g.computer_play_turn(Some(a_move()), 100, report("quick", None));
    g.computer_play_turn(Some(a_move()), 100, report("quick", None));
    assert_eq!(g.current_depth(), Some(4));
}

#[test]
fn adaptive_depth_off_keeps_depth() {
    let mut g = JsGame::new();
    g.set_max_seconds(1000);
    g.computer_play_turn(Some(a_move()), 5000, report("slow", None));
    assert_eq!(g.current_depth(), Some(6));
}

#[test]
fn adaptive_depth_stops_at_one() {
    let mut g = JsGame::new();
    g.set_max_depth(1);
    g.set_max_seconds(10);
    g.auto_adjust_max_depth(true);
    g.computer_play_turn(Some(a_move()), 500, report("slow", None));
    assert_eq!(g.current_depth(), Some(1));
}

#[test]
fn info_panel_text() {
    let mut g = JsGame::new();
    assert_eq!(g.info_string(), "Moves played: 0\nNext player: Attacker\n");
    g.player_play_turn(Some(report("a", None)));
    assert_eq!(g.info_string(), "Moves played: 1\nNext player: Defender\n");
    g.computer_play_turn(None, 1, report("none", None));
    assert_eq!(g.info_string(), "Moves played: 1\nGame over: no action available\n");
}

#[test]
fn info_panel_is_idempotent() {
    let g = JsGame::new();
    assert_eq!(g.info_string(), g.info_string());
    let board = vec![vec!["a".to_string(), "b".to_string()]];
    assert_eq!(JsGame::text_board_string(&board), JsGame::text_board_string(&board));
    assert_eq!(
        JsGame::html_board_string(&board, "c", "i", "f"),
        JsGame::html_board_string(&board, "c", "i", "f")
    );
}

#[test]
fn display_coord_writes_letter_and_number() {
    assert_eq!(JsGame::display_coord(1, 3), "B3");
    assert_eq!(JsGame::display_coord(0, 12), "A12");
    assert_eq!(JsGame::display_coord(25, 0), "Z0");
    assert_eq!(JsGame::display_coord(26, 4), "?4");
}

#[test]
fn search_request_uses_the_side_to_move() {
    let mut o = GameOptions::default();
    o.heuristics = Heuristics { attacker: Heuristic::game_moves(), defender: Heuristic::ai_distance(3, 4) };
    o.pruning = false;
    o.rand_traversal = true;
    let mut g = JsGame::from_options(o);
    assert_eq!(g.computer_search().unwrap().heuristic, Heuristic::game_moves());
    g.player_play_turn(Some(report("a", None)));
    let q = g.computer_search().unwrap();
    assert_eq!(q.player, Player::Defender);
    assert_eq!(q.heuristic, Heuristic::ai_distance(3, 4));
    assert!(!q.pruning);
    assert!(q.rand_traversal);
}

#[test]
fn no_depth_bound_means_unbounded_search() {
    let mut o = GameOptions::default();
    o.max_depth = None;
    o.adjust_max_depth = true;
    let mut g = JsGame::from_options(o);
    assert_eq!(g.computer_search().unwrap().max_depth, None);
    g.computer_play_turn(Some(a_move()), 10_000, report("slow", None));
    assert_eq!(g.current_depth(), None);
}

#[test]
fn replacing_options_restarts_adaptive_depth() {
    let mut g = JsGame::new();
    g.set_max_seconds(1000);
    g.auto_adjust_max_depth(true);
    g.computer_play_turn(Some(a_move()), 999, report("slow", None));
    assert_eq!(g.current_depth(), Some(5));
    g.set_alpha_beta(true);
    assert_eq!(g.current_depth(), Some(6));
}
