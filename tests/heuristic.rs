use wargame_session::{Heuristic, Term};

fn weighted() -> Heuristic {
    Heuristic::units_health_weight_bias(10, 10, 100)
        .scaled(10)
        .plus(Heuristic::ai_distance(2, 1))
        .minus(Heuristic::game_moves())
}

#[test]
fn terms_are_listed_left_to_right() {
    assert_eq!(
        weighted().term_list(),
        vec![Term::UnitsHealthWeightBias(10, 10, 100), Term::AiDistance(2, 1), Term::GameMoves]
    );
}

#[test]
fn weighted_formula_value() {
    // 10 * 7 + 4 - 3
    assert_eq!(weighted().evaluate(&vec![7, 4, 3]), Some(71));
    assert_eq!(weighted().evaluate(&vec![-5, 0, 12]), Some(-62));
}

#[test]
fn overflow_gives_none() {
    assert_eq!(weighted().evaluate(&vec![i64::MAX / 5, 0, 0]), None);
    let h = Heuristic::game_moves().minus(Heuristic::game_moves());
    assert_eq!(h.evaluate(&vec![i64::MIN, 1]), None);
    assert_eq!(h.evaluate(&vec![i64::MIN, -1]), Some(i64::MIN + 1));
}

#[test]
fn duplicate_is_equal() {
    assert_eq!(weighted().duplicate(), weighted());
}
