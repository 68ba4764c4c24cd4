use wargame_session::JsGame;

fn board() -> Vec<Vec<String>> {
    vec![
        vec!["dA9".to_string(), ".".to_string()],
        vec![".".to_string(), "aV9".to_string()],
    ]
}

#[test]
fn text_board_has_one_line_per_row() {
    assert_eq!(JsGame::text_board_string(&board()), "A: dA9 .\nB: . aV9\n");
    assert_eq!(JsGame::text_board_string(&Vec::new()), "");
}

#[test]
fn html_board_embeds_caller_strings() {
    let html = JsGame::html_board_string(&board(), "grid", "b1", "cellClick");
    assert_eq!(
        html,
        "<table class=\"grid\" id=\"b1\"><tr><td onclick=\"cellClick(0,0)\">dA9</td>\
         <td onclick=\"cellClick(0,1)\">.</td></tr><tr><td onclick=\"cellClick(1,0)\">.</td>\
         <td onclick=\"cellClick(1,1)\">aV9</td></tr></table>"
    );
}

#[test]
fn html_board_does_not_escape() {
    let html = JsGame::html_board_string(&Vec::new(), "a\"b", "<x>", "f");
    assert_eq!(html, "<table class=\"a\"b\" id=\"<x>\"></table>");
}

#[test]
fn damage_table_lists_names_and_values() {
    let names = vec!["AI".to_string(), "Virus".to_string()];
    let damage = vec![vec![3, 3], vec![9, 1]];
    assert_eq!(
        JsGame::damage_table_string("Damage", &names, &damage),
        "<table><caption>Damage</caption><tr><th></th><th>AI</th><th>Virus</th></tr>\
         <tr><th>AI</th><td>3</td><td>3</td></tr><tr><th>Virus</th><td>9</td><td>1</td></tr></table>"
    );
}

#[test]
fn repair_table_row_without_name() {
    let names = vec!["Tech".to_string()];
    let repair = vec![vec![0], vec![10]];
    assert_eq!(
        JsGame::repair_table_string("Repair", &names, &repair),
        "<table><caption>Repair</caption><tr><th></th><th>Tech</th></tr>\
         <tr><th>Tech</th><td>0</td></tr><tr><th></th><td>10</td></tr></table>"
    );
}
