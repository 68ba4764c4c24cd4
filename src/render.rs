//! Renderers for what the engine shows of the board and of its unit tables.
//!
//! The engine describes the board as one label per cell, row by row, and each
//! unit table as a grid of numbers indexed by unit types. Each renderer is a
//! function of that snapshot and of the caller's strings, which it embeds
//! verbatim: no escaping is done.
use vstd::prelude::*;
use crate::text::{decimal, push_decimal, push_row_char, row_char};

verus! {

/// The labels of a row, each after one space.
pub open spec fn cells_text(row: Seq<String>) -> Seq<char>
    decreases row.len(),
{
    if row.len() == 0 {
        Seq::empty()
    } else {
        cells_text(row.drop_last()) + " "@ + row.last()@
    }
}

/// Row `r` of the text board: its letter, a colon, its labels, a newline.
pub open spec fn row_line(r: nat, row: Seq<String>) -> Seq<char> {
    seq![row_char(r), ':'] + cells_text(row) + "\n"@
}

/// The first `n` rows of the text board.
pub open spec fn board_text(rows: Seq<Vec<String>>, n: nat) -> Seq<char>
    decreases n,
{
    if n == 0 || n > rows.len() {
        Seq::empty()
    } else {
        board_text(rows, (n - 1) as nat) + row_line((n - 1) as nat, rows[n - 1]@)
    }
}

/// Renders the board as text, one line per row.
pub fn render_text_board(rows: &Vec<Vec<String>>) -> (r: String)
    ensures
        r@ == board_text(rows@, rows@.len()),
{
    let mut s = String::new();
    let mut i: usize = 0;
    while i < rows.len()
        invariant
            i <= rows@.len(),
            s@ == board_text(rows@, i as nat),
        decreases rows@.len() - i,
    {
        let row = &rows[i];
        let ghost before = s@;
        push_row_char(&mut s, i);
        s.append(":");
        proof {
            reveal_strlit(":");
        }
        let mut j: usize = 0;
        while j < row.len()
            invariant
                j <= row@.len(),
                s@ == before + seq![row_char(i as nat), ':'] + cells_text(row@.take(j as int)),
            decreases row@.len() - j,
        {
            s.append(" ");
            s.append(row[j].as_str());
            proof {
                assert(row@.take(j + 1).drop_last() =~= row@.take(j as int));
            }
            j = j + 1;
        }
        s.append("\n");
        proof {
            assert(row@.take(j as int) =~= row@);
            assert(s@ =~= board_text(rows@, (i + 1) as nat));
        }
        i = i + 1;
    }
    s
}

/// One cell of the HTML board: a click on it calls `on_click(row,col)`.
pub open spec fn html_cell(r: nat, c: nat, label: Seq<char>, on_click: Seq<char>) -> Seq<char> {
    "<td onclick=\""@ + on_click + "("@ + decimal(r) + ","@ + decimal(c) + ")\">"@ + label + "</td>"@
}

/// The first `n` cells of row `r` of the HTML board.
pub open spec fn html_cells(r: nat, row: Seq<String>, n: nat, on_click: Seq<char>) -> Seq<char>
    decreases n,
{
    if n == 0 || n > row.len() {
        Seq::empty()
    } else {
        html_cells(r, row, (n - 1) as nat, on_click) + html_cell(r, (n - 1) as nat, row[n - 1]@, on_click)
    }
}

/// The first `n` rows of the HTML board.
pub open spec fn html_rows(rows: Seq<Vec<String>>, n: nat, on_click: Seq<char>) -> Seq<char>
    decreases n,
{
    if n == 0 || n > rows.len() {
        Seq::empty()
    } else {
        html_rows(rows, (n - 1) as nat, on_click) + "<tr>"@ + html_cells(
            (n - 1) as nat,
            rows[n - 1]@,
            rows[n - 1]@.len(),
            on_click,
        ) + "</tr>"@
    }
}

/// The HTML board: a table with the caller's class and id, one row per board
/// row.
pub open spec fn board_html(rows: Seq<Vec<String>>, css_class: Seq<char>, id: Seq<char>, on_click: Seq<char>) -> Seq<char> {
    "<table class=\""@ + css_class + "\" id=\""@ + id + "\">"@ + html_rows(rows, rows.len(), on_click) + "</table>"@
}

fn push_html_cell(s: &mut String, r: usize, c: usize, label: &String, on_click: &str)
    ensures
        final(s)@ == old(s)@ + html_cell(r as nat, c as nat, label@, on_click@),
{
    s.append("<td onclick=\"");
    s.append(on_click);
    s.append("(");
    push_decimal(s, r);
    s.append(",");
    push_decimal(s, c);
    s.append(")\">");
    s.append(label.as_str());
    s.append("</td>");
    assert(final(s)@ =~= old(s)@ + html_cell(r as nat, c as nat, label@, on_click@));
}

/// Renders the board as an HTML table. The class, the id and the name of the
/// click handler are embedded as given.
pub fn render_html_board(rows: &Vec<Vec<String>>, css_class: &str, id: &str, fn_click: &str) -> (r: String)
    ensures
        r@ == board_html(rows@, css_class@, id@, fn_click@),
{
    let mut s = String::from_str("<table class=\"");
    s.append(css_class);
    s.append("\" id=\"");
    s.append(id);
    s.append("\">");
    let ghost head = s@;
    let mut i: usize = 0;
    while i < rows.len()
        invariant
            i <= rows@.len(),
            s@ == head + html_rows(rows@, i as nat, fn_click@),
        decreases rows@.len() - i,
    {
        let row = &rows[i];
        s.append("<tr>");
        let ghost before = s@;
        let mut j: usize = 0;
        while j < row.len()
            invariant
                j <= row@.len(),
                s@ == before + html_cells(i as nat, row@, j as nat, fn_click@),
            decreases row@.len() - j,
        {
            push_html_cell(&mut s, i, j, &row[j], fn_click);
            j = j + 1;
        }
        s.append("</tr>");
        proof {
            assert(s@ =~= head + html_rows(rows@, (i + 1) as nat, fn_click@));
        }
        i = i + 1;
    }
    s.append("</table>");
    assert(s@ =~= board_html(rows@, css_class@, id@, fn_click@));
    s
}

/// The name of unit type `i`, or nothing past the last name.
pub open spec fn name_at(names: Seq<String>, i: int) -> Seq<char> {
    if 0 <= i < names.len() { names[i]@ } else { Seq::empty() }
}

/// The first `n` names, each as a header cell.
pub open spec fn header_cells(names: Seq<String>, n: nat) -> Seq<char>
    decreases n,
{
    if n == 0 || n > names.len() {
        Seq::empty()
    } else {
        header_cells(names, (n - 1) as nat) + "<th>"@ + names[n - 1]@ + "</th>"@
    }
}

/// The first `n` numbers of a row, each as a data cell.
pub open spec fn value_cells(row: Seq<usize>, n: nat) -> Seq<char>
    decreases n,
{
    if n == 0 || n > row.len() {
        Seq::empty()
    } else {
        value_cells(row, (n - 1) as nat) + "<td>"@ + decimal(row[n - 1] as nat) + "</td>"@
    }
}

/// The first `n` rows of a unit table, each headed by its unit's name.
pub open spec fn table_rows(names: Seq<String>, values: Seq<Vec<usize>>, n: nat) -> Seq<char>
    decreases n,
{
    if n == 0 || n > values.len() {
        Seq::empty()
    } else {
        table_rows(names, values, (n - 1) as nat) + "<tr><th>"@ + name_at(names, n - 1) + "</th>"@
            + value_cells(values[n - 1]@, values[n - 1]@.len()) + "</tr>"@
    }
}

/// A unit table: the legend as caption, a header row of unit names, then one
/// row of numbers per unit.
pub open spec fn table_html(legend: Seq<char>, names: Seq<String>, values: Seq<Vec<usize>>) -> Seq<char> {
    "<table><caption>"@ + legend + "</caption><tr><th></th>"@ + header_cells(names, names.len())
        + "</tr>"@ + table_rows(names, values, values.len()) + "</table>"@
}

/// Renders a unit table as HTML; the legend is embedded as given.
pub fn render_unit_table(legend: &str, names: &Vec<String>, values: &Vec<Vec<usize>>) -> (r: String)
    ensures
        r@ == table_html(legend@, names@, values@),
{
    let mut s = String::from_str("<table><caption>");
    s.append(legend);
    s.append("</caption><tr><th></th>");
    let ghost head = s@;
    let mut k: usize = 0;
    while k < names.len()
        invariant
            k <= names@.len(),
            s@ == head + header_cells(names@, k as nat),
        decreases names@.len() - k,
    {
        s.append("<th>");
        s.append(names[k].as_str());
        s.append("</th>");
        k = k + 1;
    }
    s.append("</tr>");
    let ghost top = s@;
    let mut i: usize = 0;
    while i < values.len()
        invariant
            i <= values@.len(),
            s@ == top + table_rows(names@, values@, i as nat),
        decreases values@.len() - i,
    {
        let row = &values[i];
        s.append("<tr><th>");
        if i < names.len() {
            s.append(names[i].as_str());
        }
        s.append("</th>");
        let ghost before = s@;
        let mut j: usize = 0;
        while j < row.len()
            invariant
                j <= row@.len(),
                s@ == before + value_cells(row@, j as nat),
            decreases row@.len() - j,
        {
            s.append("<td>");
            push_decimal(&mut s, row[j]);
            s.append("</td>");
            j = j + 1;
        }
        s.append("</tr>");
        proof {
            assert(s@ =~= top + table_rows(names@, values@, (i + 1) as nat));
        }
        i = i + 1;
    }
    s.append("</table>");
    assert(s@ =~= table_html(legend@, names@, values@));
    s
}

} // verus!
