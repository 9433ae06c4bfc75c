//! Geometry and labelling of the 11 x 11 board around whose rim the forty cells lie.
use vstd::prelude::*;
use crate::model::BoardCell;
use crate::text::{decimal, decimal_string, join2, last_word_seq, last_word_text, prefix_seq, prefix_text, str_equals, string_of};

verus! {

/// Rows and columns of the board grid.
pub const GRID: usize = 11;

/// The cell index shown at grid position (`row`, `col`), counted clockwise from the start
/// cell in the bottom-left corner; `None` for the inner positions.
pub open spec fn cell_at_spec(row: int, col: int) -> Option<int> {
    if row == 10 && 0 <= col <= 9 {
        Some(col)
    } else if col == 10 && 1 <= row <= 10 {
        Some(20 - row)
    } else if row == 0 && 1 <= col <= 10 {
        Some(30 - col)
    } else if col == 0 && 0 <= row <= 9 {
        Some(30 + row)
    } else {
        None
    }
}

/// The grid position of cell `idx` (0 to 39).
pub open spec fn position_spec(idx: int) -> (int, int) {
    if idx < 10 {
        (10, idx)
    } else if idx < 20 {
        (20 - idx, 10)
    } else if idx < 30 {
        (0, 30 - idx)
    } else {
        (idx - 30, 0)
    }
}

/// The cell index at grid position (`row`, `col`).
pub fn cell_at(row: usize, col: usize) -> (r: Option<i32>)
    requires
        row < GRID,
        col < GRID,
    ensures
        match r {
            Some(i) => cell_at_spec(row as int, col as int) == Some(i as int),
            None => cell_at_spec(row as int, col as int) is None,
        },
{
    if row == 10 && col <= 9 {
        Some(col as i32)
    } else if col == 10 && 1 <= row {
        Some(20 - row as i32)
    } else if row == 0 && 1 <= col {
        Some(30 - col as i32)
    } else if col == 0 && row <= 9 {
        Some(30 + row as i32)
    } else {
        None
    }
}

/// The whole grid, row by row.
pub fn board_grid() -> (g: Vec<Vec<Option<i32>>>)
    ensures
        g@.len() == GRID,
        forall|r: int| 0 <= r < GRID ==> #[trigger] g@[r]@.len() == GRID,
        forall|r: int, c: int| 0 <= r < GRID && 0 <= c < GRID ==>
            match #[trigger] g@[r]@[c] {
                Some(i) => cell_at_spec(r, c) == Some(i as int),
                None => cell_at_spec(r, c) is None,
            },
{
    let mut g: Vec<Vec<Option<i32>>> = Vec::new();
    let mut r: usize = 0;
    while r < GRID
        invariant
            r <= GRID,
            g@.len() == r,
            forall|k: int| 0 <= k < r ==> #[trigger] g@[k]@.len() == GRID,
            forall|k: int, c: int| 0 <= k < r && 0 <= c < GRID ==>
                match #[trigger] g@[k]@[c] {
                    Some(i) => cell_at_spec(k, c) == Some(i as int),
                    None => cell_at_spec(k, c) is None,
                },
        decreases GRID - r,
    {
        let mut row: Vec<Option<i32>> = Vec::new();
        let mut c: usize = 0;
        while c < GRID
            invariant
                r < GRID,
                c <= GRID,
                row@.len() == c,
                forall|k: int| 0 <= k < c ==>
                    match #[trigger] row@[k] {
                        Some(i) => cell_at_spec(r as int, k) == Some(i as int),
                        None => cell_at_spec(r as int, k) is None,
                    },
            decreases GRID - c,
        {
            row.push(cell_at(r, c));
            c = c + 1;
        }
        g.push(row);
        r = r + 1;
    }
    g
}

/// The side of the board a cell lies on.
#[derive(Debug, Clone, Copy, PartialEq, Eq, Structural)]
pub enum Side {
    Bottom,
    Right,
    Top,
    Left,
}

/// Cells 0-9 lie at the bottom, 10-19 on the right, 20-29 at the top, the rest on the left.
pub open spec fn side_spec(idx: int) -> Side {
    if 0 <= idx <= 9 {
        Side::Bottom
    } else if 10 <= idx <= 19 {
        Side::Right
    } else if 20 <= idx <= 29 {
        Side::Top
    } else {
        Side::Left
    }
}

/// The side of the board cell `idx` lies on.
pub fn side_of(idx: i32) -> (s: Side)
    ensures
        s == side_spec(idx as int),
{
    if 0 <= idx && idx <= 9 {
        Side::Bottom
    } else if 10 <= idx && idx <= 19 {
        Side::Right
    } else if 20 <= idx && idx <= 29 {
        Side::Top
    } else {
        Side::Left
    }
}

/// Quotient of `a` by `b`, rounded toward zero (Rust's `/`).
pub open spec fn tdiv(a: int, b: int) -> int {
    if a >= 0 { a / b } else { -((-a) / b) }
}

/// Remainder of `a` by `b` with the sign of `a` (Rust's `%`).
pub open spec fn trem(a: int, b: int) -> int {
    if a >= 0 { a % b } else { -((-a) % b) }
}

/// The colour group of the property at `idx`: two groups per side, the first holding the
/// cells 0-3 of the side.
pub open spec fn property_group_spec(idx: int) -> int {
    if trem(idx, 10) <= 3 {
        tdiv(idx, 10) * 2
    } else {
        tdiv(idx, 10) * 2 + 1
    }
}

/// The colour group of the property at board index `idx`.
pub fn property_group(idx: i32) -> (g: i32)
    ensures
        g == property_group_spec(idx as int),
{
    let (q, r): (i32, i32) = if idx >= 0 {
        (idx / 10, idx % 10)
    } else {
        let m: i64 = -(idx as i64);
        (-((m / 10) as i32), -((m % 10) as i32))
    };
    if r <= 3 { q * 2 } else { q * 2 + 1 }
}

/// The header colour of a property card of colour group `group`.
pub open spec fn group_hex_spec(group: int) -> Seq<char> {
    if group == 0 { "#88ccff"@ }
    else if group == 1 { "#9400d3"@ }
    else if group == 2 { "#ff9933"@ }
    else if group == 3 { "#ff0000"@ }
    else if group == 4 { "#ffff00"@ }
    else if group == 5 { "#228b22"@ }
    else if group == 6 { "#0000cc"@ }
    else { "#8b4513"@ }
}

/// The header colour of a property card of colour group `group`.
pub fn group_hex(group: i32) -> (r: &'static str)
    ensures
        r@ == group_hex_spec(group as int),
{
    if group == 0 { "#88ccff" }
    else if group == 1 { "#9400d3" }
    else if group == 2 { "#ff9933" }
    else if group == 3 { "#ff0000" }
    else if group == 4 { "#ffff00" }
    else if group == 5 { "#228b22" }
    else if group == 6 { "#0000cc" }
    else { "#8b4513" }
}

/// Index of the last cell of `cells` at board position `idx`.
pub open spec fn last_cell_at(cells: Seq<BoardCell>, idx: int) -> Option<int>
    decreases cells.len(),
{
    if cells.len() == 0 {
        None
    } else if cells.last().cell_index == idx {
        Some(cells.len() - 1)
    } else {
        last_cell_at(cells.drop_last(), idx)
    }
}

/// Finds the last cell of `cells` at board position `idx`.
pub fn find_last_cell(cells: &Vec<BoardCell>, idx: i32) -> (r: Option<usize>)
    ensures
        match r {
            Some(i) => i < cells@.len() && last_cell_at(cells@, idx as int) == Some(i as int),
            None => last_cell_at(cells@, idx as int) is None,
        },
{
    let mut k: usize = cells.len();
    assert(cells@.take(k as int) =~= cells@);
    while k > 0
        invariant
            k <= cells@.len(),
            last_cell_at(cells@, idx as int) == last_cell_at(cells@.take(k as int), idx as int),
        decreases k,
    {
        assert(cells@.take(k as int).drop_last() =~= cells@.take(k - 1));
        if cells[k - 1].cell_index == idx {
            return Some(k - 1);
        }
        k = k - 1;
    }
    None
}

/// The last word of a property's name, or `?`.
pub open spec fn short_name_spec(name: Option<String>) -> Seq<char> {
    match name {
        Some(n) => match last_word_seq(n@) {
            Some(w) => w,
            None => "?"@,
        },
        None => "?"@,
    }
}

/// The last word of a property's name, or `?` where it has none.
pub fn short_name(name: &Option<String>) -> (r: String)
    ensures
        r@ == short_name_spec(*name),
{
    match name {
        Some(n) => match last_word_text(n.as_str()) {
            Some(w) => w,
            None => string_of("?"),
        },
        None => string_of("?"),
    }
}

/// The two lines written on a plain (non-picture) board cell.
pub open spec fn cell_labels_spec(cells: Seq<BoardCell>, idx: int) -> (Seq<char>, Seq<char>) {
    if idx == 0 {
        ("СТАРТ"@, Seq::empty())
    } else {
        match last_cell_at(cells, idx) {
            Some(i) => {
                let c = cells[i];
                if c.cell_type@ == "tax"@ {
                    ("НАЛОГ"@, "100+5%"@)
                } else if c.cell_type@ == "shop"@ {
                    ("МАГ"@, Seq::empty())
                } else if c.cell_type@ == "property"@ {
                    (prefix_seq(short_name_spec(c.prop_name), 7),
                     decimal(match c.purchase_cost { Some(v) => v as int, None => 0 }))
                } else {
                    (Seq::empty(), Seq::empty())
                }
            },
            None => (Seq::empty(), Seq::empty()),
        }
    }
}

/// The two lines written on board cell `idx`.
pub fn cell_labels(cells: &Vec<BoardCell>, idx: i32) -> (r: (String, String))
    ensures
        (r.0@, r.1@) == cell_labels_spec(cells@, idx as int),
{
    if idx == 0 {
        return (string_of("СТАРТ"), String::new());
    }
    match find_last_cell(cells, idx) {
        Some(i) => {
            let c = &cells[i];
            if str_equals(c.cell_type.as_str(), "tax") {
                (string_of("НАЛОГ"), string_of("100+5%"))
            } else if str_equals(c.cell_type.as_str(), "shop") {
                (string_of("МАГ"), String::new())
            } else if str_equals(c.cell_type.as_str(), "property") {
                let name = short_name(&c.prop_name);
                let cost = match c.purchase_cost { Some(v) => v, None => 0 };
                (prefix_text(name.as_str(), 7), decimal_string(cost))
            } else {
                (String::new(), String::new())
            }
        },
        None => (String::new(), String::new()),
    }
}

/// The figure at the bottom of a property card: the rent of an owned property,
/// the price of a free one.
pub open spec fn value_label_spec(cell: BoardCell) -> Seq<char> {
    if cell.owner_user_id is Some {
        "А:"@ + decimal(match cell.rent_cost { Some(v) => v as int, None => 0 })
    } else {
        decimal(match cell.purchase_cost { Some(v) => v as int, None => 0 })
    }
}

/// The figure at the bottom of a property card.
pub fn value_label(cell: &BoardCell) -> (r: String)
    ensures
        r@ == value_label_spec(*cell),
{
    if cell.owner_user_id.is_some() {
        let rent = match cell.rent_cost { Some(v) => v, None => 0 };
        let n = decimal_string(rent);
        join2("А:", n.as_str())
    } else {
        decimal_string(match cell.purchase_cost { Some(v) => v, None => 0 })
    }
}

} // verus!
