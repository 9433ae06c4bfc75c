//! The game rules that the client decides on its own: dice, movement, what a
//! cell asks of the player, start bonuses, shop prices and the end of a game.
use vstd::prelude::*;
use crate::model::{BalanceRow, BoardCell, GameRules, Id, InventoryItem, ParticipantState};
use crate::text::{str_equals, string_of};

verus! {

/// Number of cells on the board.
pub const BOARD_SIZE: i32 = 40;

/// Number of power-ups an inventory holds at most.
pub const INVENTORY_CAPACITY: i64 = 5;

/// Most recent bot moves kept in the bot log.
pub const BOT_LOG_CAPACITY: usize = 10;

// ---------------------------------------------------------------------------
// Dice and movement

/// The two dice a clock reading (nanoseconds within the second) gives.
pub open spec fn dice_spec(seed: u32) -> (u8, u8) {
    (((seed % 6) + 1) as u8, (((seed / 7) % 6) + 1) as u8)
}

/// Rolls two six-sided dice from `seed`.
pub fn dice_from_seed(seed: u32) -> (r: (u8, u8))
    ensures
        r == dice_spec(seed),
        1 <= r.0 <= 6,
        1 <= r.1 <= 6,
{
    (((seed % 6) + 1) as u8, (((seed / 7) % 6) + 1) as u8)
}

/// The remainder of `x` by 40 with the sign of `x` (Rust's `%`).
pub open spec fn board_rem(x: int) -> int {
    if x >= 0 {
        x % 40
    } else {
        -((-x) % 40)
    }
}

/// The cell reached from `pos` by moving `steps` cells forward.
pub open spec fn advance_spec(pos: int, steps: int) -> int {
    board_rem(pos + steps)
}

/// Moves from `pos` by the sum of two dice around the forty-cell board.
pub fn advance_position(pos: i32, d1: u8, d2: u8) -> (r: i32)
    requires
        pos + d1 + d2 <= i32::MAX,
    ensures
        r == advance_spec(pos as int, d1 + d2),
{
    let x: i32 = pos + (d1 as i32 + d2 as i32);
    if x >= 0 {
        x % 40
    } else {
        let m: i32 = (-(x as i64) % 40) as i32;
        -m
    }
}

// ---------------------------------------------------------------------------
// What a cell asks of the player

/// What the cell the player landed on asks of them.
#[derive(Debug, Clone)]
pub enum CellAction {
    /// A free property that may be bought.
    CanBuy { cell_index: i32, cost: i64, name: String },
    /// Someone else's property: the rent is paid when the turn ends.
    MustPayRent { cell_index: i32, rent: i64, owner: String },
    /// A tax cell: the tax is paid when the turn ends.
    Tax,
    /// Nothing to do but read this.
    Info(String),
    /// A shop whose slots can be bought.
    Shop { shop_id: Id },
}

/// Index of the first cell of `cells` at board position `pos`.
pub open spec fn first_cell_at(cells: Seq<BoardCell>, pos: int) -> Option<int>
    decreases cells.len(),
{
    if cells.len() == 0 {
        None
    } else {
        match first_cell_at(cells.drop_last(), pos) {
            Some(i) => Some(i),
            None => if cells.last().cell_index == pos { Some(cells.len() - 1) } else { None },
        }
    }
}

/// The text of an optional string, empty where there is none.
pub open spec fn text_or_empty(s: Option<String>) -> Seq<char> {
    match s {
        Some(t) => t@,
        None => Seq::empty(),
    }
}

/// What landing on `cell` at `pos` asks of `user`.
pub open spec fn cell_action_spec(a: Option<CellAction>, cell: BoardCell, pos: int, user: Option<Id>) -> bool {
    if cell.cell_type@ == "property"@ {
        if cell.owner_user_id is None {
            a matches Some(CellAction::CanBuy { cell_index, cost, name })
                && cell_index == pos
                && cost == (match cell.purchase_cost { Some(c) => c, None => 0 })
                && name@ == text_or_empty(cell.prop_name)
        } else if cell.owner_user_id == user {
            a matches Some(CellAction::Info(msg)) && msg@ == "Ваша собственность"@
        } else {
            a matches Some(CellAction::MustPayRent { cell_index, rent, owner })
                && cell_index == pos
                && rent == (match cell.rent_cost { Some(c) => c, None => 0 })
                && owner@ == text_or_empty(cell.prop_name)
        }
    } else if cell.cell_type@ == "tax"@ {
        a matches Some(CellAction::Tax)
    } else if cell.cell_type@ == "shop"@ {
        match cell.shop_id {
            Some(shop) => a == Some(CellAction::Shop { shop_id: shop }),
            None => a matches Some(CellAction::Info(msg)) && msg@ == "Магазин"@,
        }
    } else {
        a is None
    }
}

/// What landing at `pos` asks of `user`, given the board's cells.
pub open spec fn landing_action_spec(a: Option<CellAction>, cells: Seq<BoardCell>, pos: int, user: Option<Id>) -> bool {
    match first_cell_at(cells, pos) {
        Some(i) => cell_action_spec(a, cells[i], pos, user),
        None => a is None,
    }
}

fn find_cell(cells: &Vec<BoardCell>, pos: i32) -> (r: Option<usize>)
    ensures
        match r {
            Some(i) => i < cells@.len() && first_cell_at(cells@, pos as int) == Some(i as int),
            None => first_cell_at(cells@, pos as int) is None,
        },
{
    let mut i: usize = 0;
    while i < cells.len()
        invariant
            i <= cells@.len(),
            first_cell_at(cells@.take(i as int), pos as int) is None,
        decreases cells@.len() - i,
    {
        proof {
            assert(cells@.take(i + 1).drop_last() =~= cells@.take(i as int));
        }
        if cells[i].cell_index == pos {
            proof {
                lemma_first_cell_prefix(cells@, pos as int, i as int + 1);
            }
            return Some(i);
        }
        i = i + 1;
    }
    assert(cells@.take(cells@.len() as int) =~= cells@);
    None
}

proof fn lemma_first_cell_prefix(cells: Seq<BoardCell>, pos: int, n: int)
    requires
        0 < n <= cells.len(),
        first_cell_at(cells.take(n), pos) == Some(n - 1),
    ensures
        first_cell_at(cells, pos) == Some(n - 1),
    decreases cells.len(),
{
    if cells.len() > n {
        assert(cells.drop_last().take(n) =~= cells.take(n));
        lemma_first_cell_prefix(cells.drop_last(), pos, n);
    } else {
        assert(cells.take(n) =~= cells);
    }
}

fn optional_text(s: &Option<String>) -> (r: String)
    ensures
        r@ == text_or_empty(*s),
{
    match s {
        Some(t) => string_of(t.as_str()),
        None => String::new(),
    }
}

/// What landing on the cell at `pos` asks of `user`.
pub fn landing_action(cells: &Vec<BoardCell>, pos: i32, user: Option<Id>) -> (r: Option<CellAction>)
    ensures
        landing_action_spec(r, cells@, pos as int, user),
{
    let found = find_cell(cells, pos);
    let i = match found {
        Some(i) => i,
        None => return None,
    };
    let c = &cells[i];
    if str_equals(c.cell_type.as_str(), "property") {
        let cost = match c.purchase_cost { Some(v) => v, None => 0 };
        let rent = match c.rent_cost { Some(v) => v, None => 0 };
        if c.owner_user_id.is_none() {
            Some(CellAction::CanBuy { cell_index: pos, cost, name: optional_text(&c.prop_name) })
        } else if owner_is(c.owner_user_id, user) {
            Some(CellAction::Info(string_of("Ваша собственность")))
        } else {
            Some(CellAction::MustPayRent { cell_index: pos, rent, owner: optional_text(&c.prop_name) })
        }
    } else if str_equals(c.cell_type.as_str(), "tax") {
        Some(CellAction::Tax)
    } else if str_equals(c.cell_type.as_str(), "shop") {
        match c.shop_id {
            Some(shop_id) => Some(CellAction::Shop { shop_id }),
            None => Some(CellAction::Info(string_of("Магазин"))),
        }
    } else {
        None
    }
}

/// Whether two optional ids are equal.
pub fn owner_is(a: Option<Id>, b: Option<Id>) -> (r: bool)
    ensures
        r == (a == b),
{
    match (a, b) {
        (Some(x), Some(y)) => x.0 == y.0,
        (None, None) => true,
        _ => false,
    }
}

// ---------------------------------------------------------------------------
// Start bonus

/// The start bonus shown after a turn: 400 for landing on the start cell,
/// 200 for passing it, 0 otherwise; none when the balance before was not positive.
pub open spec fn start_bonus_spec(old_balance: int, new_position: int, position_before_roll: int) -> int {
    if new_position == 0 && old_balance > 0 {
        400
    } else if old_balance > 0 && new_position < position_before_roll {
        200
    } else {
        0
    }
}

/// The start bonus a finished turn earned, judged from the position after the turn and the
/// position before the roll.
pub fn start_bonus(old_balance: i64, new_position: i32, position_before_roll: i32) -> (r: i64)
    ensures
        r == start_bonus_spec(old_balance as int, new_position as int, position_before_roll as int),
{
    if new_position == 0 && old_balance > 0 {
        400
    } else if old_balance > 0 && new_position < position_before_roll {
        200
    } else {
        0
    }
}

// ---------------------------------------------------------------------------
// End of game

/// How a game stands after everyone has moved.
#[derive(Debug, Clone, Copy, PartialEq, Eq, Structural)]
pub enum GameOutcome {
    Victory,
    Defeat,
    Ongoing,
}

/// Number of bots other than `user` still holding a positive balance.
pub open spec fn bots_alive(rows: Seq<BalanceRow>, user: Id) -> nat
    decreases rows.len(),
{
    if rows.len() == 0 {
        0
    } else {
        let r = rows.last();
        bots_alive(rows.drop_last(), user)
            + if r.user_id != user && r.user_type@ == "bot"@ && r.balance > 0 { 1nat } else { 0nat }
    }
}

/// Turns the player has left (never negative).
pub open spec fn moves_left(rules: GameRules, state: ParticipantState) -> int {
    let d = rules.max_turns - state.moves_made;
    if d > 0 { d } else { 0 }
}

/// Whether the player has won: the target balance is reached, or every bot is bankrupt
/// while the player is not.
pub open spec fn is_victory(rules: GameRules, state: ParticipantState, rows: Seq<BalanceRow>, user: Id) -> bool {
    state.balance >= rules.target_balance || (state.balance > 0 && bots_alive(rows, user) == 0)
}

/// Whether the player has lost: turns ran out without a victory, or the player is bankrupt.
pub open spec fn is_defeat(rules: GameRules, state: ParticipantState, rows: Seq<BalanceRow>, user: Id) -> bool {
    (!is_victory(rules, state, rows, user) && moves_left(rules, state) <= 0) || state.balance <= 0
}

/// The outcome of a game at the end of a round; a victory takes precedence.
pub open spec fn outcome_spec(rules: GameRules, state: ParticipantState, rows: Seq<BalanceRow>, user: Id) -> GameOutcome {
    if is_victory(rules, state, rows, user) {
        GameOutcome::Victory
    } else if is_defeat(rules, state, rows, user) {
        GameOutcome::Defeat
    } else {
        GameOutcome::Ongoing
    }
}

fn count_bots_alive(rows: &Vec<BalanceRow>, user: Id) -> (n: usize)
    ensures
        n == bots_alive(rows@, user),
{
    let mut n: usize = 0;
    let mut i: usize = 0;
    while i < rows.len()
        invariant
            i <= rows@.len(),
            n == bots_alive(rows@.take(i as int), user),
            n <= i,
        decreases rows@.len() - i,
    {
        let r = &rows[i];
        proof {
            assert(rows@.take(i + 1).drop_last() =~= rows@.take(i as int));
        }
        if r.user_id.0 != user.0 && str_equals(r.user_type.as_str(), "bot") && r.balance > 0 {
            n = n + 1;
        }
        i = i + 1;
    }
    assert(rows@.take(rows@.len() as int) =~= rows@);
    n
}

/// Decides whether the game is won, lost or still going, from the player's standing and every
/// participant's balance.
pub fn game_outcome(rules: &GameRules, state: &ParticipantState, rows: &Vec<BalanceRow>, user: Id) -> (r: GameOutcome)
    ensures
        r == outcome_spec(*rules, *state, rows@, user),
{
    let left: i64 = rules.max_turns as i64 - state.moves_made as i64;
    let left: i64 = if left > 0 { left } else { 0 };
    let alive = count_bots_alive(rows, user);
    let bankrupt = state.balance <= 0;
    let victory = state.balance >= rules.target_balance || (!bankrupt && alive == 0);
    let defeat = (!victory && left <= 0) || bankrupt;
    if victory {
        GameOutcome::Victory
    } else if defeat {
        GameOutcome::Defeat
    } else {
        GameOutcome::Ongoing
    }
}

// ---------------------------------------------------------------------------
// Shop and inventory

/// Price of rerolling a shop that has been rerolled `reroll_count` times.
pub open spec fn reroll_cost_spec(reroll_count: int) -> int {
    50 + 15 * reroll_count
}

/// The price of the next reroll of a shop.
pub fn reroll_cost(reroll_count: i32) -> (r: i64)
    ensures
        r == reroll_cost_spec(reroll_count as int),
{
    50 + 15 * reroll_count as i64
}

/// Total number of power-ups held in an inventory.
pub open spec fn inventory_total(items: Seq<InventoryItem>) -> int
    decreases items.len(),
{
    if items.len() == 0 {
        0
    } else {
        inventory_total(items.drop_last()) + items.last().quantity
    }
}

proof fn lemma_inventory_total_bound(items: Seq<InventoryItem>)
    ensures
        -items.len() * 0x8000_0000 <= inventory_total(items) <= items.len() * 0x8000_0000,
    decreases items.len(),
{
    if items.len() > 0 {
        lemma_inventory_total_bound(items.drop_last());
    }
}

/// Whether an inventory has no room for another power-up.
pub fn inventory_full(items: &Vec<InventoryItem>) -> (r: bool)
    ensures
        r == (inventory_total(items@) >= INVENTORY_CAPACITY),
{
    let mut total: i128 = 0;
    let mut i: usize = 0;
    assert(items@.len() == items.len());
    while i < items.len()
        invariant
            i <= items@.len(),
            items@.len() <= usize::MAX,
            total == inventory_total(items@.take(i as int)),
        decreases items@.len() - i,
    {
        proof {
            assert(items@.take(i + 1).drop_last() =~= items@.take(i as int));
            lemma_inventory_total_bound(items@.take(i as int));
            assert((i as int) * 0x8000_0000 <= 0x1_0000_0000_0000_0000int * 0x8000_0000) by (nonlinear_arith)
                requires (i as int) <= 0x1_0000_0000_0000_0000int;
        }
        total = total + items[i].quantity as i128;
        i = i + 1;
    }
    assert(items@.take(items@.len() as int) =~= items@);
    total >= 5
}

// ---------------------------------------------------------------------------
// Tax

/// The tax shown before it is paid: 100 plus 5% of the balance, rounded up.
pub open spec fn tax_preview_spec(balance: int) -> int {
    let five = 5 * balance;
    100 + if five % 100 == 0 { five / 100 } else { five / 100 + 1 }
}

/// The tax a player with `balance` will pay.
pub fn tax_preview(balance: i64) -> (r: i128)
    ensures
        r == tax_preview_spec(balance as int),
{
    let five: i128 = 5 * balance as i128;
    let q: i128 = if five >= 0 { five / 100 } else { -((-five) / 100) - if (-five) % 100 == 0 { 0 } else { 1 } };
    let rem: i128 = five - 100 * q;
    assert(0 <= rem < 100) by (nonlinear_arith)
        requires
            rem == five - 100 * q,
            five >= 0 ==> q == five / 100,
            five < 0 ==> q == -((-five) / 100) - if (-five) % 100 == 0 { 0int } else { 1int };
    assert(q == five / 100 && rem == five % 100) by (nonlinear_arith)
        requires rem == five - 100 * q, 0 <= rem < 100;
    100 + if rem == 0 { q } else { q + 1 }
}

} // verus!
