//! Records exchanged with the game's database, held as plain values.
use vstd::prelude::*;

verus! {

/// Identifier of a user, game, shop, slot, property or power-up (the 128 bits of its UUID).
#[derive(Clone, Copy, Debug, PartialEq, Eq, Structural)]
pub struct Id(pub u128);

/// An error reported by the database layer, as its message.
#[derive(Debug, Clone)]
pub struct DbError(pub String);

/// A registered account.
#[derive(Debug, Clone)]
pub struct User {
    pub id: Id,
    pub username: String,
    /// `"human"` or `"bot"`.
    pub user_type: String,
    pub password_hash: String,
    /// Seconds since the Unix epoch.
    pub created_at: i64,
    pub is_active: bool,
}

/// A game as stored.
#[derive(Debug, Clone)]
pub struct Game {
    pub id: Id,
    pub status: String,
    pub seed: i64,
    /// Seconds since the Unix epoch.
    pub created_at: i64,
    /// Seconds since the Unix epoch.
    pub last_saved_at: i64,
}

/// The parameters a game was created with.
#[derive(Debug, Clone, Copy, PartialEq, Eq, Structural)]
pub struct GameRules {
    pub game_id: Id,
    pub starting_balance: i64,
    pub max_turns: i32,
    pub target_balance: i64,
}

/// One participant of a game (the player or a bot).
#[derive(Debug, Clone, Copy, PartialEq, Eq, Structural)]
pub struct GameParticipant {
    pub game_id: Id,
    pub user_id: Id,
    pub position: i32,
    pub balance: i64,
    pub moves_made: i32,
    pub total_spent: i64,
    pub total_earned: i64,
    pub turn_order: i32,
}

/// A stack of one power-up in a player's inventory.
///
/// `effect_type` and `effect_value` are the `type` and `value` entries of the
/// power-up's effect description, where it has them as a string and an integer.
#[derive(Debug, Clone)]
pub struct InventoryItem {
    pub power_up_id: Id,
    pub name: String,
    pub quantity: i32,
    pub effect_type: Option<String>,
    pub effect_value: Option<i64>,
}

/// One cell of the forty-cell board.
#[derive(Debug, Clone)]
pub struct BoardCell {
    pub cell_index: i32,
    /// `"start"`, `"property"`, `"shop"`, `"tax"` or `"empty"`.
    pub cell_type: String,
    pub tax_amount: Option<i64>,
    pub prop_name: Option<String>,
    pub purchase_cost: Option<i64>,
    pub rent_cost: Option<i64>,
    pub owner_user_id: Option<Id>,
    pub shop_id: Option<Id>,
    pub refresh_cost: Option<i64>,
}

/// One entry of a property's list of installed upgrades, where its fields are strings.
#[derive(Debug, Clone)]
pub struct UpgradeEntry {
    pub name: Option<String>,
    /// The power-up's UUID in its textual form.
    pub power_up_id: Option<String>,
}

/// A property owned by the player.
///
/// `upgrades` is `None` where the stored upgrade list is not a list.
#[derive(Debug, Clone)]
pub struct PlayerProperty {
    pub property_id: Id,
    pub cell_index: i32,
    pub prop_name: String,
    pub purchase_cost: i64,
    pub rent_cost: i64,
    pub upgrades: Option<Vec<UpgradeEntry>>,
    pub upgrades_count: i32,
    pub max_upgrades: i32,
}

/// A participant's standing after a move or a purchase.
#[derive(Debug, Clone, Copy, PartialEq, Eq, Structural)]
pub struct ParticipantState {
    pub position: i32,
    pub balance: i64,
    pub moves_made: i32,
    pub total_spent: i64,
    pub total_earned: i64,
}

/// A user's totals over all games.
#[derive(Debug, Clone, Copy, PartialEq, Eq, Structural)]
pub struct UserStats {
    pub total_games: i32,
    pub total_wins: i32,
    pub current_win_streak: i32,
    pub total_moves: i64,
    pub total_earned: i64,
    pub total_spent: i64,
    pub properties_bought: i64,
    pub power_ups_bought: i64,
}

/// The outcome of a finished game for one participant.
#[derive(Debug, Clone)]
pub struct GameResult {
    pub game_status: String,
    pub balance: i64,
    pub target_balance: i64,
    pub moves_made: i32,
    pub max_turns: i32,
    pub total_earned: i64,
    pub total_spent: i64,
    pub is_victory: bool,
}

/// One slot of a shop.
#[derive(Debug, Clone)]
pub struct ShopSlot {
    pub slot_index: i32,
    pub slot_id: Id,
    pub power_up_id: Id,
    pub name: String,
    pub description: String,
    pub cost: i64,
    /// `"available"`, `"sold"` or `"rerolled"`.
    pub status: String,
    pub already_own: bool,
    pub reroll_count: i32,
}

/// A bot taking part in a game.
#[derive(Debug, Clone)]
pub struct BotParticipant {
    pub user_id: Id,
    pub username: String,
    pub position: i32,
    pub balance: i64,
    pub turn_order: i32,
}

/// What a bot's turn did.
#[derive(Debug, Clone)]
pub struct BotTurnResult {
    pub new_position: i32,
    pub new_balance: i64,
    /// `"bought"`, `"rent_paid"`, `"tax_paid"`, `"bankrupt"`, `"start_bonus"` or another word for a skipped turn.
    pub action: String,
    pub action_detail: String,
}

/// One of the user's games, as listed on the load screen.
#[derive(Debug, Clone)]
pub struct UserGameRow {
    pub game_id: Id,
    pub status: String,
    pub balance: i64,
    pub moves_made: i32,
    /// Seconds since the Unix epoch.
    pub created_at: i64,
}

/// A participant's balance, as used to decide whether a game is over.
#[derive(Debug, Clone)]
pub struct BalanceRow {
    pub user_id: Id,
    pub balance: i64,
    /// `"human"` or `"bot"`.
    pub user_type: String,
}

/// std's `Clone` for `Result` (derived there): the variant is kept and its payload cloned.
pub assume_specification<T: Clone, E: Clone>[ <Result<T, E> as Clone>::clone ](r: &Result<T, E>) -> (res: Result<T, E>)
    ensures
        (r is Ok) == (res is Ok),
        r is Ok ==> cloned::<T>(r->Ok_0, res->Ok_0),
        r is Err ==> cloned::<E>(r->Err_0, res->Err_0),
;

} // verus!
