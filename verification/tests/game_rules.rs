use dreambreaker::model::{BalanceRow, BoardCell, GameRules, Id, InventoryItem, ParticipantState};
use dreambreaker::rules::{
    advance_position, dice_from_seed, game_outcome, inventory_full, landing_action, owner_is,
    reroll_cost, start_bonus, tax_preview, CellAction, GameOutcome,
};

fn cell(index: i32, kind: &str) -> BoardCell {
    BoardCell {
        cell_index: index,
        cell_type: kind.to_string(),
        tax_amount: None,
        prop_name: None,
        purchase_cost: None,
        rent_cost: None,
        owner_user_id: None,
        shop_id: None,
        refresh_cost: None,
    }
}

fn property(index: i32, name: &str, cost: i64, rent: i64, owner: Option<Id>) -> BoardCell {
    BoardCell {
        prop_name: Some(name.to_string()),
        purchase_cost: Some(cost),
        rent_cost: Some(rent),
        owner_user_id: owner,
        ..cell(index, "property")
    }
}

fn rules(max_turns: i32, target: i64) -> GameRules {
    GameRules { game_id: Id(1), starting_balance: 1000, max_turns, target_balance: target }
}

fn state(balance: i64, moves: i32) -> ParticipantState {
    ParticipantState { position: 0, balance, moves_made: moves, total_spent: 0, total_earned: 0 }
}

fn row(id: u128, balance: i64, kind: &str) -> BalanceRow {
    BalanceRow { user_id: Id(id), balance, user_type: kind.to_string() }
}

fn item(qty: i32) -> InventoryItem {
    InventoryItem { power_up_id: Id(9), name: "x".to_string(), quantity: qty, effect_type: None, effect_value: None }
}

#[test]
fn dice_from_clock_readings() {
    assert_eq!(dice_from_seed(0), (1, 1));
    assert_eq!(dice_from_seed(13), (2, 2));
    assert_eq!(dice_from_seed(999_999_999), (4, 5));
    for seed in [1u32, 5, 6, 41, 123_456_789, u32::MAX] {
        let (a, b) = dice_from_seed(seed);
        assert!((1..=6).contains(&a) && (1..=6).contains(&b));
    }
}

#[test]
fn movement_wraps_around_the_board() {
    assert_eq!(advance_position(0, 3, 4), 7);
    assert_eq!(advance_position(38, 3, 1), 2);
    assert_eq!(advance_position(34, 3, 3), 0);
    assert_eq!(advance_position(-50, 1, 1), -8);
}

#[test]
fn landing_on_a_free_property_offers_it() {
    let cells = vec![cell(0, "start"), property(5, "Улица Арбат", 200, 20, None)];
    match landing_action(&cells, 5, Some(Id(1))) {
        Some(CellAction::CanBuy { cell_index, cost, name }) => {
            assert_eq!((cell_index, cost, name.as_str()), (5, 200, "Улица Арбат"));
        }
        other => panic!("unexpected {:?}", other),
    }
}

#[test]
fn landing_on_own_and_foreign_property() {
    let cells = vec![property(5, "Арбат", 200, 20, Some(Id(1))), property(6, "Тверская", 300, 35, Some(Id(2)))];
    match landing_action(&cells, 5, Some(Id(1))) {
        Some(CellAction::Info(m)) => assert_eq!(m, "Ваша собственность"),
        other => panic!("unexpected {:?}", other),
    }
    match landing_action(&cells, 6, Some(Id(1))) {
        Some(CellAction::MustPayRent { cell_index, rent, owner }) => {
            assert_eq!((cell_index, rent, owner.as_str()), (6, 35, "Тверская"));
        }
        other => panic!("unexpected {:?}", other),
    }
}

#[test]
fn landing_on_tax_shop_and_other_cells() {
    let mut shop = cell(3, "shop");
    shop.shop_id = Some(Id(77));
    let cells = vec![cell(2, "tax"), shop, cell(4, "shop"), cell(8, "empty")];
    assert!(matches!(landing_action(&cells, 2, None), Some(CellAction::Tax)));
    assert!(matches!(landing_action(&cells, 3, None), Some(CellAction::Shop { shop_id: Id(77) })));
    match landing_action(&cells, 4, None) {
        Some(CellAction::Info(m)) => assert_eq!(m, "Магазин"),
        other => panic!("unexpected {:?}", other),
    }
    assert!(landing_action(&cells, 8, None).is_none());
    assert!(landing_action(&cells, 9, None).is_none());
}

#[test]
fn first_matching_cell_decides() {
    let cells = vec![cell(4, "tax"), cell(4, "shop")];
    assert!(matches!(landing_action(&cells, 4, None), Some(CellAction::Tax)));
}

#[test]
fn start_bonus_values() {
    assert_eq!(start_bonus(1000, 0, 0), 400);
    assert_eq!(start_bonus(1000, 2, 38), 200);
    assert_eq!(start_bonus(1000, 12, 12), 0);
    assert_eq!(start_bonus(0, 0, 0), 0);
    assert_eq!(start_bonus(-5, 2, 38), 0);
}

#[test]
fn outcome_victory_by_target() {
    let rows = vec![row(2, 500, "bot")];
    assert_eq!(game_outcome(&rules(50, 2500), &state(2500, 10), &rows, Id(1)), GameOutcome::Victory);
}

#[test]
fn outcome_victory_when_all_bots_bankrupt() {
    let rows = vec![row(1, 900, "human"), row(2, 0, "bot"), row(3, -10, "bot")];
    assert_eq!(game_outcome(&rules(50, 2500), &state(900, 10), &rows, Id(1)), GameOutcome::Victory);
}

#[test]
fn outcome_defeat_cases() {
    let rows = vec![row(2, 500, "bot")];
    assert_eq!(game_outcome(&rules(50, 2500), &state(0, 10), &rows, Id(1)), GameOutcome::Defeat);
    assert_eq!(game_outcome(&rules(50, 2500), &state(900, 50), &rows, Id(1)), GameOutcome::Defeat);
}

#[test]
fn outcome_ongoing() {
    let rows = vec![row(1, 900, "human"), row(2, 500, "bot")];
    assert_eq!(game_outcome(&rules(50, 2500), &state(900, 10), &rows, Id(1)), GameOutcome::Ongoing);
}

#[test]
fn humans_do_not_count_as_bots_alive() {
    let rows = vec![row(5, 900, "human")];
    assert_eq!(game_outcome(&rules(50, 2500), &state(900, 10), &rows, Id(1)), GameOutcome::Victory);
}

#[test]
fn reroll_prices() {
    assert_eq!(reroll_cost(0), 50);
    assert_eq!(reroll_cost(2), 80);
}

#[test]
fn inventory_capacity_is_five() {
    assert!(!inventory_full(&vec![item(2), item(2)]));
    assert!(inventory_full(&vec![item(2), item(3)]));
    assert!(!inventory_full(&vec![]));
}

#[test]
fn tax_is_one_hundred_plus_five_percent_rounded_up() {
    assert_eq!(tax_preview(1000), 150);
    assert_eq!(tax_preview(1001), 151);
    assert_eq!(tax_preview(0), 100);
    assert_eq!(tax_preview(-10), 100);
    assert_eq!(tax_preview(-30), 99);
    let expected: i64 = 100 + (2500f64 * 0.05).ceil() as i64;
    assert_eq!(tax_preview(2500), expected as i128);
}

#[test]
fn optional_ids_compare() {
    assert!(owner_is(Some(Id(3)), Some(Id(3))));
    assert!(!owner_is(Some(Id(3)), None));
    assert!(owner_is(None, None));
}
