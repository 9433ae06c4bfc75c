use dreambreaker::client::WindowMode;
use dreambreaker::display::{
    already_installed, bot_property_count, can_install_more, dice_svg_path, dropdown_needs_scroll,
    dropdown_users, effect_description, fallback_property_template, game_is_done, game_status_label, game_title,
    hovered_upgrades, install_label, installed_upgrades, inventory_label, inventory_tooltip, occupants,
    outcome_detail, outcome_label, owner_label, property_card_markup, property_header_color,
    property_panel_label, property_template_path, recent_bot_moves, settings_back_label, shop_offer,
    shop_reroll_price, shop_tooltip, svg_level, board_level, turns_left, upgrade_slots, visible_slots,
    Icon, ShopOffer,
};
use dreambreaker::model::{
    BoardCell, BotParticipant, GameResult, GameRules, Id, InventoryItem, ParticipantState, PlayerProperty,
    ShopSlot, UpgradeEntry,
};

fn item(name: &str, qty: i32, kind: Option<&str>, value: Option<i64>) -> InventoryItem {
    InventoryItem {
        power_up_id: Id(5),
        name: name.to_string(),
        quantity: qty,
        effect_type: kind.map(|k| k.to_string()),
        effect_value: value,
    }
}

fn slot(status: &str, own: bool, cost: i64, rerolls: i32) -> ShopSlot {
    ShopSlot {
        slot_index: 0,
        slot_id: Id(1),
        power_up_id: Id(2),
        name: "Бонус".to_string(),
        description: "описание".to_string(),
        cost,
        status: status.to_string(),
        already_own: own,
        reroll_count: rerolls,
    }
}

fn prop(cell: i32, upgrades: i32, max: i32, entries: Option<Vec<UpgradeEntry>>) -> PlayerProperty {
    PlayerProperty {
        property_id: Id(77),
        cell_index: cell,
        prop_name: "Арбат".to_string(),
        purchase_cost: 200,
        rent_cost: 20,
        upgrades: entries,
        upgrades_count: upgrades,
        max_upgrades: max,
    }
}

fn bot(id: u128, name: &str, pos: i32) -> BotParticipant {
    BotParticipant { user_id: Id(id), username: name.to_string(), position: pos, balance: 1000, turn_order: 1 }
}

fn owned_cell(index: i32, kind: &str, owner: Option<Id>) -> BoardCell {
    BoardCell {
        cell_index: index,
        cell_type: kind.to_string(),
        tax_amount: None,
        prop_name: Some("Арбат".to_string()),
        purchase_cost: Some(200),
        rent_cost: Some(20),
        owner_user_id: owner,
        shop_id: None,
        refresh_cost: None,
    }
}

fn result(status: &str, victory: bool) -> GameResult {
    GameResult {
        game_status: status.to_string(),
        balance: 100,
        target_balance: 2500,
        moves_made: 10,
        max_turns: 50,
        total_earned: 0,
        total_spent: 0,
        is_victory: victory,
    }
}

#[test]
fn icons_have_their_files() {
    assert_eq!(Icon::Play.path(), "assets/play_btn.svg");
    assert_eq!(Icon::Save.path(), "assets/save_btn.svg");
    assert_eq!(Icon::Settings.path(), "assets/settings_btn.svg");
    assert_eq!(Icon::Close.path(), "assets/close_btn.svg");
}

#[test]
fn window_mode_names() {
    assert_eq!(WindowMode::Window.label(), "Окно");
    assert_eq!(WindowMode::Fullscreen.label(), "Полноэкранный");
    assert_eq!(WindowMode::Borderless.label(), "Полноэкранный в окне");
}

#[test]
fn game_status_words() {
    assert_eq!(game_status_label("active"), "активна");
    assert_eq!(game_status_label("paused"), "приостановлена");
    assert_eq!(game_status_label("pending"), "ожидание");
    assert_eq!(game_status_label("finished"), "завершена");
    assert_eq!(game_status_label("surrender"), "сдался");
    assert_eq!(game_status_label("weird"), "weird");
    assert!(game_is_done("finished") && game_is_done("surrender"));
    assert!(!game_is_done("active") && !game_is_done("paused"));
}

#[test]
fn inventory_captions() {
    assert_eq!(inventory_label(&item("x", 1, Some("flat_base"), Some(30))), "+30\nБаза");
    assert_eq!(inventory_label(&item("x", 1, Some("percent_bonus"), Some(15))), "+15%\nАренда");
    assert_eq!(inventory_label(&item("x", 1, Some("flat_final"), Some(-5))), "+-5\nИтог");
    assert_eq!(inventory_label(&item("Очень длинное имя", 1, None, None)), "Очень дл");
    let t = inventory_tooltip(&item("Щит", 1, Some("flat_base"), None));
    assert_eq!((t.name.as_str(), t.description.as_str(), t.effect_type.as_str(), t.effect_value), ("Щит", "", "flat_base", 0));
    assert_eq!((t.buy_cost, t.sell_cost), (None, None));
}

#[test]
fn shop_tooltips_show_resale() {
    let t = shop_tooltip(&slot("available", false, 151, 0));
    assert_eq!((t.buy_cost, t.sell_cost), (Some(151), Some(75)));
    assert_eq!(t.name, "Бонус");
    assert_eq!(t.description, "описание");
    let neg = shop_tooltip(&slot("available", false, -7, 0));
    assert_eq!(neg.sell_cost, Some(-3));
}

#[test]
fn effect_sentences() {
    assert_eq!(effect_description("flat_base", 25), "+25 к базовой аренде");
    assert_eq!(effect_description("percent_bonus", 10), "+10% к аренде");
    assert_eq!(effect_description("flat_final", 40), "+40 к итоговой аренде");
    assert_eq!(effect_description("mystery", 1), "mystery");
}

#[test]
fn shop_buttons_in_order() {
    let small = vec![item("a", 2, None, None)];
    let full = vec![item("a", 3, None, None), item("b", 2, None, None)];
    assert_eq!(shop_offer(&slot("sold", true, 10, 0), &full), ShopOffer::Sold);
    assert_eq!(shop_offer(&slot("available", true, 10, 0), &full), ShopOffer::AlreadyOwned);
    assert_eq!(shop_offer(&slot("available", false, 10, 0), &full), ShopOffer::NoRoom);
    assert_eq!(shop_offer(&slot("available", false, 10, 0), &small), ShopOffer::Buy);
}

#[test]
fn rerolled_slots_are_hidden() {
    let slots = vec![slot("available", false, 1, 2), slot("rerolled", false, 1, 2), slot("sold", false, 1, 2)];
    assert_eq!(visible_slots(&slots), vec![0, 2]);
    assert_eq!(shop_reroll_price(&slots), 80);
    assert_eq!(shop_reroll_price(&Vec::new()), 50);
}

#[test]
fn card_levels() {
    assert_eq!(svg_level(0), 0);
    assert_eq!(svg_level(2), 2);
    assert_eq!(svg_level(7), 3);
    assert_eq!(svg_level(-1), 3);
    let props = vec![prop(5, 1, 3, None), prop(5, 2, 3, None), prop(9, 9, 3, None)];
    assert_eq!(board_level(&props, 5), 2);
    assert_eq!(board_level(&props, 9), 3);
    assert_eq!(board_level(&props, 1), 0);
    assert_eq!(hovered_upgrades(&props, 5), 1);
    assert_eq!(hovered_upgrades(&props, 2), 0);
}

#[test]
fn owner_captions() {
    let bots = vec![bot(10, "Алиса", 0), bot(11, "Борис", 3)];
    let me = Some(Id(1));
    assert_eq!(owner_label(&owned_cell(1, "property", Some(Id(1))), me, &bots), "Ваша");
    assert_eq!(owner_label(&owned_cell(1, "property", Some(Id(11))), me, &bots), "Борис");
    assert_eq!(owner_label(&owned_cell(1, "property", Some(Id(99))), me, &bots), "Чужая");
    assert_eq!(owner_label(&owned_cell(1, "property", None), me, &bots), "Свободна");
    let cells = vec![
        owned_cell(1, "property", Some(Id(10))),
        owned_cell(2, "property", Some(Id(11))),
        owned_cell(3, "property", Some(Id(10))),
        owned_cell(4, "shop", Some(Id(10))),
    ];
    assert_eq!(bot_property_count(&cells, Id(10)), 2);
    assert_eq!(bot_property_count(&cells, Id(12)), 0);
}

#[test]
fn installed_upgrades_keep_parsable_entries() {
    let entries = vec![
        UpgradeEntry { name: Some("Щит".to_string()), power_up_id: Some("67e55044-10b1-426f-9247-bb680e5fe0c8".to_string()) },
        UpgradeEntry { name: Some("Плохой".to_string()), power_up_id: Some("not-a-uuid".to_string()) },
        UpgradeEntry { name: None, power_up_id: Some("67e55044-10b1-426f-9247-bb680e5fe0c8".to_string()) },
        UpgradeEntry { name: Some("Меч".to_string()), power_up_id: Some("00000000-0000-0000-0000-000000000010".to_string()) },
    ];
    let got = installed_upgrades(&prop(5, 2, 3, Some(entries)));
    assert_eq!(
        got,
        vec![
            ("Щит".to_string(), Id(0x67e5504410b1426f9247bb680e5fe0c8)),
            ("Меч".to_string(), Id(16)),
        ]
    );
    assert!(installed_upgrades(&prop(5, 0, 3, None)).is_empty());
    assert!(already_installed(&got, Id(16)));
    assert!(!already_installed(&got, Id(17)));
}

#[test]
fn upgrade_slots_and_install_captions() {
    assert_eq!(upgrade_slots(&prop(5, 0, 3, None)), 3);
    assert_eq!(upgrade_slots(&prop(5, 0, 0, None)), 1);
    let inv = vec![item("a", 1, None, None)];
    assert!(can_install_more(1, 3, &inv));
    assert!(!can_install_more(3, 3, &inv));
    assert!(!can_install_more(0, 3, &Vec::new()));
    assert_eq!(install_label("Улучшение: Золотая крыша"), "Золотая кр");
    assert_eq!(install_label("  Щит  "), "Щит");
    assert_eq!(property_header_color(&prop(1, 0, 3, None)), "#88ccff");
    assert_eq!(property_header_color(&prop(6, 0, 3, None)), "#9400d3");
    assert_eq!(property_header_color(&prop(39, 0, 3, None)), "#8b4513");
}

#[test]
fn game_screen_captions() {
    let rules = GameRules { game_id: Id(1), starting_balance: 1000, max_turns: 50, target_balance: 2500 };
    let st = |moves| ParticipantState { position: 0, balance: 1000, moves_made: moves, total_spent: 0, total_earned: 0 };
    assert_eq!(turns_left(&rules, &st(12)), 38);
    assert_eq!(turns_left(&rules, &st(60)), 0);
    assert!(!dropdown_needs_scroll(4));
    assert!(dropdown_needs_scroll(5));
    assert_eq!(property_panel_label(true), "▲ Мои объекты");
    assert_eq!(property_panel_label(false), "▼ Мои объекты");
    assert_eq!(settings_back_label(true), "Назад к игре");
    assert_eq!(settings_back_label(false), "Назад");
    assert_eq!(dice_svg_path(4), "assets/dice_4.svg");
}

#[test]
fn profile_menu_skips_current_user() {
    let users = vec![(Id(1), "a".to_string()), (Id(2), "b".to_string()), (Id(3), "c".to_string())];
    assert_eq!(dropdown_users(&users, Some(Id(2))), vec![0, 2]);
    assert_eq!(dropdown_users(&users, None), vec![0, 1, 2]);
}

#[test]
fn bot_log_newest_first() {
    let log: Vec<String> = (1..=8).map(|i| format!("ход {}", i)).collect();
    let recent = recent_bot_moves(&log);
    assert_eq!(recent, vec!["ход 8", "ход 7", "ход 6", "ход 5", "ход 4", "ход 3"]);
    let short = vec!["a".to_string(), "b".to_string()];
    assert_eq!(recent_bot_moves(&short), vec!["b", "a"]);
}

#[test]
fn pieces_on_a_cell() {
    let bots = vec![bot(10, "A", 4), bot(11, "B", 7), bot(12, "C", 4)];
    assert_eq!(occupants(4, 4, Some(Id(1)), &bots), vec![Id(1), Id(10), Id(12)]);
    assert_eq!(occupants(4, 5, Some(Id(1)), &bots), vec![Id(10), Id(12)]);
    assert_eq!(occupants(7, 7, None, &bots), vec![Id(11)]);
    assert!(occupants(0, 5, Some(Id(1)), &bots).is_empty());
}

#[test]
fn game_over_texts() {
    assert_eq!(outcome_label(&result("finished", true)), "ПОБЕДА");
    assert_eq!(outcome_label(&result("finished", false)), "ПОРАЖЕНИЕ");
    assert_eq!(outcome_detail(&result("finished", true)), "Достигнут целевой баланс");
    assert_eq!(outcome_detail(&result("surrender", false)), "Вы сдались");
    assert_eq!(outcome_detail(&result("finished", false)), "Закончились ходы");
    assert_eq!(outcome_detail(&result("odd", false)), "odd");
}

#[test]
fn card_templates() {
    assert_eq!(property_template_path(0), "assets/property_0.svg");
    assert_eq!(property_template_path(2), "assets/property_2.svg");
    assert_eq!(property_template_path(9), "assets/property_3.svg");
    assert!(fallback_property_template().starts_with("<svg "));
    assert!(fallback_property_template().ends_with("</svg>"));
}

#[test]
fn card_markup_is_written_before_svg_end() {
    let out = property_card_markup("<svg>A</svg>", "R&D <Co>X", "$1", "#fff", Some("#0f0"));
    let expected = [
        "<svg>A",
        "<rect x=\"256\" y=\"256\" width=\"256\" height=\"40\" fill=\"#fff\" opacity=\"0.85\"/>",
        "<rect x=\"256\" y=\"496\" width=\"256\" height=\"16\" fill=\"#0f0\" opacity=\"0.9\"/>",
        "<text x=\"384\" y=\"276\" text-anchor=\"middle\" dominant-baseline=\"middle\" font-family=\"sans-serif\" font-size=\"22\" fill=\"#111\">",
        "R&amp;D &lt;Co&gt;",
        "</text><text x=\"384\" y=\"507\" text-anchor=\"middle\" dominant-baseline=\"middle\" font-family=\"sans-serif\" font-size=\"20\" fill=\"#333\">",
        "$1",
        "</text></svg>",
    ]
    .concat();
    assert_eq!(out, expected);
    let plain = property_card_markup("<g/>", "a", "b", "#000", None);
    assert_eq!(plain, "<g/>");
}

#[test]
fn game_titles_show_the_creation_minute() {
    assert_eq!(game_title(0), "Игра-01.01.70 00:00");
    assert_eq!(game_title(1_700_000_000), "Игра-14.11.23 22:13");
}
