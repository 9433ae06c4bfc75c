use dreambreaker::client::{
    latest_game_message, participant_found, registered_user_message, rules_found, Command, DreamBreaker, Message, Screen, TurnPhase, WindowMode,
};
use dreambreaker::model::{
    BalanceRow, BoardCell, BotParticipant, BotTurnResult, DbError, GameRules, Id, ParticipantState, User,
};
use dreambreaker::rules::CellAction;

const GAME: Id = Id(500);
const ME: Id = Id(1);

fn err(text: &str) -> DbError {
    DbError(text.to_string())
}

fn user(id: Id, name: &str) -> User {
    User {
        id,
        username: name.to_string(),
        user_type: "human".to_string(),
        password_hash: String::new(),
        created_at: 0,
        is_active: true,
    }
}

fn cell(index: i32, kind: &str) -> BoardCell {
    BoardCell {
        cell_index: index,
        cell_type: kind.to_string(),
        tax_amount: None,
        prop_name: None,
        purchase_cost: None,
        rent_cost: None,
        owner_user_id: None,
        shop_id: None,
        refresh_cost: None,
    }
}

fn property(index: i32, name: &str, owner: Option<Id>) -> BoardCell {
    BoardCell {
        prop_name: Some(name.to_string()),
        purchase_cost: Some(200),
        rent_cost: Some(25),
        owner_user_id: owner,
        ..cell(index, "property")
    }
}

fn state(position: i32, balance: i64, moves: i32) -> ParticipantState {
    ParticipantState { position, balance, moves_made: moves, total_spent: 0, total_earned: 0 }
}

fn bot(id: u128, name: &str) -> BotParticipant {
    BotParticipant { user_id: Id(id), username: name.to_string(), position: 0, balance: 1000, turn_order: 1 }
}

fn bot_result(action: &str, detail: &str) -> BotTurnResult {
    BotTurnResult { new_position: 3, new_balance: 900, action: action.to_string(), action_detail: detail.to_string() }
}

/// A connected client with a logged-in user inside a loaded game.
fn in_game() -> DreamBreaker {
    let mut s = DreamBreaker::initial();
    s.db_connected = true;
    s.current_user = Some((ME, "bob".to_string()));
    s.active_game_id = Some(GAME);
    s.screen = Screen::Game;
    s.game_rules = Some(GameRules { game_id: GAME, starting_balance: 1000, max_turns: 50, target_balance: 2500 });
    s.player_state = Some(state(0, 1000, 0));
    s
}

#[test]
fn start_up_with_and_without_database() {
    let (s, cmd) = DreamBreaker::new(Some("postgres://db".to_string()));
    assert_eq!(s.status, "Подключение к БД...");
    assert_eq!(cmd, Command::Connect { url: "postgres://db".to_string() });
    assert_eq!(s.screen, Screen::Menu);
    let (s, cmd) = DreamBreaker::new(None);
    assert_eq!(s.status, "Ошибка: DATABASE_URL не задана.");
    assert_eq!(cmd, Command::Nothing);
}

#[test]
fn connection_then_migrations_then_users() {
    let mut s = DreamBreaker::initial();
    assert_eq!(s.update(Message::DbConnected(Ok(()))), Command::RunMigrations);
    assert!(s.db_connected);
    assert_eq!(s.status, "Применяю миграции...");
    assert_eq!(s.update(Message::MigrationsApplied(Ok(()))), Command::ListUsers);
    assert_eq!(s.status, "Готово");
    let mut t = DreamBreaker::initial();
    assert_eq!(t.update(Message::DbConnected(Err(err("refused")))), Command::Nothing);
    assert_eq!(t.status, "Ошибка подключения: refused");
}

#[test]
fn login_form_checks_and_sends() {
    let mut s = DreamBreaker::initial();
    s.db_connected = true;
    s.update(Message::OpenLogin);
    assert_eq!(s.screen, Screen::Login);
    s.update(Message::UsernameChanged("  bob ".to_string()));
    assert_eq!(s.update(Message::SubmitLogin), Command::Nothing);
    assert_eq!(s.form_error, "Заполни все поля");
    s.update(Message::PasswordChanged("pw".to_string()));
    let cmd = s.update(Message::SubmitLogin);
    assert_eq!(cmd, Command::Authenticate { username: "bob".to_string(), password: "pw".to_string() });
    assert_eq!(s.status, "Проверка пароля...");
    assert_eq!(s.form_error, "");
    s.db_connected = false;
    assert_eq!(s.update(Message::SubmitLogin), Command::Nothing);
    assert_eq!(s.form_error, "БД не подключена");
}

#[test]
fn successful_login_loads_the_menu_data() {
    let mut s = DreamBreaker::initial();
    s.db_connected = true;
    s.screen = Screen::Login;
    s.input_password = "pw".to_string();
    let cmd = s.update(Message::LoginDone(Ok(user(ME, "bob"))));
    assert_eq!(
        cmd,
        Command::Batch(vec![
            Command::ListUsers,
            Command::CheckActiveGame { user: ME },
            Command::ResetStaleGames { user: ME },
        ])
    );
    assert_eq!(s.status, "Добро пожаловать, bob!");
    assert_eq!(s.screen, Screen::Menu);
    assert_eq!(s.current_user, Some((ME, "bob".to_string())));
    assert_eq!(s.input_password, "");
    assert_eq!(s.user_id(), Some(ME));
}

#[test]
fn failed_login_shows_the_reason() {
    let mut s = DreamBreaker::initial();
    assert_eq!(s.update(Message::LoginDone(Err(err("Неверный пароль")))), Command::Nothing);
    assert_eq!(s.form_error, "Неверный пароль");
    assert_eq!(s.status, "Ошибка входа");
}

#[test]
fn registration_flow() {
    let mut s = DreamBreaker::initial();
    s.db_connected = true;
    s.update(Message::OpenRegister);
    s.update(Message::UsernameChanged("al".to_string()));
    s.update(Message::PasswordChanged("abcd".to_string()));
    s.update(Message::Password2Changed("abcd".to_string()));
    assert_eq!(s.update(Message::SubmitRegister), Command::Nothing);
    assert_eq!(s.form_error, "Имя: минимум 3 символа");
    s.update(Message::UsernameChanged("alice".to_string()));
    let cmd = s.update(Message::SubmitRegister);
    assert_eq!(cmd, Command::Register { username: "alice".to_string(), password: "abcd".to_string() });
    assert_eq!(s.status, "Создание аккаунта...");
    assert_eq!(s.update(Message::RegisterDone(Ok(Id(9)))), Command::LoginAfterRegister { user: Id(9) });
    assert_eq!(s.status, "Аккаунт создан!");
    assert_eq!(s.update(Message::RegisterDone(Err(err("duplicate key value")))), Command::Nothing);
    assert_eq!(s.form_error, "Имя уже занято");
    assert_eq!(s.status, "Ошибка регистрации");
    s.update(Message::RegisterDone(Err(err("disk full"))));
    assert_eq!(s.form_error, "disk full");
}

#[test]
fn replies_become_messages() {
    match registered_user_message(Ok(Some(user(Id(4), "z")))) {
        Message::LoginDone(Ok(u)) => assert_eq!((u.id, u.username.as_str()), (Id(4), "z")),
        other => panic!("unexpected {:?}", other),
    }
    match registered_user_message(Ok(None)) {
        Message::LoginDone(Err(e)) => assert_eq!(e.0, "Пользователь не найден"),
        other => panic!("unexpected {:?}", other),
    }
    match registered_user_message(Err(err("x"))) {
        Message::LoginDone(Err(e)) => assert_eq!(e.0, "x"),
        other => panic!("unexpected {:?}", other),
    }
    assert!(matches!(latest_game_message(Ok(Some(Id(3)))), Message::LoadGame(Id(3))));
    assert!(matches!(latest_game_message(Ok(None)), Message::BackToMenu));
    assert!(matches!(latest_game_message(Err(err("y"))), Message::UserGamesLoaded(Err(_))));
}

#[test]
fn new_game_parameters_keep_target_above_balance() {
    let mut s = DreamBreaker::initial();
    s.update(Message::OpenCreateGame);
    assert_eq!((s.create_game_balance, s.create_game_max_turns, s.create_game_target_balance), (1000, 50, 2500));
    for _ in 0..15 {
        s.update(Message::GameBalanceIncrease);
    }
    assert_eq!((s.create_game_balance, s.create_game_target_balance), (2500, 2600));
    s.update(Message::GameTargetBalanceDecrease);
    assert_eq!(s.create_game_target_balance, 2600);
    s.update(Message::GameTargetBalanceIncrease);
    s.update(Message::GameTargetBalanceDecrease);
    assert_eq!(s.create_game_target_balance, 2600);
    s.create_game_balance = 100;
    s.update(Message::GameBalanceDecrease);
    assert_eq!(s.create_game_balance, 100);
    s.create_game_max_turns = 2;
    s.update(Message::GameMaxTurnsDecrease);
    assert_eq!(s.create_game_max_turns, 2);
    s.update(Message::GameMaxTurnsIncrease);
    assert_eq!(s.create_game_max_turns, 4);
}

#[test]
fn creating_a_game_uses_the_clock() {
    let mut s = DreamBreaker::initial();
    s.db_connected = true;
    s.current_user = Some((ME, "bob".to_string()));
    match s.update(Message::CreateGameSubmit) {
        Command::CreateGame { seed, starting_balance, max_turns, target_balance, user } => {
            assert!(seed > 1_600_000_000, "seed {}", seed);
            assert_eq!((starting_balance, max_turns, target_balance, user), (1000, 50, 2500, ME));
        }
        other => panic!("unexpected {:?}", other),
    }
    assert_eq!(s.status, "Создаю игру...");
    let cmd = s.create_game_with_seed(77);
    assert_eq!(cmd, Command::CreateGame { seed: 77, starting_balance: 1000, max_turns: 50, target_balance: 2500, user: ME });
    let mut anon = DreamBreaker::initial();
    anon.db_connected = true;
    assert_eq!(anon.create_game_with_seed(77), Command::Nothing);
    assert_eq!(anon.status, "Ты не залогинен");
    assert_eq!(s.update(Message::GameCreated(Ok(GAME))), Command::LoadGameScreen { game: GAME, user: ME });
    assert_eq!(s.active_game_id, Some(GAME));
    assert_eq!(s.has_active_game, Some(true));
}

#[test]
fn rolling_moves_the_piece_and_opens_a_shop() {
    let mut s = in_game();
    s.board_cells = vec![cell(0, "start"), BoardCell { shop_id: Some(Id(70)), ..cell(4, "shop") }];
    s.income_log = vec!["старое".to_string()];
    let cmd = s.roll_dice_with_seed(13);
    assert_eq!(s.dice_roll, Some((2, 2)));
    assert_eq!(s.local_player_pos, 4);
    assert_eq!(s.rolled_from, 0);
    assert_eq!(s.turn_phase, TurnPhase::Rolled);
    assert!(s.income_log.is_empty());
    assert!(matches!(s.cell_action, Some(CellAction::Shop { shop_id: Id(70) })));
    assert_eq!(cmd, Command::GetShopSlots { shop: Id(70), game: GAME, user: ME });
    // a second roll in the same turn does nothing
    assert_eq!(s.roll_dice_with_seed(0), Command::Nothing);
    assert_eq!(s.local_player_pos, 4);
}

#[test]
fn no_roll_when_out_of_turns() {
    let mut s = in_game();
    s.player_state = Some(state(0, 1000, 50));
    assert_eq!(s.roll_dice_with_seed(13), Command::Nothing);
    assert_eq!(s.dice_roll, None);
    assert_eq!(s.turn_phase, TurnPhase::WaitingRoll);
}

#[test]
fn rolling_from_the_clock_stays_in_range() {
    let mut s = in_game();
    s.local_player_pos = 30;
    s.update(Message::RollDice);
    let (a, b) = s.dice_roll.expect("rolled");
    assert!((1..=6).contains(&a) && (1..=6).contains(&b));
    assert_eq!(s.local_player_pos, (30 + a as i32 + b as i32) % 40);
}

#[test]
fn ending_a_turn_pays_or_commits() {
    let mut s = in_game();
    s.board_cells = vec![property(4, "Арбат", Some(Id(10)))];
    s.roll_dice_with_seed(13);
    assert!(matches!(s.cell_action, Some(CellAction::MustPayRent { cell_index: 4, rent: 25, .. })));
    assert_eq!(s.update(Message::EndTurn), Command::PayRent { game: GAME, user: ME, cell: 4 });
    assert!(s.cell_action.is_none());

    let mut t = in_game();
    t.board_cells = vec![cell(4, "tax")];
    t.roll_dice_with_seed(13);
    assert_eq!(t.update(Message::EndTurn), Command::PayTax { game: GAME, user: ME });

    let mut u = in_game();
    u.roll_dice_with_seed(13);
    assert_eq!(u.update(Message::EndTurn), Command::CommitMove { game: GAME, user: ME, position: 4 });

    let mut w = in_game();
    assert_eq!(w.update(Message::EndTurn), Command::Nothing);
}

#[test]
fn payments_are_logged_then_the_move_committed() {
    let mut s = in_game();
    s.local_player_pos = 4;
    let cmd = s.update(Message::RentPaid(Ok(state(4, 975, 0))));
    assert_eq!(cmd, Command::CommitMove { game: GAME, user: ME, position: 4 });
    assert_eq!(s.player_state, Some(state(4, 975, 0)));
    assert_eq!(s.income_log.len(), 1);
    assert!(s.income_log[0].ends_with("25"), "{}", s.income_log[0]);
}

#[test]
fn saved_turn_counts_the_start_bonus() {
    let mut s = in_game();
    s.rolled_from = 35;
    s.local_player_pos = 2;
    let cmd = s.update(Message::TurnSaved(Ok(state(2, 1200, 1))));
    assert_eq!(cmd, Command::LoadBots { game: GAME });
    assert_eq!(s.status, "Ход завершён. Вы прошли СТАРТ! +200");
    assert_eq!(s.start_log, vec!["Прошли СТАРТ: +200".to_string()]);
    assert_eq!(s.turn_phase, TurnPhase::WaitingRoll);

    let mut t = in_game();
    t.local_player_pos = 0;
    t.update(Message::TurnSaved(Ok(state(0, 1400, 1))));
    assert_eq!(t.status, "Ход завершён. Вы встали на СТАРТ! +400");
    assert_eq!(t.start_log, vec!["Встали на СТАРТ: +400".to_string()]);

    let mut u = in_game();
    u.rolled_from = 3;
    u.local_player_pos = 7;
    u.update(Message::TurnSaved(Ok(state(7, 1000, 1))));
    assert_eq!(u.status, "Ход завершён. Боты ходят...");
    assert!(u.start_log.is_empty());
}

#[test]
fn finished_game_error_leaves_to_menu() {
    let mut s = in_game();
    s.board_cells = vec![cell(0, "start")];
    s.bot_turn_log = vec!["x".to_string()];
    let cmd = s.update(Message::TurnSaved(Err(err("ERROR: GAME_OVER: game finished"))));
    assert_eq!(cmd, Command::Nothing);
    assert_eq!(s.screen, Screen::Menu);
    assert_eq!(s.status, "Игра уже завершена");
    assert_eq!(s.active_game_id, None);
    assert!(s.board_cells.is_empty() && s.bot_turn_log.is_empty());

    let mut t = in_game();
    t.update(Message::TurnSaved(Err(err("timeout"))));
    assert_eq!(t.status, "Ошибка сохранения хода: timeout");
    assert_eq!(t.screen, Screen::Game);
}

#[test]
fn bots_take_turns_in_order() {
    let mut s = in_game();
    s.board_cells = vec![property(4, "Арбат", Some(ME))];
    let cmd = s.bots_loaded_with_seed(vec![bot(10, "Алиса"), bot(11, "Борис")], 13);
    assert_eq!(cmd, Command::DoBotTurn { game: GAME, bot: Id(10), dice: 4 });
    assert_eq!(s.status, "Ходит Алиса... (кубик: 2+2=4)");
    assert_eq!(s.bot_turn_queue, vec![Id(11)]);
    assert_eq!(s.bot_turn_names, vec!["Алиса".to_string(), "Борис".to_string()]);

    let cmd = s.bot_turn_done_with_seed(bot_result("rent_paid", "Арбат:50"), 0);
    assert_eq!(cmd, Command::DoBotTurn { game: GAME, bot: Id(11), dice: 2 });
    assert_eq!(s.status, "Ходит Борис... (1+1=2)");
    assert_eq!(s.bot_turn_log, vec!["Алиса: заплатил аренду 50 за «Арбат»".to_string()]);
    assert_eq!(s.rent_received_log, vec!["Аренда от Алиса: +50".to_string()]);

    let cmd = s.bot_turn_done_with_seed(bot_result("bought", "Тверская"), 0);
    assert_eq!(
        cmd,
        Command::Batch(vec![
            Command::GetAllBalances { game: GAME },
            Command::GetBoardCells { game: GAME },
            Command::RefreshBots { game: GAME },
            Command::RefreshPlayerState { game: GAME, player: Some(ME) },
        ])
    );
    assert_eq!(s.status, "Ходы ботов завершены");
    assert_eq!(s.bot_turn_log[1], "Борис: купил «Тверская»");
    assert!(s.bot_turn_names.is_empty());
}

#[test]
fn no_bots_means_checking_balances() {
    let mut s = in_game();
    let cmd = s.bots_loaded_with_seed(Vec::new(), 5);
    assert_eq!(cmd, Command::Batch(vec![Command::GetAllBalances { game: GAME }, Command::RefreshBots { game: GAME }]));
}

#[test]
fn bot_actions_read_as_sentences() {
    let cases = [
        ("tax_paid", "100", "A: заплатил налог 100"),
        ("bankrupt", "долги", "A: 💀 БАНКРОТ (долги)"),
        ("start_bonus", "200", "A: прошёл СТАРТ +200"),
        ("skip", "", "A: пропустил ход"),
        ("rent_paid", "Арбат", "A: заплатил аренду ? за «Арбат»"),
    ];
    for (action, detail, line) in cases {
        let mut s = in_game();
        s.bot_turn_names = vec!["A".to_string()];
        s.bot_turn_done_with_seed(bot_result(action, detail), 0);
        assert_eq!(s.bot_turn_log, vec![line.to_string()]);
        assert!(s.rent_received_log.is_empty());
    }
    let mut s = in_game();
    s.bot_turn_done_with_seed(bot_result("skip", ""), 0);
    assert_eq!(s.bot_turn_log, vec!["Бот: пропустил ход".to_string()]);
}

#[test]
fn bot_log_keeps_the_last_ten() {
    let mut s = in_game();
    s.bot_turn_log = (0..10).map(|i| format!("строка {}", i)).collect();
    s.bot_turn_names = vec!["A".to_string()];
    s.bot_turn_done_with_seed(bot_result("skip", ""), 0);
    assert_eq!(s.bot_turn_log.len(), 10);
    assert_eq!(s.bot_turn_log[0], "строка 1");
    assert_eq!(s.bot_turn_log[9], "A: пропустил ход");
}

#[test]
fn failed_bot_turn_moves_on() {
    let mut s = in_game();
    s.bot_turn_queue = vec![Id(11)];
    s.bot_turn_names = vec!["Алиса".to_string(), "Борис".to_string()];
    let cmd = s.bot_turn_failed_with_seed(err("boom"), 13);
    assert_eq!(cmd, Command::DoBotTurn { game: GAME, bot: Id(11), dice: 4 });
    assert_eq!(s.status, "Ошибка хода бота: boom");
    assert_eq!(s.bot_turn_names, vec!["Борис".to_string()]);
    let cmd = s.bot_turn_failed_with_seed(err("again"), 13);
    assert_eq!(cmd, Command::GetAllBalances { game: GAME });
}

#[test]
fn balances_decide_the_game() {
    let rows = |alive: i64| vec![
        BalanceRow { user_id: ME, balance: 1000, user_type: "human".to_string() },
        BalanceRow { user_id: Id(10), balance: alive, user_type: "bot".to_string() },
    ];
    let mut s = in_game();
    s.player_state = Some(state(0, 2600, 3));
    assert_eq!(s.update(Message::BalancesLoaded(Ok(rows(500)))), Command::FinishGame { game: GAME, user: ME });
    assert_eq!(s.status, "Выиграна");

    let mut t = in_game();
    t.player_state = Some(state(0, 1000, 3));
    assert_eq!(t.update(Message::BalancesLoaded(Ok(rows(0)))), Command::FinishGame { game: GAME, user: ME });
    assert_eq!(t.status, "Выиграна");

    let mut u = in_game();
    u.player_state = Some(state(0, 0, 3));
    assert_eq!(u.update(Message::BalancesLoaded(Ok(rows(500)))), Command::FinishGame { game: GAME, user: ME });
    assert_eq!(u.status, "Проиграна");

    let mut v = in_game();
    v.player_state = Some(state(0, 1000, 50));
    assert_eq!(v.update(Message::BalancesLoaded(Ok(rows(500)))), Command::FinishGame { game: GAME, user: ME });
    assert_eq!(v.status, "Проиграна");

    let mut w = in_game();
    w.status = "до".to_string();
    assert_eq!(w.update(Message::BalancesLoaded(Ok(rows(500)))), Command::Nothing);
    assert_eq!(w.status, "до");
}

#[test]
fn leaving_a_game() {
    let mut s = in_game();
    assert_eq!(s.update(Message::SaveAndExit), Command::PauseGame { game: GAME, user: ME });
    s.update(Message::GamePaused(Ok(())));
    assert_eq!(s.screen, Screen::Menu);
    assert_eq!(s.status, "Игра сохранена");
    assert_eq!(s.has_active_game, Some(true));
    assert!(s.player_state.is_none());

    let mut t = in_game();
    assert_eq!(t.update(Message::Surrender), Command::SurrenderGame { game: GAME, user: ME });
}

#[test]
fn window_mode_changes() {
    let mut s = DreamBreaker::initial();
    assert_eq!(s.update(Message::SetWindowMode(WindowMode::Borderless)), Command::ApplyWindowMode { fullscreen: true });
    assert_eq!(s.window_mode, WindowMode::Borderless);
    assert_eq!(s.update(Message::SetWindowMode(WindowMode::Window)), Command::ApplyWindowMode { fullscreen: false });
}

#[test]
fn logout_forgets_the_user() {
    let mut s = in_game();
    assert_eq!(s.update(Message::Logout), Command::Nothing);
    assert_eq!(s.current_user, None);
    assert_eq!(s.status, "Вы вышли из аккаунта");
    assert_eq!(s.screen, Screen::Menu);
    assert_eq!(s.game_session(), None);
}

#[test]
fn buying_the_property_landed_on() {
    let mut s = in_game();
    s.board_cells = vec![property(4, "Арбат", None)];
    s.roll_dice_with_seed(13);
    assert!(matches!(&s.cell_action, Some(CellAction::CanBuy { cell_index: 4, cost: 200, name }) if name == "Арбат"));
    assert_eq!(s.update(Message::BuyProperty), Command::BuyProperty { game: GAME, user: ME, cell: 4 });
    assert!(s.cell_action.is_none());
    assert_eq!(s.update(Message::BuyProperty), Command::Nothing);
    assert_eq!(s.update(Message::PropertyBought(Ok(state(4, 800, 0)))), Command::GetBoardCells { game: GAME });
    assert_eq!(s.status, "Собственность куплена");
    assert_eq!(s.player_state, Some(state(4, 800, 0)));
    let cells = vec![property(4, "Арбат", Some(ME))];
    assert_eq!(s.update(Message::BoardReloaded(Ok(cells))), Command::GetPlayerProperties { game: GAME, user: ME });
    assert_eq!(s.board_cells[0].owner_user_id, Some(ME));
}

#[test]
fn shopping_reloads_slots_and_inventory() {
    let mut s = in_game();
    s.board_cells = vec![BoardCell { shop_id: Some(Id(70)), ..cell(4, "shop") }];
    s.roll_dice_with_seed(13);
    assert_eq!(s.update(Message::BuyShopSlot(Id(71))), Command::BuyShopSlot { slot: Id(71), game: GAME, user: ME });
    let cmd = s.update(Message::ShopSlotBought(Ok(state(4, 900, 0))));
    assert_eq!(
        cmd,
        Command::Batch(vec![
            Command::GetShopSlots { shop: Id(70), game: GAME, user: ME },
            Command::GetPlayerInventory { game: GAME, user: ME },
        ])
    );
    assert_eq!(s.status, "Усиление куплено");
    assert_eq!(s.update(Message::RerollShop(Id(70))), Command::RerollShop { shop: Id(70), game: GAME, user: ME });
    assert_eq!(s.update(Message::ShopRerolled(Ok(state(4, 850, 0)))), Command::GetShopSlots { shop: Id(70), game: GAME, user: ME });
    assert_eq!(s.status, "Магазин обновлён");
    s.update(Message::SkipAction);
    assert!(s.cell_action.is_none() && s.shop_slots.is_empty() && s.tooltip_item.is_none());
}

#[test]
fn selling_and_upgrading() {
    let mut s = in_game();
    s.tooltip_visible = true;
    assert_eq!(s.update(Message::SellPowerUp(Id(5))), Command::SellPowerUp { game: GAME, user: ME, power_up: Id(5) });
    assert!(!s.tooltip_visible);
    assert_eq!(s.update(Message::PowerUpSold(Ok(state(0, 1050, 0)))), Command::GetPlayerInventory { game: GAME, user: ME });
    assert_eq!(s.status, "Усиление продано");
    let both = Command::Batch(vec![
        Command::GetPlayerProperties { game: GAME, user: ME },
        Command::GetPlayerInventory { game: GAME, user: ME },
    ]);
    assert_eq!(s.update(Message::UpgradeInstalled(Ok("ok".to_string()))), both);
    assert_eq!(s.status, "Усиление установлено");
    s.update(Message::UpgradeInstalled(Ok("нет слотов".to_string())));
    assert_eq!(s.status, "Нельзя установить: нет слотов");
    s.update(Message::UpgradeUninstalled(Ok("ok".to_string())));
    assert_eq!(s.status, "Усиление возвращено в инвентарь");
    s.update(Message::UpgradeUninstalled(Err(err("x"))));
    assert_eq!(s.status, "Ошибка извлечения: x");
}

#[test]
fn property_panel_and_selection() {
    let mut s = in_game();
    assert_eq!(s.update(Message::TogglePropertyMgmt), Command::GetPlayerProperties { game: GAME, user: ME });
    assert!(s.show_property_mgmt);
    assert_eq!(s.update(Message::TogglePropertyMgmt), Command::Nothing);
    assert!(!s.show_property_mgmt);
    s.update(Message::SelectProperty(3));
    assert_eq!(s.selected_property, Some(3));
    s.update(Message::PropertiesLoaded(Ok(Vec::new())));
    assert_eq!(s.selected_property, None);
}

#[test]
fn settings_from_game_return_to_it() {
    let mut s = in_game();
    s.update(Message::OpenSettingsFromGame);
    assert_eq!(s.screen, Screen::Settings);
    s.update(Message::BackToMenu);
    assert_eq!(s.screen, Screen::Game);
    assert_eq!(s.active_game_id, Some(GAME));
    s.update(Message::BackToMenu);
    assert_eq!(s.screen, Screen::Menu);
    assert_eq!(s.active_game_id, None);
}

#[test]
fn game_result_shows_the_end_screen() {
    let mut s = in_game();
    let result = dreambreaker::model::GameResult {
        game_status: "finished".to_string(),
        balance: 2600,
        target_balance: 2500,
        moves_made: 20,
        max_turns: 50,
        total_earned: 1800,
        total_spent: 200,
        is_victory: true,
    };
    assert_eq!(s.update(Message::GameResultLoaded(Ok(Some(result)))), Command::Nothing);
    assert_eq!(s.screen, Screen::GameOver);
    assert!(s.game_result.as_ref().map(|r| r.is_victory).unwrap_or(false));
    let mut t = in_game();
    t.update(Message::GameResultLoaded(Err(err("gone"))));
    assert_eq!(t.screen, Screen::Menu);
    assert_eq!(t.status, "Ошибка загрузки результата: gone");
}

#[test]
fn passing_start_after_a_roll_logs_the_bonus() {
    let mut s = in_game();
    s.local_player_pos = 36;
    s.roll_dice_with_seed(13);
    assert_eq!((s.rolled_from, s.local_player_pos), (36, 0));
    let mut t = in_game();
    t.local_player_pos = 37;
    t.roll_dice_with_seed(13);
    assert_eq!((t.rolled_from, t.local_player_pos), (37, 1));
    assert_eq!(t.update(Message::EndTurn), Command::CommitMove { game: GAME, user: ME, position: 1 });
    t.update(Message::TurnSaved(Ok(state(1, 1200, 1))));
    assert_eq!(t.start_log, vec!["Прошли СТАРТ: +200".to_string()]);
}

#[test]
fn balance_step_near_the_limit() {
    let mut s = DreamBreaker::initial();
    s.create_game_balance = i64::MAX - 150;
    s.create_game_target_balance = i64::MAX - 10;
    s.update(Message::GameBalanceIncrease);
    assert_eq!((s.create_game_balance, s.create_game_target_balance), (i64::MAX - 50, i64::MAX - 10));
}

#[test]
fn loading_needs_rules_and_a_participant() {
    let r = GameRules { game_id: GAME, starting_balance: 1000, max_turns: 50, target_balance: 2500 };
    assert_eq!(rules_found(Some(r)).unwrap(), r);
    assert_eq!(rules_found(None).unwrap_err().0, "Правила игры не найдены");
    assert_eq!(participant_found(Some(state(3, 10, 1))).unwrap(), state(3, 10, 1));
    assert_eq!(participant_found(None).unwrap_err().0, "Участник не найден");
}
