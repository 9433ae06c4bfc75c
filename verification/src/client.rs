//! The game client as a state machine: every user action and every database reply is a
//! [`Message`]; [`DreamBreaker::update`] turns the current state and a message into the next
//! state and the [`Command`] that the shell around the library is to perform next.
use vstd::prelude::*;
use crate::auth::{registration_problem, registration_problem_text};
use crate::clock::{clock_subsec_nanos, unix_now_seconds};
use crate::model::{
    BalanceRow, BoardCell, BotParticipant, BotTurnResult, DbError, Game, GameResult, GameRules, Id,
    InventoryItem, ParticipantState, PlayerProperty, ShopSlot, User, UserGameRow, UserStats,
};
use crate::rules::{
    advance_position, advance_spec, dice_from_seed, dice_spec, game_outcome, landing_action,
    landing_action_spec, outcome_spec, start_bonus, start_bonus_spec, CellAction, GameOutcome,
    BOT_LOG_CAPACITY,
};
use crate::text::{
    after_first, before_first, contains_seq, contains_text, decimal, decimal_string, join2, join3, push_decimal,
    push_decimal_wide,
    push_str, split_once_text, str_equals, string_of, trim_seq, trim_text,
};

verus! {

/// The screen the client shows.
#[derive(Debug, Clone, Copy, PartialEq, Eq, Structural)]
pub enum Screen {
    Menu,
    Login,
    Register,
    LoadGame,
    CreateGame,
    Game,
    GameOver,
    Settings,
}

/// Where the player is within a turn.
#[derive(Debug, Clone, Copy, PartialEq, Eq, Structural)]
pub enum TurnPhase {
    /// Waiting for the dice to be rolled.
    WaitingRoll,
    /// The dice were rolled and the piece moved; the turn may be ended.
    Rolled,
    /// Waiting for an action on the cell.
    WaitingAction,
}

/// How the window is shown.
#[derive(Debug, Clone, Copy, PartialEq, Eq, Structural)]
pub enum WindowMode {
    Window,
    Fullscreen,
    Borderless,
}

/// The description of a power-up shown while the pointer rests on it.
#[derive(Debug, Clone)]
pub struct TooltipItem {
    pub name: String,
    pub description: String,
    pub effect_type: String,
    pub effect_value: i64,
    /// Price in the shop; `None` for an item of the inventory.
    pub buy_cost: Option<i64>,
    /// Resale price; `None` for a power-up not bought yet.
    pub sell_cost: Option<i64>,
}

/// Everything the game screen is loaded with.
#[derive(Debug, Clone)]
pub struct GameScreen {
    pub rules: GameRules,
    pub state: ParticipantState,
    pub cells: Vec<BoardCell>,
    pub inventory: Vec<InventoryItem>,
    pub properties: Vec<PlayerProperty>,
}

/// The rules read for the game to load, or the error when the game has none.
pub fn rules_found(r: Option<GameRules>) -> (res: Result<GameRules, DbError>)
    ensures
        match r {
            Some(x) => res == Ok::<GameRules, DbError>(x),
            None => res matches Err(e) && e.0@ == "Правила игры не найдены"@,
        },
{
    match r {
        Some(x) => Ok(x),
        None => Err(DbError(string_of("Правила игры не найдены"))),
    }
}

/// The player's standing read for the game to load, or the error when they do not take part.
pub fn participant_found(s: Option<ParticipantState>) -> (res: Result<ParticipantState, DbError>)
    ensures
        match s {
            Some(x) => res == Ok::<ParticipantState, DbError>(x),
            None => res matches Err(e) && e.0@ == "Участник не найден"@,
        },
{
    match s {
        Some(x) => Ok(x),
        None => Err(DbError(string_of("Участник не найден"))),
    }
}

/// A user action or the reply to a [`Command`].
#[derive(Debug, Clone)]
pub enum Message {
    // navigation
    OpenLogin,
    StaleGamesReset,
    OpenRegister,
    OpenLoadGame,
    OpenCreateGame,
    OpenSettings,
    BackToMenu,
    Logout,
    Exit,
    // profile
    ToggleProfileMenu,
    SelectUser(Id, String),
    OpenStats,
    ToggleStats,
    // input
    UsernameChanged(String),
    PasswordChanged(String),
    Password2Changed(String),
    // forms
    SubmitLogin,
    SubmitRegister,
    // game creation
    GameBalanceIncrease,
    GameBalanceDecrease,
    GameMaxTurnsIncrease,
    GameMaxTurnsDecrease,
    GameTargetBalanceIncrease,
    GameTargetBalanceDecrease,
    CreateGameSubmit,
    // in game
    ToggleGameMenu,
    SaveAndExit,
    Surrender,
    OpenSettingsFromGame,
    RollDice,
    EndTurn,
    TurnSaved(Result<ParticipantState, DbError>),
    ContinueGame,
    BalancesLoaded(Result<Vec<BalanceRow>, DbError>),
    BuyProperty,
    SkipAction,
    PropertyBought(Result<ParticipantState, DbError>),
    RentPaid(Result<ParticipantState, DbError>),
    BoardReloaded(Result<Vec<BoardCell>, DbError>),
    OpenShop(Id),
    TooltipClose,
    ShopSlotsLoaded(Result<Vec<ShopSlot>, DbError>),
    BuyShopSlot(Id),
    ShopSlotBought(Result<ParticipantState, DbError>),
    RerollShop(Id),
    ShopRerolled(Result<ParticipantState, DbError>),
    TaxPaid(Result<ParticipantState, DbError>),
    InventoryReloaded(Result<Vec<InventoryItem>, DbError>),
    SellPowerUp(Id),
    PowerUpSold(Result<ParticipantState, DbError>),
    // properties
    TogglePropertyMgmt,
    SelectProperty(usize),
    PropertiesLoaded(Result<Vec<PlayerProperty>, DbError>),
    InstallUpgrade { property_id: Id, power_up_id: Id },
    UninstallUpgrade { property_id: Id, power_up_id: Id },
    UpgradeInstalled(Result<String, DbError>),
    UpgradeUninstalled(Result<String, DbError>),
    // bots
    BotsLoaded(Result<Vec<BotParticipant>, DbError>),
    BotsRefreshed(Result<Vec<BotParticipant>, DbError>),
    PlayerStateRefreshed(Result<Option<ParticipantState>, DbError>),
    BotTurnDone(Result<BotTurnResult, DbError>),
    TooltipHoverStart(TooltipItem),
    TooltipHoverEnd,
    TooltipTick,
    CellHovered(Option<i32>),
    // settings
    SetWindowMode(WindowMode),
    // database
    DbConnected(Result<(), DbError>),
    MigrationsApplied(Result<(), DbError>),
    UsersLoaded(Result<Vec<(Id, String)>, DbError>),
    LoginDone(Result<User, DbError>),
    RegisterDone(Result<Id, DbError>),
    GamesLoaded(Result<Vec<Game>, DbError>),
    ActiveGameChecked(Result<Option<Id>, DbError>),
    UserGamesLoaded(Result<Vec<UserGameRow>, DbError>),
    GameCreated(Result<Id, DbError>),
    LoadGame(Id),
    GameScreenLoaded(Result<GameScreen, DbError>),
    GamePaused(Result<(), DbError>),
    GameSurrendered(Result<(), DbError>),
    StatsLoaded(Result<UserStats, DbError>),
    GameResultLoaded(Result<Option<GameResult>, DbError>),
}

/// Work for the shell: a database request (whose reply comes back as the message named
/// with each variant), a window change, or leaving the program.
#[derive(Debug, PartialEq, Eq)]
pub enum Command {
    /// Nothing to do.
    Nothing,
    /// Several requests at once.
    Batch(Vec<Command>),
    /// Quit the program.
    Exit,
    /// Change the window mode.
    ApplyWindowMode { fullscreen: bool },
    /// Connect to the database at `url` (`DbConnected`).
    Connect { url: String },
    /// Apply the schema migrations (`MigrationsApplied`).
    RunMigrations,
    /// List the human accounts (`UsersLoaded`).
    ListUsers,
    /// Whether the user has an active game (`ActiveGameChecked`).
    CheckActiveGame { user: Id },
    /// Pause all but the newest active game of the user (`StaleGamesReset`).
    ResetStaleGames { user: Id },
    /// The user's games (`UserGamesLoaded`).
    GetUserGames { user: Id },
    /// The user's statistics (`StatsLoaded`).
    GetUserStats { user: Id },
    /// Check the credentials (`LoginDone`).
    Authenticate { username: String, password: String },
    /// Create an account (`RegisterDone`).
    Register { username: String, password: String },
    /// Log in the account just created (`LoginDone`, see [`registered_user_message`]).
    LoginAfterRegister { user: Id },
    /// Create a game (`GameCreated`).
    CreateGame { seed: i64, starting_balance: i64, max_turns: i32, target_balance: i64, user: Id },
    /// Load everything the game screen shows (`GameScreenLoaded`).
    LoadGameScreen { game: Id, user: Id },
    /// The user's most recent game (see [`latest_game_message`]).
    GetLatestUserGame { user: Id },
    /// Pause the game (`GamePaused`).
    PauseGame { game: Id, user: Id },
    /// Surrender, then fetch the result (`GameResultLoaded`).
    SurrenderGame { game: Id, user: Id },
    /// Mark the game finished, then fetch the result (`GameResultLoaded`).
    FinishGame { game: Id, user: Id },
    /// The slots of a shop (`ShopSlotsLoaded`).
    GetShopSlots { shop: Id, game: Id, user: Id },
    /// Buy a shop slot (`ShopSlotBought`).
    BuyShopSlot { slot: Id, game: Id, user: Id },
    /// Reroll a shop (`ShopRerolled`).
    RerollShop { shop: Id, game: Id, user: Id },
    /// The player's inventory (`InventoryReloaded`).
    GetPlayerInventory { game: Id, user: Id },
    /// Sell a power-up (`PowerUpSold`).
    SellPowerUp { game: Id, user: Id, power_up: Id },
    /// The player's properties (`PropertiesLoaded`).
    GetPlayerProperties { game: Id, user: Id },
    /// Install a power-up on a property (`UpgradeInstalled`).
    InstallUpgrade { game: Id, user: Id, property: Id, power_up: Id },
    /// Take a power-up off a property (`UpgradeUninstalled`).
    UninstallUpgrade { game: Id, user: Id, property: Id, power_up: Id },
    /// Pay rent for the cell (`RentPaid`).
    PayRent { game: Id, user: Id, cell: i32 },
    /// Pay the tax (`TaxPaid`).
    PayTax { game: Id, user: Id },
    /// Buy the property on the cell (`PropertyBought`).
    BuyProperty { game: Id, user: Id, cell: i32 },
    /// Record the player's move (`TurnSaved`).
    CommitMove { game: Id, user: Id, position: i32 },
    /// The bots still playing, to start their turns (`BotsLoaded`).
    LoadBots { game: Id },
    /// The bots still playing, to show them (`BotsRefreshed`).
    RefreshBots { game: Id },
    /// Play one bot's turn with the dice total (`BotTurnDone`).
    DoBotTurn { game: Id, bot: Id, dice: i32 },
    /// Every participant's balance (`BalancesLoaded`).
    GetAllBalances { game: Id },
    /// The board (`BoardReloaded`).
    GetBoardCells { game: Id },
    /// The player's standing; `Ok(None)` without asking when there is no user (`PlayerStateRefreshed`).
    RefreshPlayerState { game: Id, player: Option<Id> },
}

/// The client's state.
pub struct DreamBreaker {
    pub screen: Screen,
    /// Whether a database connection is open.
    pub db_connected: bool,
    pub status: String,
    pub current_user: Option<(Id, String)>,
    pub profile_menu_open: bool,
    pub users: Vec<(Id, String)>,

    pub input_username: String,
    pub input_password: String,
    pub input_password2: String,
    pub form_error: String,

    pub games: Vec<Game>,
    pub has_active_game: Option<bool>,
    pub user_games: Vec<UserGameRow>,

    pub create_game_balance: i64,
    pub create_game_max_turns: i32,
    pub create_game_target_balance: i64,

    pub active_game_id: Option<Id>,
    pub game_rules: Option<GameRules>,
    pub player_state: Option<ParticipantState>,
    pub board_cells: Vec<BoardCell>,
    pub inventory: Vec<InventoryItem>,
    pub game_menu_open: bool,
    pub dice_roll: Option<(u8, u8)>,
    pub local_player_pos: i32,
    /// The piece's position before this turn's roll.
    pub rolled_from: i32,
    pub turn_phase: TurnPhase,
    pub cell_action: Option<CellAction>,
    pub shop_slots: Vec<ShopSlot>,

    pub game_result: Option<GameResult>,
    pub user_stats: Option<UserStats>,
    pub show_stats: bool,

    pub show_property_mgmt: bool,
    pub player_properties: Vec<PlayerProperty>,
    pub selected_property: Option<usize>,

    pub bot_participants: Vec<BotParticipant>,
    pub bot_turn_queue: Vec<Id>,
    pub bot_turn_names: Vec<String>,
    pub bot_turn_log: Vec<String>,

    pub tooltip_item: Option<TooltipItem>,
    pub tooltip_visible: bool,
    pub tooltip_locked: bool,

    /// This turn's payments (rent, tax).
    pub income_log: Vec<String>,
    /// This turn's start bonus.
    pub start_log: Vec<String>,
    /// Rent the bots paid the player this round.
    pub rent_received_log: Vec<String>,

    pub hovered_cell: Option<i32>,
    pub window_mode: WindowMode,
    pub settings_from_game: bool,
}


// ---------------------------------------------------------------------------
// The meaning of a step

/// The id of the logged-in user.
pub open spec fn uid(s: DreamBreaker) -> Option<Id> {
    match s.current_user {
        Some(u) => Some(u.0),
        None => None,
    }
}

/// The open game and the logged-in user, when both exist and the database is connected.
pub open spec fn session(s: DreamBreaker) -> Option<(Id, Id)> {
    if s.db_connected {
        match (s.active_game_id, uid(s)) {
            (Some(g), Some(u)) => Some((g, u)),
            _ => None,
        }
    } else {
        None
    }
}

/// `c` when the database is connected, nothing otherwise.
pub open spec fn if_connected(s: DreamBreaker, c: Command) -> Command {
    if s.db_connected { c } else { Command::Nothing }
}

/// `cmd` is the batch of exactly `cs`.
pub open spec fn is_batch(cmd: Command, cs: Seq<Command>) -> bool {
    cmd matches Command::Batch(v) && v@ == cs
}

/// The texts of a list of strings.
pub open spec fn views(v: Seq<String>) -> Seq<Seq<char>> {
    v.map_values(|s: String| s@)
}

/// Whether an error says that the game is over.
pub open spec fn is_game_over_spec(e: DbError) -> bool {
    contains_seq(e.0@, "GAME_OVER"@)
}

/// All four form inputs are empty.
pub open spec fn form_clear(s: DreamBreaker) -> bool {
    &&& s.input_username@ == Seq::<char>::empty()
    &&& s.input_password@ == Seq::<char>::empty()
    &&& s.input_password2@ == Seq::<char>::empty()
    &&& s.form_error@ == Seq::<char>::empty()
}

/// Only the status line changed, to `text`.
pub open spec fn status_set(pre: DreamBreaker, post: DreamBreaker, text: Seq<char>) -> bool {
    &&& post == DreamBreaker { status: post.status, ..pre }
    &&& post.status@ == text
}

/// The state of a fresh client.
pub open spec fn fresh(s: DreamBreaker) -> bool {
    &&& s.screen == Screen::Menu
    &&& !s.db_connected
    &&& s.current_user is None
    &&& !s.profile_menu_open
    &&& s.users@.len() == 0
    &&& form_clear(s)
    &&& s.games@.len() == 0
    &&& s.has_active_game is None
    &&& s.user_games@.len() == 0
    &&& s.create_game_balance == 1000
    &&& s.create_game_max_turns == 50
    &&& s.create_game_target_balance == 2500
    &&& s.active_game_id is None
    &&& s.game_rules is None
    &&& s.player_state is None
    &&& s.board_cells@.len() == 0
    &&& s.inventory@.len() == 0
    &&& !s.game_menu_open
    &&& s.dice_roll is None
    &&& s.local_player_pos == 0
    &&& s.rolled_from == 0
    &&& s.turn_phase == TurnPhase::WaitingRoll
    &&& s.cell_action is None
    &&& s.shop_slots@.len() == 0
    &&& s.game_result is None
    &&& s.user_stats is None
    &&& !s.show_stats
    &&& !s.show_property_mgmt
    &&& s.player_properties@.len() == 0
    &&& s.selected_property is None
    &&& s.bot_participants@.len() == 0
    &&& s.bot_turn_queue@.len() == 0
    &&& s.bot_turn_names@.len() == 0
    &&& s.bot_turn_log@.len() == 0
    &&& s.tooltip_item is None
    &&& !s.tooltip_visible
    &&& !s.tooltip_locked
    &&& s.income_log@.len() == 0
    &&& s.start_log@.len() == 0
    &&& s.rent_received_log@.len() == 0
    &&& s.hovered_cell is None
    &&& s.window_mode == WindowMode::Window
    &&& !s.settings_from_game
}

/// Every list and value that belongs to an open game is gone.
pub open spec fn game_lists_empty(s: DreamBreaker) -> bool {
    &&& s.board_cells@.len() == 0
    &&& s.inventory@.len() == 0
    &&& s.player_properties@.len() == 0
    &&& s.shop_slots@.len() == 0
    &&& s.bot_participants@.len() == 0
    &&& s.bot_turn_queue@.len() == 0
    &&& s.bot_turn_names@.len() == 0
    &&& s.bot_turn_log@.len() == 0
}

/// Leaving a game that is already over: back to the menu with `reason` and no game state.
pub open spec fn force_exit_post(pre: DreamBreaker, post: DreamBreaker, reason: Seq<char>) -> bool {
    &&& post == DreamBreaker {
        status: post.status,
        screen: Screen::Menu,
        active_game_id: None,
        player_state: None,
        game_rules: None,
        board_cells: post.board_cells,
        inventory: post.inventory,
        player_properties: post.player_properties,
        dice_roll: None,
        turn_phase: TurnPhase::WaitingRoll,
        cell_action: None,
        shop_slots: post.shop_slots,
        tooltip_item: None,
        tooltip_visible: false,
        tooltip_locked: false,
        bot_participants: post.bot_participants,
        bot_turn_queue: post.bot_turn_queue,
        bot_turn_names: post.bot_turn_names,
        bot_turn_log: post.bot_turn_log,
        income_log: post.income_log,
        start_log: post.start_log,
        rent_received_log: post.rent_received_log,
        show_property_mgmt: false,
        selected_property: None,
        game_menu_open: false,
        ..pre
    }
    &&& post.status@ == reason
    &&& game_lists_empty(post)
    &&& post.income_log@.len() == 0
    &&& post.start_log@.len() == 0
    &&& post.rent_received_log@.len() == 0
}

/// A failed game request: leave the game when it is over, else report `prefix` and the error.
pub open spec fn game_error_post(pre: DreamBreaker, post: DreamBreaker, cmd: Command, e: DbError, prefix: Seq<char>) -> bool {
    &&& cmd == Command::Nothing
    &&& if is_game_over_spec(e) {
        force_exit_post(pre, post, "Игра уже завершена"@)
    } else {
        status_set(pre, post, prefix + e.0@)
    }
}

/// Opening the login or registration form.
pub open spec fn open_form_post(pre: DreamBreaker, post: DreamBreaker, cmd: Command, screen: Screen) -> bool {
    &&& post == DreamBreaker {
        screen: screen,
        profile_menu_open: false,
        input_username: post.input_username,
        input_password: post.input_password,
        input_password2: post.input_password2,
        form_error: post.form_error,
        ..pre
    }
    &&& form_clear(post)
    &&& cmd == Command::Nothing
}

/// Back to the menu, or back to the game from the settings opened in a game.
pub open spec fn back_to_menu_post(pre: DreamBreaker, post: DreamBreaker, cmd: Command) -> bool {
    &&& cmd == Command::Nothing
    &&& if pre.settings_from_game {
        post == DreamBreaker { settings_from_game: false, screen: Screen::Game, ..pre }
    } else {
        &&& post == DreamBreaker {
            screen: Screen::Menu,
            profile_menu_open: false,
            input_username: post.input_username,
            input_password: post.input_password,
            input_password2: post.input_password2,
            form_error: post.form_error,
            local_player_pos: 0,
            player_state: None,
            game_rules: None,
            board_cells: post.board_cells,
            active_game_id: None,
            dice_roll: None,
            turn_phase: TurnPhase::WaitingRoll,
            cell_action: None,
            ..pre
        }
        &&& form_clear(post)
        &&& post.board_cells@.len() == 0
    }
}

/// Logging out.
pub open spec fn logout_post(pre: DreamBreaker, post: DreamBreaker, cmd: Command) -> bool {
    &&& post == DreamBreaker {
        current_user: None,
        has_active_game: None,
        active_game_id: None,
        game_rules: None,
        player_state: None,
        board_cells: post.board_cells,
        inventory: post.inventory,
        game_result: None,
        user_stats: None,
        show_stats: false,
        screen: Screen::Menu,
        profile_menu_open: false,
        status: post.status,
        ..pre
    }
    &&& post.board_cells@.len() == 0
    &&& post.inventory@.len() == 0
    &&& post.status@ == "Вы вышли из аккаунта"@
    &&& cmd == Command::Nothing
}

/// Submitting the login form.
pub open spec fn submit_login_post(pre: DreamBreaker, post: DreamBreaker, cmd: Command) -> bool {
    let name = trim_seq(pre.input_username@);
    if name.len() == 0 || pre.input_password@.len() == 0 {
        &&& post == DreamBreaker { form_error: post.form_error, ..pre }
        &&& post.form_error@ == "Заполни все поля"@
        &&& cmd == Command::Nothing
    } else {
        &&& post == DreamBreaker { form_error: post.form_error, status: post.status, ..pre }
        &&& post.status@ == "Проверка пароля..."@
        &&& if pre.db_connected {
            &&& post.form_error@ == Seq::<char>::empty()
            &&& cmd matches Command::Authenticate { username, password }
            &&& username@ == name
            &&& password@ == pre.input_password@
        } else {
            &&& post.form_error@ == "БД не подключена"@
            &&& cmd == Command::Nothing
        }
    }
}

/// A successful login.
pub open spec fn login_ok_post(pre: DreamBreaker, post: DreamBreaker, cmd: Command, user: User) -> bool {
    &&& post == DreamBreaker {
        current_user: post.current_user,
        status: post.status,
        screen: Screen::Menu,
        input_username: post.input_username,
        input_password: post.input_password,
        input_password2: post.input_password2,
        form_error: post.form_error,
        has_active_game: None,
        ..pre
    }
    &&& post.current_user matches Some(cu) && cu.0 == user.id && cu.1@ == user.username@
    &&& post.status@ == "Добро пожаловать, "@ + user.username@ + "!"@
    &&& form_clear(post)
    &&& if pre.db_connected {
        is_batch(cmd, seq![
            Command::ListUsers,
            Command::CheckActiveGame { user: user.id },
            Command::ResetStaleGames { user: user.id },
        ])
    } else {
        cmd == Command::Nothing
    }
}

/// Submitting the registration form.
pub open spec fn submit_register_post(pre: DreamBreaker, post: DreamBreaker, cmd: Command) -> bool {
    let name = trim_seq(pre.input_username@);
    match registration_problem(name, pre.input_password@, pre.input_password2@) {
        Some(problem) => {
            &&& post == DreamBreaker { form_error: post.form_error, ..pre }
            &&& post.form_error@ == problem
            &&& cmd == Command::Nothing
        },
        None => {
            &&& post == DreamBreaker { form_error: post.form_error, status: post.status, ..pre }
            &&& post.status@ == "Создание аккаунта..."@
            &&& if pre.db_connected {
                &&& post.form_error@ == Seq::<char>::empty()
                &&& cmd matches Command::Register { username, password }
                &&& username@ == name
                &&& password@ == pre.input_password@
            } else {
                &&& post.form_error@ == "БД не подключена"@
                &&& cmd == Command::Nothing
            }
        },
    }
}

/// An account was created.
pub open spec fn register_ok_post(pre: DreamBreaker, post: DreamBreaker, cmd: Command, id: Id) -> bool {
    &&& post == DreamBreaker {
        status: post.status,
        input_username: post.input_username,
        input_password: post.input_password,
        input_password2: post.input_password2,
        form_error: post.form_error,
        screen: if pre.db_connected { pre.screen } else { Screen::Login },
        ..pre
    }
    &&& post.status@ == "Аккаунт создан!"@
    &&& form_clear(post)
    &&& cmd == if_connected(pre, Command::LoginAfterRegister { user: id })
}

/// The account could not be created.
pub open spec fn register_err_post(pre: DreamBreaker, post: DreamBreaker, cmd: Command, e: DbError) -> bool {
    &&& post == DreamBreaker { form_error: post.form_error, status: post.status, ..pre }
    &&& post.form_error@ == (if contains_seq(e.0@, "duplicate"@) || contains_seq(e.0@, "unique"@) {
        "Имя уже занято"@
    } else {
        e.0@
    })
    &&& post.status@ == "Ошибка регистрации"@
    &&& cmd == Command::Nothing
}

/// Submitting the new-game form, with the clock reading `seed`.
pub open spec fn create_game_post(pre: DreamBreaker, post: DreamBreaker, cmd: Command, seed: i64) -> bool {
    match uid(pre) {
        None => status_set(pre, post, "Ты не залогинен"@) && cmd == Command::Nothing,
        Some(u) => if pre.db_connected {
            &&& status_set(pre, post, "Создаю игру..."@)
            &&& cmd == Command::CreateGame {
                seed: seed,
                starting_balance: pre.create_game_balance,
                max_turns: pre.create_game_max_turns,
                target_balance: pre.create_game_target_balance,
                user: u,
            }
        } else {
            status_set(pre, post, "БД не подключена"@) && cmd == Command::Nothing
        },
    }
}

/// The game screen arrived.
pub open spec fn screen_loaded_post(pre: DreamBreaker, post: DreamBreaker, cmd: Command, gs: GameScreen) -> bool {
    &&& post == DreamBreaker {
        local_player_pos: gs.state.position,
        turn_phase: TurnPhase::WaitingRoll,
        dice_roll: None,
        game_rules: Some(gs.rules),
        player_state: Some(gs.state),
        board_cells: gs.cells,
        inventory: gs.inventory,
        player_properties: gs.properties,
        screen: Screen::Game,
        game_menu_open: false,
        status: post.status,
        bot_turn_queue: post.bot_turn_queue,
        bot_turn_names: post.bot_turn_names,
        bot_turn_log: post.bot_turn_log,
        bot_participants: post.bot_participants,
        show_property_mgmt: false,
        selected_property: None,
        ..pre
    }
    &&& post.status@ == "Игра загружена"@
    &&& post.bot_turn_queue@.len() == 0
    &&& post.bot_turn_names@.len() == 0
    &&& post.bot_turn_log@.len() == 0
    &&& post.bot_participants@.len() == 0
    &&& cmd == Command::Nothing
}

/// Leaving the game through its menu, asking the database for `request`.
pub open spec fn leave_game_post(pre: DreamBreaker, post: DreamBreaker, cmd: Command, pause: bool) -> bool {
    match session(pre) {
        Some((g, u)) => {
            &&& post == DreamBreaker { game_menu_open: false, ..pre }
            &&& cmd == (if pause { Command::PauseGame { game: g, user: u } } else { Command::SurrenderGame { game: g, user: u } })
        },
        None => {
            &&& post == DreamBreaker { game_menu_open: false, screen: Screen::Menu, ..pre }
            &&& cmd == Command::Nothing
        },
    }
}

/// The game was paused: back to the menu with no game state.
pub open spec fn paused_post(pre: DreamBreaker, post: DreamBreaker, cmd: Command) -> bool {
    &&& post == DreamBreaker {
        screen: Screen::Menu,
        has_active_game: Some(true),
        status: post.status,
        local_player_pos: 0,
        player_state: None,
        game_rules: None,
        board_cells: post.board_cells,
        inventory: post.inventory,
        player_properties: post.player_properties,
        dice_roll: None,
        turn_phase: TurnPhase::WaitingRoll,
        cell_action: None,
        shop_slots: post.shop_slots,
        tooltip_item: None,
        tooltip_visible: false,
        tooltip_locked: false,
        bot_participants: post.bot_participants,
        bot_turn_queue: post.bot_turn_queue,
        bot_turn_names: post.bot_turn_names,
        bot_turn_log: post.bot_turn_log,
        show_property_mgmt: false,
        selected_property: None,
        game_menu_open: false,
        ..pre
    }
    &&& post.status@ == "Игра сохранена"@
    &&& game_lists_empty(post)
    &&& cmd == Command::Nothing
}

/// Rolling the dice with the clock reading `seed`.
pub open spec fn roll_dice_post(pre: DreamBreaker, post: DreamBreaker, cmd: Command, seed: u32) -> bool {
    if pre.turn_phase != TurnPhase::WaitingRoll {
        post == pre && cmd == Command::Nothing
    } else if pre.player_state is Some && pre.game_rules is Some
        && pre.player_state->0.moves_made >= pre.game_rules->0.max_turns {
        &&& post == DreamBreaker {
            income_log: post.income_log,
            start_log: post.start_log,
            rent_received_log: post.rent_received_log,
            ..pre
        }
        &&& post.income_log@.len() == 0
        &&& post.start_log@.len() == 0
        &&& post.rent_received_log@.len() == 0
        &&& cmd == Command::Nothing
    } else {
        let dice = dice_spec(seed);
        let pos = advance_spec(pre.local_player_pos as int, dice.0 + dice.1);
        &&& post == DreamBreaker {
            income_log: post.income_log,
            start_log: post.start_log,
            rent_received_log: post.rent_received_log,
            dice_roll: Some(dice),
            local_player_pos: pos as i32,
            rolled_from: pre.local_player_pos,
            turn_phase: TurnPhase::Rolled,
            shop_slots: post.shop_slots,
            cell_action: post.cell_action,
            ..pre
        }
        &&& post.income_log@.len() == 0
        &&& post.start_log@.len() == 0
        &&& post.rent_received_log@.len() == 0
        &&& post.shop_slots@.len() == 0
        &&& landing_action_spec(post.cell_action, pre.board_cells@, pos, uid(pre))
        &&& cmd == match post.cell_action {
            Some(CellAction::Shop { shop_id }) => match session(pre) {
                Some((g, u)) => Command::GetShopSlots { shop: shop_id, game: g, user: u },
                None => Command::Nothing,
            },
            _ => Command::Nothing,
        }
    }
}

/// A purchase or reroll in the shop succeeded: show the new standing and `text`, then reload
/// the shop (and, after a purchase, the inventory).
pub open spec fn shop_change_post(pre: DreamBreaker, post: DreamBreaker, cmd: Command, st: ParticipantState, text: Seq<char>, bought: bool) -> bool {
    &&& post == DreamBreaker { player_state: Some(st), status: post.status, ..pre }
    &&& post.status@ == text
    &&& match (session(pre), pre.cell_action) {
        (Some((g, u)), Some(CellAction::Shop { shop_id })) => if bought {
            is_batch(cmd, seq![
                Command::GetShopSlots { shop: shop_id, game: g, user: u },
                Command::GetPlayerInventory { game: g, user: u },
            ])
        } else {
            cmd == Command::GetShopSlots { shop: shop_id, game: g, user: u }
        },
        _ => cmd == Command::Nothing,
    }
}

/// The tooltip is closed and unlocked.
pub open spec fn tooltip_reset(pre: DreamBreaker, post: DreamBreaker) -> bool {
    post == DreamBreaker { tooltip_visible: false, tooltip_locked: false, tooltip_item: None, ..pre }
}

/// An upgrade was installed or removed: report `result`, then reload properties and inventory.
pub open spec fn upgrade_done_post(pre: DreamBreaker, post: DreamBreaker, cmd: Command, result: String, ok_text: Seq<char>, refused: Seq<char>) -> bool {
    &&& status_set(pre, post, if result@ == "ok"@ { ok_text } else { refused + result@ })
    &&& match session(pre) {
        Some((g, u)) => is_batch(cmd, seq![
            Command::GetPlayerProperties { game: g, user: u },
            Command::GetPlayerInventory { game: g, user: u },
        ]),
        None => cmd == Command::Nothing,
    }
}

/// Ending the turn: pay the rent or tax the cell asks, else record the move.
pub open spec fn end_turn_post(pre: DreamBreaker, post: DreamBreaker, cmd: Command) -> bool {
    if pre.turn_phase != TurnPhase::Rolled {
        post == pre && cmd == Command::Nothing
    } else {
        match session(pre) {
            None => {
                &&& post == DreamBreaker {
                    shop_slots: post.shop_slots,
                    tooltip_item: None,
                    tooltip_visible: false,
                    tooltip_locked: false,
                    ..pre
                }
                &&& post.shop_slots@.len() == 0
                &&& cmd == Command::Nothing
            },
            Some((g, u)) => {
                &&& post == DreamBreaker {
                    shop_slots: post.shop_slots,
                    tooltip_item: None,
                    tooltip_visible: false,
                    tooltip_locked: false,
                    cell_action: None,
                    ..pre
                }
                &&& post.shop_slots@.len() == 0
                &&& cmd == match pre.cell_action {
                    Some(CellAction::MustPayRent { cell_index, .. }) => Command::PayRent { game: g, user: u, cell: cell_index },
                    Some(CellAction::Tax) => Command::PayTax { game: g, user: u },
                    _ => Command::CommitMove { game: g, user: u, position: pre.local_player_pos },
                }
            },
        }
    }
}

/// The balance before a reply, zero when unknown.
pub open spec fn old_balance(s: DreamBreaker) -> int {
    match s.player_state {
        Some(p) => p.balance as int,
        None => 0,
    }
}

/// The status after a move was recorded, from the change of balance.
pub open spec fn turn_saved_text(diff: int) -> Seq<char> {
    if diff >= 400 {
        "Ход завершён. Вы встали на СТАРТ! +400"@
    } else if diff >= 200 {
        "Ход завершён. Вы прошли СТАРТ! +200"@
    } else {
        "Ход завершён. Боты ходят..."@
    }
}

/// The player's move was recorded: new standing, start bonus, then the bots' turns.
pub open spec fn turn_saved_post(pre: DreamBreaker, post: DreamBreaker, cmd: Command, ns: ParticipantState) -> bool {
    let bonus = start_bonus_spec(old_balance(pre), ns.position as int, pre.rolled_from as int);
    &&& post == DreamBreaker {
        player_state: Some(ns),
        turn_phase: TurnPhase::WaitingRoll,
        dice_roll: None,
        status: post.status,
        bot_turn_log: post.bot_turn_log,
        start_log: post.start_log,
        rent_received_log: post.rent_received_log,
        ..pre
    }
    &&& post.status@ == turn_saved_text(ns.balance - old_balance(pre))
    &&& post.bot_turn_log@.len() == 0
    &&& post.rent_received_log@.len() == 0
    &&& views(post.start_log@) == (if bonus == 400 {
        seq!["Встали на СТАРТ: +400"@]
    } else if bonus == 200 {
        seq!["Прошли СТАРТ: +200"@]
    } else {
        Seq::empty()
    })
    &&& cmd == match pre.active_game_id {
        Some(g) => if_connected(pre, Command::LoadBots { game: g }),
        None => Command::Nothing,
    }
}

/// The status while a bot moves.
pub open spec fn bot_move_text(name: Seq<char>, d1: int, d2: int, with_dice_word: bool) -> Seq<char> {
    "Ходит "@ + name + (if with_dice_word { "... (кубик: "@ } else { "... ("@ })
        + decimal(d1) + "+"@ + decimal(d2) + "="@ + decimal(d1 + d2) + ")"@
}

/// The bots of a round arrived: queue them and start the first one's turn with the clock reading `seed`.
pub open spec fn bots_loaded_post(pre: DreamBreaker, post: DreamBreaker, cmd: Command, bots: Vec<BotParticipant>, seed: u32) -> bool {
    let ids = bots@.map_values(|b: BotParticipant| b.user_id);
    let names = bots@.map_values(|b: BotParticipant| b.username@);
    let dice = dice_spec(seed);
    &&& post == DreamBreaker {
        bot_participants: bots,
        bot_turn_queue: post.bot_turn_queue,
        bot_turn_names: post.bot_turn_names,
        status: post.status,
        ..pre
    }
    &&& views(post.bot_turn_names@) == names
    &&& match (pre.active_game_id, pre.db_connected) {
        (Some(g), true) => if bots@.len() > 0 {
            &&& post.bot_turn_queue@ == ids.drop_first()
            &&& post.status@ == bot_move_text(names[0], dice.0 as int, dice.1 as int, true)
            &&& cmd == Command::DoBotTurn { game: g, bot: ids[0], dice: (dice.0 + dice.1) as i32 }
        } else {
            &&& post.bot_turn_queue@ == ids
            &&& post.status == pre.status
            &&& is_batch(cmd, seq![Command::GetAllBalances { game: g }, Command::RefreshBots { game: g }])
        },
        _ => {
            &&& post.bot_turn_queue@ == ids
            &&& post.status == pre.status
            &&& cmd == Command::Nothing
        },
    }
}

/// The bots' log line for one move.
pub open spec fn bot_action_text(r: BotTurnResult) -> Seq<char> {
    let detail = r.action_detail@;
    if r.action@ == "bought"@ {
        "купил «"@ + detail + "»"@
    } else if r.action@ == "rent_paid"@ {
        let amount = match after_first(detail, ':') { Some(a) => a, None => "?"@ };
        "заплатил аренду "@ + amount + " за «"@ + before_first(detail, ':') + "»"@
    } else if r.action@ == "tax_paid"@ {
        "заплатил налог "@ + detail
    } else if r.action@ == "bankrupt"@ {
        "💀 БАНКРОТ ("@ + detail + ")"@
    } else if r.action@ == "start_bonus"@ {
        "прошёл СТАРТ +"@ + detail
    } else {
        "пропустил ход"@
    }
}

/// Whether the player owns a property cell named `name`.
pub open spec fn player_owns_named(cells: Seq<BoardCell>, name: Seq<char>, user: Id) -> bool {
    exists|i: int| 0 <= i < cells.len() && #[trigger] owned_named(cells[i], name, user)
}

/// Whether `cell` is named `name` and owned by `user`.
pub open spec fn owned_named(cell: BoardCell, name: Seq<char>, user: Id) -> bool {
    &&& cell.prop_name matches Some(n) && n@ == name
    &&& cell.owner_user_id == Some(user)
}

/// The name of the bot whose move just finished: the head of the name queue, or a default.
pub open spec fn current_bot_name(names: Seq<Seq<char>>) -> Seq<char> {
    if names.len() > 0 { names[0] } else { "Бот"@ }
}

/// The name queue with its head taken.
pub open spec fn names_after_pop(names: Seq<Seq<char>>) -> Seq<Seq<char>> {
    if names.len() > 0 { names.drop_first() } else { names }
}

/// The name queue after the next bot's name is taken and put back (a default name when empty).
pub open spec fn names_with_head(names: Seq<Seq<char>>) -> Seq<Seq<char>> {
    if names.len() > 0 { names } else { seq!["Бот"@] }
}

/// The bots' log after `line` is added, keeping the last ten lines.
pub open spec fn log_after(log: Seq<Seq<char>>, line: Seq<char>) -> Seq<Seq<char>> {
    let l = log.push(line);
    if l.len() > BOT_LOG_CAPACITY { l.drop_first() } else { l }
}

/// The rent log after bot `bot` paid rent described by `r`.
pub open spec fn rent_log_after(pre: DreamBreaker, r: BotTurnResult, bot: Seq<char>) -> Seq<Seq<char>> {
    let log = views(pre.rent_received_log@);
    if r.action@ == "rent_paid"@ {
        match uid(pre) {
            Some(u) => if player_owns_named(pre.board_cells@, before_first(r.action_detail@, ':'), u) {
                let amount = match after_first(r.action_detail@, ':') { Some(a) => a, None => "?"@ };
                log.push("Аренда от "@ + bot + ": +"@ + amount)
            } else {
                log
            },
            None => log,
        }
    } else {
        log
    }
}

/// What happens after a bot's turn: the next bot moves with the clock reading `seed`, or the
/// round closes with the balance check and refreshes.
pub open spec fn next_bot_post(mid: DreamBreaker, post: DreamBreaker, cmd: Command, seed: u32, with_status: bool) -> bool {
    let names = views(mid.bot_turn_names@);
    let dice = dice_spec(seed);
    match (mid.active_game_id, mid.db_connected) {
        (Some(g), true) => if mid.bot_turn_queue@.len() > 0 {
            &&& post == DreamBreaker { bot_turn_queue: post.bot_turn_queue, bot_turn_names: post.bot_turn_names, status: post.status, ..mid }
            &&& post.bot_turn_queue@ == mid.bot_turn_queue@.drop_first()
            &&& views(post.bot_turn_names@) == names_with_head(names)
            &&& (if with_status {
                post.status@ == bot_move_text(current_bot_name(names), dice.0 as int, dice.1 as int, false)
            } else {
                post.status == mid.status
            })
            &&& cmd == Command::DoBotTurn { game: g, bot: mid.bot_turn_queue@[0], dice: (dice.0 + dice.1) as i32 }
        } else if with_status {
            &&& status_set(mid, post, "Ходы ботов завершены"@)
            &&& is_batch(cmd, seq![
                Command::GetAllBalances { game: g },
                Command::GetBoardCells { game: g },
                Command::RefreshBots { game: g },
                Command::RefreshPlayerState { game: g, player: uid(mid) },
            ])
        } else {
            &&& post == mid
            &&& cmd == Command::GetAllBalances { game: g }
        },
        _ => post == mid && cmd == Command::Nothing,
    }
}

/// A bot finished its turn (reply `r`): log it, then move the next bot with the clock reading `seed`.
pub open spec fn bot_turn_ok_post(pre: DreamBreaker, post: DreamBreaker, cmd: Command, r: BotTurnResult, seed: u32) -> bool {
    let bot = current_bot_name(views(pre.bot_turn_names@));
    exists|mid: DreamBreaker| {
        &&& mid == DreamBreaker {
            bot_turn_names: mid.bot_turn_names,
            bot_turn_log: mid.bot_turn_log,
            rent_received_log: mid.rent_received_log,
            ..pre
        }
        &&& views(mid.bot_turn_names@) == names_after_pop(views(pre.bot_turn_names@))
        &&& views(mid.bot_turn_log@) == log_after(views(pre.bot_turn_log@), bot + ": "@ + bot_action_text(r))
        &&& views(mid.rent_received_log@) == rent_log_after(pre, r, bot)
        &&& next_bot_post(mid, post, cmd, seed, true)
    }
}

/// A bot's turn failed: report it and move the next bot with the clock reading `seed` + 13.
pub open spec fn bot_turn_err_post(pre: DreamBreaker, post: DreamBreaker, cmd: Command, e: DbError, seed: u32) -> bool {
    exists|mid: DreamBreaker| {
        &&& mid == DreamBreaker { status: mid.status, bot_turn_names: mid.bot_turn_names, ..pre }
        &&& mid.status@ == "Ошибка хода бота: "@ + e.0@
        &&& views(mid.bot_turn_names@) == names_after_pop(views(pre.bot_turn_names@))
        &&& next_bot_post(mid, post, cmd, seed, false)
    }
}

/// The balances arrived: end the game when it is won or lost.
pub open spec fn balances_post(pre: DreamBreaker, post: DreamBreaker, cmd: Command, rows: Seq<BalanceRow>) -> bool {
    match (pre.game_rules, pre.player_state, uid(pre)) {
        (Some(rules), Some(st), Some(u)) => match outcome_spec(rules, st, rows, u) {
            GameOutcome::Ongoing => post == pre && cmd == Command::Nothing,
            o => {
                &&& status_set(pre, post, if o == GameOutcome::Victory { "Выиграна"@ } else { "Проиграна"@ })
                &&& cmd == match pre.active_game_id {
                    Some(g) => if_connected(pre, Command::FinishGame { game: g, user: u }),
                    None => Command::Nothing,
                }
            },
        },
        _ => post == pre && cmd == Command::Nothing,
    }
}

/// A payment at the end of the turn went through: note it as `label` and record the move.
pub open spec fn payment_post(pre: DreamBreaker, post: DreamBreaker, cmd: Command, st: ParticipantState, label: Seq<char>, text: Seq<char>) -> bool {
    let paid: int = match pre.player_state { Some(o) => o.balance - st.balance, None => 0 };
    &&& post == DreamBreaker {
        income_log: post.income_log,
        player_state: Some(st),
        status: post.status,
        cell_action: None,
        ..pre
    }
    &&& views(post.income_log@) == (if paid > 0 {
        views(pre.income_log@).push(label + decimal(paid))
    } else {
        views(pre.income_log@)
    })
    &&& post.status@ == text
    &&& cmd == match session(pre) {
        Some((g, u)) => Command::CommitMove { game: g, user: u, position: pre.local_player_pos },
        None => Command::Nothing,
    }
}

/// What one message does: `post` is the state after `msg` from `pre`, and `cmd` the work it asks for.
pub open spec fn step(pre: DreamBreaker, msg: Message, post: DreamBreaker, cmd: Command) -> bool {
    match msg {
        Message::OpenLogin => open_form_post(pre, post, cmd, Screen::Login),
        Message::OpenRegister => open_form_post(pre, post, cmd, Screen::Register),
        Message::OpenLoadGame => {
            &&& post == DreamBreaker { screen: Screen::LoadGame, profile_menu_open: false, ..pre }
            &&& cmd == match uid(pre) {
                Some(u) => if_connected(pre, Command::GetUserGames { user: u }),
                None => Command::Nothing,
            }
        },
        Message::OpenCreateGame => {
            &&& post == DreamBreaker {
                screen: Screen::CreateGame,
                profile_menu_open: false,
                create_game_balance: 1000,
                create_game_max_turns: 50,
                create_game_target_balance: 2500,
                ..pre
            }
            &&& cmd == Command::Nothing
        },
        Message::OpenSettings => {
            &&& post == DreamBreaker { settings_from_game: false, screen: Screen::Settings, profile_menu_open: false, ..pre }
            &&& cmd == Command::Nothing
        },
        Message::OpenSettingsFromGame => {
            &&& post == DreamBreaker { settings_from_game: true, screen: Screen::Settings, game_menu_open: false, ..pre }
            &&& cmd == Command::Nothing
        },
        Message::BackToMenu => back_to_menu_post(pre, post, cmd),
        Message::Logout => logout_post(pre, post, cmd),
        Message::Exit => post == pre && cmd == Command::Exit,
        Message::ToggleProfileMenu => {
            &&& post == DreamBreaker { profile_menu_open: !pre.profile_menu_open, ..pre }
            &&& cmd == Command::Nothing
        },
        Message::SelectUser(_, name) => {
            &&& post == DreamBreaker {
                profile_menu_open: false,
                screen: Screen::Login,
                input_username: name,
                input_password: post.input_password,
                form_error: post.form_error,
                ..pre
            }
            &&& post.input_password@ == Seq::<char>::empty()
            &&& post.form_error@ == Seq::<char>::empty()
            &&& cmd == Command::Nothing
        },
        Message::ToggleStats => post == DreamBreaker { show_stats: !pre.show_stats, ..pre } && cmd == Command::Nothing,
        Message::OpenStats => {
            &&& post == DreamBreaker { profile_menu_open: false, ..pre }
            &&& cmd == match uid(pre) {
                Some(u) => if_connected(pre, Command::GetUserStats { user: u }),
                None => Command::Nothing,
            }
        },
        Message::UsernameChanged(v) => post == DreamBreaker { input_username: v, ..pre } && cmd == Command::Nothing,
        Message::PasswordChanged(v) => post == DreamBreaker { input_password: v, ..pre } && cmd == Command::Nothing,
        Message::Password2Changed(v) => post == DreamBreaker { input_password2: v, ..pre } && cmd == Command::Nothing,
        Message::SubmitLogin => submit_login_post(pre, post, cmd),
        Message::LoginDone(Ok(user)) => login_ok_post(pre, post, cmd, user),
        Message::LoginDone(Err(e)) => {
            &&& post == DreamBreaker { form_error: post.form_error, status: post.status, ..pre }
            &&& post.form_error@ == e.0@
            &&& post.status@ == "Ошибка входа"@
            &&& cmd == Command::Nothing
        },
        Message::SubmitRegister => submit_register_post(pre, post, cmd),
        Message::RegisterDone(Ok(id)) => register_ok_post(pre, post, cmd, id),
        Message::RegisterDone(Err(e)) => register_err_post(pre, post, cmd, e),
        Message::GameBalanceIncrease => {
            let b = pre.create_game_balance + 100;
            &&& post == DreamBreaker {
                create_game_balance: b as i64,
                create_game_target_balance: if pre.create_game_target_balance <= b { (b + 100) as i64 } else { pre.create_game_target_balance },
                ..pre
            }
            &&& cmd == Command::Nothing
        },
        Message::GameBalanceDecrease => {
            &&& post == DreamBreaker {
                create_game_balance: if pre.create_game_balance > 100 { (pre.create_game_balance - 100) as i64 } else { pre.create_game_balance },
                ..pre
            }
            &&& cmd == Command::Nothing
        },
        Message::GameMaxTurnsIncrease => {
            &&& post == DreamBreaker { create_game_max_turns: (pre.create_game_max_turns + 2) as i32, ..pre }
            &&& cmd == Command::Nothing
        },
        Message::GameMaxTurnsDecrease => {
            &&& post == DreamBreaker {
                create_game_max_turns: if pre.create_game_max_turns > 2 { (pre.create_game_max_turns - 2) as i32 } else { pre.create_game_max_turns },
                ..pre
            }
            &&& cmd == Command::Nothing
        },
        Message::GameTargetBalanceIncrease => {
            &&& post == DreamBreaker { create_game_target_balance: (pre.create_game_target_balance + 100) as i64, ..pre }
            &&& cmd == Command::Nothing
        },
        Message::GameTargetBalanceDecrease => {
            &&& post == DreamBreaker {
                create_game_target_balance: if pre.create_game_target_balance > pre.create_game_balance + 100 {
                    (pre.create_game_target_balance - 100) as i64
                } else {
                    pre.create_game_target_balance
                },
                ..pre
            }
            &&& cmd == Command::Nothing
        },
        Message::CreateGameSubmit => exists|seed: i64| create_game_post(pre, post, cmd, seed),
        Message::GameCreated(Ok(g)) => {
            &&& post == DreamBreaker { status: post.status, active_game_id: Some(g), has_active_game: Some(true), ..pre }
            &&& post.status@ == "Игра создана, загружаю..."@
            &&& cmd == match uid(pre) {
                Some(u) => if_connected(pre, Command::LoadGameScreen { game: g, user: u }),
                None => Command::Nothing,
            }
        },
        Message::GameCreated(Err(e)) => status_set(pre, post, "Ошибка создания игры: "@ + e.0@) && cmd == Command::Nothing,
        Message::ContinueGame => match uid(pre) {
            None => status_set(pre, post, "Ты не залогинен"@) && cmd == Command::Nothing,
            Some(u) => {
                &&& status_set(pre, post, "Загружаю последнюю игру..."@)
                &&& cmd == if_connected(pre, Command::GetLatestUserGame { user: u })
            },
        },
        Message::LoadGame(g) => match uid(pre) {
            None => status_set(pre, post, "Ты не залогинен"@) && cmd == Command::Nothing,
            Some(u) => {
                &&& post == DreamBreaker { active_game_id: Some(g), status: post.status, ..pre }
                &&& post.status@ == "Загружаю игру..."@
                &&& cmd == if_connected(pre, Command::LoadGameScreen { game: g, user: u })
            },
        },
        Message::GameScreenLoaded(Ok(gs)) => screen_loaded_post(pre, post, cmd, gs),
        Message::GameScreenLoaded(Err(e)) => status_set(pre, post, "Ошибка загрузки игры: "@ + e.0@) && cmd == Command::Nothing,
        Message::ToggleGameMenu => post == DreamBreaker { game_menu_open: !pre.game_menu_open, ..pre } && cmd == Command::Nothing,
        Message::SaveAndExit => leave_game_post(pre, post, cmd, true),
        Message::GamePaused(Ok(())) => paused_post(pre, post, cmd),
        Message::GamePaused(Err(e)) => status_set(pre, post, "Ошибка сохранения: "@ + e.0@) && cmd == Command::Nothing,
        Message::Surrender => leave_game_post(pre, post, cmd, false),
        Message::GameSurrendered(Ok(())) => post == pre && cmd == Command::Nothing,
        Message::GameSurrendered(Err(e)) => status_set(pre, post, "Ошибка: "@ + e.0@) && cmd == Command::Nothing,
        Message::GameResultLoaded(Ok(r)) => post == DreamBreaker { game_result: r, screen: Screen::GameOver, ..pre } && cmd == Command::Nothing,
        Message::GameResultLoaded(Err(e)) => {
            &&& post == DreamBreaker { status: post.status, screen: Screen::Menu, ..pre }
            &&& post.status@ == "Ошибка загрузки результата: "@ + e.0@
            &&& cmd == Command::Nothing
        },
        Message::TooltipHoverStart(item) => post == DreamBreaker { tooltip_item: Some(item), tooltip_visible: true, ..pre } && cmd == Command::Nothing,
        Message::TooltipHoverEnd => post == DreamBreaker { tooltip_item: None, tooltip_visible: false, ..pre } && cmd == Command::Nothing,
        Message::TooltipTick => post == pre && cmd == Command::Nothing,
        Message::TooltipClose => post == DreamBreaker { tooltip_item: None, tooltip_visible: false, ..pre } && cmd == Command::Nothing,
        Message::CellHovered(idx) => post == DreamBreaker { hovered_cell: idx, ..pre } && cmd == Command::Nothing,
        Message::SetWindowMode(mode) => {
            &&& post == DreamBreaker { window_mode: mode, ..pre }
            &&& cmd == Command::ApplyWindowMode { fullscreen: mode != WindowMode::Window }
        },
        Message::DbConnected(Ok(())) => {
            &&& post == DreamBreaker { status: post.status, db_connected: true, ..pre }
            &&& post.status@ == "Применяю миграции..."@
            &&& cmd == Command::RunMigrations
        },
        Message::DbConnected(Err(e)) => status_set(pre, post, "Ошибка подключения: "@ + e.0@) && cmd == Command::Nothing,
        Message::MigrationsApplied(Ok(())) => status_set(pre, post, "Готово"@) && cmd == if_connected(pre, Command::ListUsers),
        Message::MigrationsApplied(Err(e)) => status_set(pre, post, "Ошибка миграций: "@ + e.0@) && cmd == Command::Nothing,
        Message::UsersLoaded(Ok(users)) => post == DreamBreaker { users: users, ..pre } && cmd == Command::Nothing,
        Message::UsersLoaded(Err(_)) => post == pre && cmd == Command::Nothing,
        Message::GamesLoaded(Ok(games)) => post == DreamBreaker { games: games, ..pre } && cmd == Command::Nothing,
        Message::GamesLoaded(Err(e)) => status_set(pre, post, "Ошибка загрузки игр: "@ + e.0@) && cmd == Command::Nothing,
        Message::ActiveGameChecked(Ok(found)) => post == DreamBreaker { has_active_game: Some(found is Some), ..pre } && cmd == Command::Nothing,
        Message::ActiveGameChecked(Err(_)) => post == DreamBreaker { has_active_game: Some(false), ..pre } && cmd == Command::Nothing,
        Message::UserGamesLoaded(Ok(rows)) => post == DreamBreaker { user_games: rows, ..pre } && cmd == Command::Nothing,
        Message::UserGamesLoaded(Err(e)) => status_set(pre, post, "Ошибка загрузки игр: "@ + e.0@) && cmd == Command::Nothing,
        Message::StatsLoaded(Ok(stats)) => post == DreamBreaker { user_stats: Some(stats), show_stats: true, ..pre } && cmd == Command::Nothing,
        Message::StatsLoaded(Err(e)) => status_set(pre, post, "Ошибка загрузки статистики: "@ + e.0@) && cmd == Command::Nothing,
        Message::RollDice => exists|seed: u32| seed < 1_000_000_000 && roll_dice_post(pre, post, cmd, seed),
        Message::OpenShop(shop) => {
            &&& post == pre
            &&& cmd == match session(pre) {
                Some((g, u)) => Command::GetShopSlots { shop: shop, game: g, user: u },
                None => Command::Nothing,
            }
        },
        Message::ShopSlotsLoaded(Ok(slots)) => post == DreamBreaker { shop_slots: slots, ..pre } && cmd == Command::Nothing,
        Message::ShopSlotsLoaded(Err(e)) => status_set(pre, post, "Ошибка загрузки магазина: "@ + e.0@) && cmd == Command::Nothing,
        Message::BuyShopSlot(slot) => {
            &&& post == pre
            &&& cmd == match session(pre) {
                Some((g, u)) => Command::BuyShopSlot { slot: slot, game: g, user: u },
                None => Command::Nothing,
            }
        },
        Message::ShopSlotBought(Ok(st)) => shop_change_post(pre, post, cmd, st, "Усиление куплено"@, true),
        Message::ShopSlotBought(Err(e)) => game_error_post(pre, post, cmd, e, "Ошибка покупки: "@),
        Message::InventoryReloaded(Ok(items)) => post == DreamBreaker { inventory: items, ..pre } && cmd == Command::Nothing,
        Message::InventoryReloaded(Err(e)) => status_set(pre, post, "Ошибка обновления инвентаря: "@ + e.0@) && cmd == Command::Nothing,
        Message::SellPowerUp(pu) => {
            &&& tooltip_reset(pre, post)
            &&& cmd == match session(pre) {
                Some((g, u)) => Command::SellPowerUp { game: g, user: u, power_up: pu },
                None => Command::Nothing,
            }
        },
        Message::PowerUpSold(Ok(st)) => {
            &&& post == DreamBreaker { player_state: Some(st), status: post.status, ..pre }
            &&& post.status@ == "Усиление продано"@
            &&& cmd == match session(pre) {
                Some((g, u)) => Command::GetPlayerInventory { game: g, user: u },
                None => Command::Nothing,
            }
        },
        Message::PowerUpSold(Err(e)) => game_error_post(pre, post, cmd, e, "Ошибка продажи: "@),
        Message::TogglePropertyMgmt => {
            &&& post == DreamBreaker { show_property_mgmt: !pre.show_property_mgmt, ..pre }
            &&& cmd == if pre.show_property_mgmt {
                Command::Nothing
            } else {
                match session(pre) {
                    Some((g, u)) => Command::GetPlayerProperties { game: g, user: u },
                    None => Command::Nothing,
                }
            }
        },
        Message::SelectProperty(i) => post == DreamBreaker { selected_property: Some(i), ..pre } && cmd == Command::Nothing,
        Message::PropertiesLoaded(Ok(props)) => {
            &&& post == DreamBreaker {
                player_properties: props,
                selected_property: match pre.selected_property {
                    Some(i) => if i >= props@.len() { None } else { Some(i) },
                    None => None,
                },
                ..pre
            }
            &&& cmd == Command::Nothing
        },
        Message::PropertiesLoaded(Err(e)) => status_set(pre, post, "Ошибка загрузки собственностей: "@ + e.0@) && cmd == Command::Nothing,
        Message::InstallUpgrade { property_id, power_up_id } => {
            &&& post == pre
            &&& cmd == match session(pre) {
                Some((g, u)) => Command::InstallUpgrade { game: g, user: u, property: property_id, power_up: power_up_id },
                None => Command::Nothing,
            }
        },
        Message::UpgradeInstalled(Ok(r)) => upgrade_done_post(pre, post, cmd, r, "Усиление установлено"@, "Нельзя установить: "@),
        Message::UpgradeInstalled(Err(e)) => status_set(pre, post, "Ошибка установки: "@ + e.0@) && cmd == Command::Nothing,
        Message::UninstallUpgrade { property_id, power_up_id } => {
            &&& tooltip_reset(pre, post)
            &&& cmd == match session(pre) {
                Some((g, u)) => Command::UninstallUpgrade { game: g, user: u, property: property_id, power_up: power_up_id },
                None => Command::Nothing,
            }
        },
        Message::UpgradeUninstalled(Ok(r)) => upgrade_done_post(pre, post, cmd, r, "Усиление возвращено в инвентарь"@, "Нельзя извлечь: "@),
        Message::UpgradeUninstalled(Err(e)) => status_set(pre, post, "Ошибка извлечения: "@ + e.0@) && cmd == Command::Nothing,
        Message::RerollShop(shop) => {
            &&& post == pre
            &&& cmd == match session(pre) {
                Some((g, u)) => Command::RerollShop { shop: shop, game: g, user: u },
                None => Command::Nothing,
            }
        },
        Message::ShopRerolled(Ok(st)) => shop_change_post(pre, post, cmd, st, "Магазин обновлён"@, false),
        Message::ShopRerolled(Err(e)) => game_error_post(pre, post, cmd, e, "Ошибка реролла: "@),
        Message::EndTurn => end_turn_post(pre, post, cmd),
        Message::TurnSaved(Ok(ns)) => turn_saved_post(pre, post, cmd, ns),
        Message::TurnSaved(Err(e)) => game_error_post(pre, post, cmd, e, "Ошибка сохранения хода: "@),
        Message::BotsLoaded(Ok(bots)) => exists|seed: u32| seed < 1_000_000_000 && bots_loaded_post(pre, post, cmd, bots, seed),
        Message::BotsLoaded(Err(e)) => {
            &&& status_set(pre, post, "Ошибка загрузки ботов: "@ + e.0@)
            &&& cmd == match pre.active_game_id {
                Some(g) => if_connected(pre, Command::GetAllBalances { game: g }),
                None => Command::Nothing,
            }
        },
        Message::BotsRefreshed(Ok(bots)) => post == DreamBreaker { bot_participants: bots, ..pre } && cmd == Command::Nothing,
        Message::BotsRefreshed(Err(_)) => post == pre && cmd == Command::Nothing,
        Message::PlayerStateRefreshed(Ok(Some(st))) => post == DreamBreaker { player_state: Some(st), ..pre } && cmd == Command::Nothing,
        Message::PlayerStateRefreshed(_) => post == pre && cmd == Command::Nothing,
        Message::BotTurnDone(Ok(r)) => exists|seed: u32| seed < 1_000_000_000 && bot_turn_ok_post(pre, post, cmd, r, seed),
        Message::BotTurnDone(Err(e)) => exists|seed: u32| 13 <= seed < 1_000_000_013 && bot_turn_err_post(pre, post, cmd, e, seed),
        Message::BalancesLoaded(Ok(rows)) => balances_post(pre, post, cmd, rows@),
        Message::BalancesLoaded(Err(e)) => status_set(pre, post, "Ошибка проверки балансов: "@ + e.0@) && cmd == Command::Nothing,
        Message::BuyProperty => match (pre.cell_action, session(pre)) {
            (Some(CellAction::CanBuy { cell_index, .. }), Some((g, u))) => {
                &&& post == DreamBreaker { cell_action: None, ..pre }
                &&& cmd == Command::BuyProperty { game: g, user: u, cell: cell_index }
            },
            _ => post == pre && cmd == Command::Nothing,
        },
        Message::SkipAction => {
            &&& post == DreamBreaker {
                cell_action: None,
                shop_slots: post.shop_slots,
                tooltip_item: None,
                tooltip_visible: false,
                tooltip_locked: false,
                ..pre
            }
            &&& post.shop_slots@.len() == 0
            &&& cmd == Command::Nothing
        },
        Message::PropertyBought(Ok(st)) => {
            &&& post == DreamBreaker { player_state: Some(st), status: post.status, ..pre }
            &&& post.status@ == "Собственность куплена"@
            &&& cmd == match pre.active_game_id {
                Some(g) => if_connected(pre, Command::GetBoardCells { game: g }),
                None => Command::Nothing,
            }
        },
        Message::PropertyBought(Err(e)) => game_error_post(pre, post, cmd, e, "Ошибка покупки: "@),
        Message::RentPaid(Ok(st)) => payment_post(pre, post, cmd, st, "Аренда: -"@, "Аренда уплачена, завершаю ход..."@),
        Message::RentPaid(Err(e)) => game_error_post(pre, post, cmd, e, "Ошибка аренды: "@),
        Message::TaxPaid(Ok(st)) => payment_post(pre, post, cmd, st, "Налог: -"@, "Налог уплачен, завершаю ход..."@),
        Message::TaxPaid(Err(e)) => game_error_post(pre, post, cmd, e, "Ошибка налога: "@),
        Message::BoardReloaded(Ok(cells)) => {
            &&& post == DreamBreaker { board_cells: cells, ..pre }
            &&& cmd == match session(pre) {
                Some((g, u)) => Command::GetPlayerProperties { game: g, user: u },
                None => Command::Nothing,
            }
        },
        Message::BoardReloaded(Err(_)) => post == pre && cmd == Command::Nothing,
        Message::StaleGamesReset => post == pre && cmd == Command::Nothing,
    }
}

/// The machine-integer limits of a step: a message may be handled only where its
/// arithmetic stays in range.
pub open spec fn step_requires(s: DreamBreaker, msg: Message) -> bool {
    match msg {
        Message::GameBalanceIncrease => {
            &&& s.create_game_balance <= i64::MAX - 100
            &&& (s.create_game_target_balance <= s.create_game_balance + 100 ==> s.create_game_balance <= i64::MAX - 200)
        },
        Message::GameMaxTurnsIncrease => s.create_game_max_turns <= i32::MAX - 2,
        Message::GameTargetBalanceIncrease => s.create_game_target_balance <= i64::MAX - 100,
        Message::GameTargetBalanceDecrease => s.create_game_balance <= i64::MAX - 100,
        Message::RollDice => s.turn_phase == TurnPhase::WaitingRoll ==> s.local_player_pos <= i32::MAX - 12,
        _ => true,
    }
}

// ---------------------------------------------------------------------------
// Replies the shell turns into messages

/// The message for the reply to [`Command::LoginAfterRegister`]: the new user logs in, or the
/// login fails with the reason.
pub fn registered_user_message(res: Result<Option<User>, DbError>) -> (m: Message)
    ensures
        match res {
            Ok(Some(u)) => m == Message::LoginDone(Ok(u)),
            Ok(None) => m matches Message::LoginDone(Err(e)) && e.0@ == "Пользователь не найден"@,
            Err(e) => m == Message::LoginDone(Err(e)),
        },
{
    match res {
        Ok(Some(u)) => Message::LoginDone(Ok(u)),
        Ok(None) => Message::LoginDone(Err(DbError(string_of("Пользователь не найден")))),
        Err(e) => Message::LoginDone(Err(e)),
    }
}

/// The message for the reply to [`Command::GetLatestUserGame`]: load that game, go back to
/// the menu when there is none, or report the error.
pub fn latest_game_message(res: Result<Option<Id>, DbError>) -> (m: Message)
    ensures
        match res {
            Ok(Some(g)) => m == Message::LoadGame(g),
            Ok(None) => m == Message::BackToMenu,
            Err(e) => m == Message::UserGamesLoaded(Err(e)),
        },
{
    match res {
        Ok(Some(g)) => Message::LoadGame(g),
        Ok(None) => Message::BackToMenu,
        Err(e) => Message::UserGamesLoaded(Err(e)),
    }
}

/// Whether a database error says that the game is already over.
pub fn is_game_over_error(e: &DbError) -> (r: bool)
    ensures
        r == is_game_over_spec(*e),
{
    contains_text(e.0.as_str(), "GAME_OVER")
}

fn two(a: Command, b: Command) -> (c: Command)
    ensures
        is_batch(c, seq![a, b]),
{
    let mut v: Vec<Command> = Vec::new();
    v.push(a);
    v.push(b);
    assert(v@ =~= seq![a, b]);
    Command::Batch(v)
}

fn copy_id(i: &Id) -> (r: Id)
    ensures
        r == *i,
{
    Id(i.0)
}

impl DreamBreaker {
    /// A fresh client on the main menu.
    pub fn initial() -> (s: DreamBreaker)
        ensures
            fresh(s),
            s.status@ == Seq::<char>::empty(),
    {
        DreamBreaker {
            screen: Screen::Menu,
            db_connected: false,
            status: String::new(),
            current_user: None,
            profile_menu_open: false,
            users: Vec::new(),
            input_username: String::new(),
            input_password: String::new(),
            input_password2: String::new(),
            form_error: String::new(),
            games: Vec::new(),
            has_active_game: None,
            user_games: Vec::new(),
            create_game_balance: 1000,
            create_game_max_turns: 50,
            create_game_target_balance: 2500,
            active_game_id: None,
            game_rules: None,
            player_state: None,
            board_cells: Vec::new(),
            inventory: Vec::new(),
            game_menu_open: false,
            dice_roll: None,
            local_player_pos: 0,
            rolled_from: 0,
            turn_phase: TurnPhase::WaitingRoll,
            cell_action: None,
            shop_slots: Vec::new(),
            game_result: None,
            user_stats: None,
            show_stats: false,
            show_property_mgmt: false,
            player_properties: Vec::new(),
            selected_property: None,
            bot_participants: Vec::new(),
            bot_turn_queue: Vec::new(),
            bot_turn_names: Vec::new(),
            bot_turn_log: Vec::new(),
            tooltip_item: None,
            tooltip_visible: false,
            tooltip_locked: false,
            income_log: Vec::new(),
            start_log: Vec::new(),
            rent_received_log: Vec::new(),
            hovered_cell: None,
            window_mode: WindowMode::Window,
            settings_from_game: false,
        }
    }

    /// The client at start-up, given the database address from the environment: it connects
    /// when there is one and says that it is missing otherwise.
    pub fn new(database_url: Option<String>) -> (r: (DreamBreaker, Command))
        ensures
            fresh(r.0),
            match database_url {
                Some(url) => r.0.status@ == "Подключение к БД..."@ && r.1 == Command::Connect { url: url },
                None => r.0.status@ == "Ошибка: DATABASE_URL не задана."@ && r.1 == Command::Nothing,
            },
    {
        let mut s = DreamBreaker::initial();
        match database_url {
            Some(url) => {
                s.status = string_of("Подключение к БД...");
                (s, Command::Connect { url })
            },
            None => {
                s.status = string_of("Ошибка: DATABASE_URL не задана.");
                (s, Command::Nothing)
            },
        }
    }

    /// The id of the logged-in user.
    pub fn user_id(&self) -> (r: Option<Id>)
        ensures
            r == uid(*self),
    {
        match &self.current_user {
            Some(u) => Some(copy_id(&u.0)),
            None => None,
        }
    }

    /// The open game and the logged-in user, when the database is connected.
    pub fn game_session(&self) -> (r: Option<(Id, Id)>)
        ensures
            r == session(*self),
    {
        if !self.db_connected {
            return None;
        }
        match (self.active_game_id, self.user_id()) {
            (Some(g), Some(u)) => Some((g, u)),
            _ => None,
        }
    }

    /// Empties the form inputs and the form error.
    pub fn clear_form(&mut self)
        ensures
            *final(self) == (DreamBreaker {
                input_username: final(self).input_username,
                input_password: final(self).input_password,
                input_password2: final(self).input_password2,
                form_error: final(self).form_error,
                ..*old(self)
            }),
            form_clear(*final(self)),
    {
        self.input_username = String::new();
        self.input_password = String::new();
        self.input_password2 = String::new();
        self.form_error = String::new();
    }

    fn set_status(&mut self, text: &str)
        ensures
            status_set(*old(self), *final(self), text@),
    {
        self.status = string_of(text);
    }

    fn report(&mut self, prefix: &str, e: &DbError)
        ensures
            status_set(*old(self), *final(self), prefix@ + e.0@),
    {
        self.status = join2(prefix, e.0.as_str());
    }

    /// Leaves a game that the database says is over: back to the menu, with `reason` as the
    /// status and nothing of the game kept.
    pub fn force_exit_to_menu(&mut self, reason: &str) -> (cmd: Command)
        ensures
            force_exit_post(*old(self), *final(self), reason@),
            cmd == Command::Nothing,
    {
        self.status = string_of(reason);
        self.screen = Screen::Menu;
        self.active_game_id = None;
        self.player_state = None;
        self.game_rules = None;
        self.board_cells.clear();
        self.inventory.clear();
        self.player_properties.clear();
        self.dice_roll = None;
        self.turn_phase = TurnPhase::WaitingRoll;
        self.cell_action = None;
        self.shop_slots.clear();
        self.tooltip_item = None;
        self.tooltip_visible = false;
        self.tooltip_locked = false;
        self.bot_participants.clear();
        self.bot_turn_queue.clear();
        self.bot_turn_names.clear();
        self.bot_turn_log.clear();
        self.income_log.clear();
        self.start_log.clear();
        self.rent_received_log.clear();
        self.show_property_mgmt = false;
        self.selected_property = None;
        self.game_menu_open = false;
        Command::Nothing
    }

    fn game_error(&mut self, e: DbError, prefix: &str) -> (cmd: Command)
        ensures
            game_error_post(*old(self), *final(self), cmd, e, prefix@),
    {
        if is_game_over_error(&e) {
            self.force_exit_to_menu("Игра уже завершена")
        } else {
            self.report(prefix, &e);
            Command::Nothing
        }
    }

    fn open_form(&mut self, screen: Screen) -> (cmd: Command)
        ensures
            open_form_post(*old(self), *final(self), cmd, screen),
    {
        self.screen = screen;
        self.profile_menu_open = false;
        self.clear_form();
        Command::Nothing
    }

    fn back_to_menu(&mut self) -> (cmd: Command)
        ensures
            back_to_menu_post(*old(self), *final(self), cmd),
    {
        if self.settings_from_game {
            self.settings_from_game = false;
            self.screen = Screen::Game;
        } else {
            self.screen = Screen::Menu;
            self.profile_menu_open = false;
            self.clear_form();
            self.local_player_pos = 0;
            self.player_state = None;
            self.game_rules = None;
            self.board_cells.clear();
            self.active_game_id = None;
            self.dice_roll = None;
            self.turn_phase = TurnPhase::WaitingRoll;
            self.cell_action = None;
        }
        Command::Nothing
    }

    fn logout(&mut self) -> (cmd: Command)
        ensures
            logout_post(*old(self), *final(self), cmd),
    {
        self.current_user = None;
        self.has_active_game = None;
        self.active_game_id = None;
        self.game_rules = None;
        self.player_state = None;
        self.board_cells.clear();
        self.inventory.clear();
        self.game_result = None;
        self.user_stats = None;
        self.show_stats = false;
        self.screen = Screen::Menu;
        self.profile_menu_open = false;
        self.status = string_of("Вы вышли из аккаунта");
        Command::Nothing
    }

    fn submit_login(&mut self) -> (cmd: Command)
        ensures
            submit_login_post(*old(self), *final(self), cmd),
    {
        let username = trim_text(self.input_username.as_str());
        let password = self.input_password.clone();
        if username.as_str().is_empty() || password.as_str().is_empty() {
            self.form_error = string_of("Заполни все поля");
            return Command::Nothing;
        }
        self.form_error = String::new();
        self.status = string_of("Проверка пароля...");
        if self.db_connected {
            Command::Authenticate { username, password }
        } else {
            self.form_error = string_of("БД не подключена");
            Command::Nothing
        }
    }

    fn login_done(&mut self, user: User) -> (cmd: Command)
        ensures
            login_ok_post(*old(self), *final(self), cmd, user),
    {
        let id = copy_id(&user.id);
        let name = user.username.clone();
        self.current_user = Some((id, name));
        self.status = join3("Добро пожаловать, ", user.username.as_str(), "!");
        self.screen = Screen::Menu;
        self.clear_form();
        self.has_active_game = None;
        if self.db_connected {
            let mut v: Vec<Command> = Vec::new();
            v.push(Command::ListUsers);
            v.push(Command::CheckActiveGame { user: id });
            v.push(Command::ResetStaleGames { user: id });
            assert(v@ =~= seq![
                Command::ListUsers,
                Command::CheckActiveGame { user: user.id },
                Command::ResetStaleGames { user: user.id },
            ]);
            Command::Batch(v)
        } else {
            Command::Nothing
        }
    }

    fn submit_register(&mut self) -> (cmd: Command)
        ensures
            submit_register_post(*old(self), *final(self), cmd),
    {
        let username = trim_text(self.input_username.as_str());
        let password = self.input_password.clone();
        let problem = registration_problem_text(username.as_str(), password.as_str(), self.input_password2.as_str());
        match problem {
            Some(text) => {
                self.form_error = text;
                Command::Nothing
            },
            None => {
                self.form_error = String::new();
                self.status = string_of("Создание аккаунта...");
                if self.db_connected {
                    Command::Register { username, password }
                } else {
                    self.form_error = string_of("БД не подключена");
                    Command::Nothing
                }
            },
        }
    }

    fn register_done(&mut self, id: Id) -> (cmd: Command)
        ensures
            register_ok_post(*old(self), *final(self), cmd, id),
    {
        self.status = string_of("Аккаунт создан!");
        self.clear_form();
        if self.db_connected {
            Command::LoginAfterRegister { user: id }
        } else {
            self.screen = Screen::Login;
            Command::Nothing
        }
    }

    fn register_failed(&mut self, e: DbError) -> (cmd: Command)
        ensures
            register_err_post(*old(self), *final(self), cmd, e),
    {
        if contains_text(e.0.as_str(), "duplicate") || contains_text(e.0.as_str(), "unique") {
            self.form_error = string_of("Имя уже занято");
        } else {
            self.form_error = e.0.clone();
        }
        self.status = string_of("Ошибка регистрации");
        Command::Nothing
    }

    /// Submits the new-game form with the clock reading `seed`.
    pub fn create_game_with_seed(&mut self, seed: i64) -> (cmd: Command)
        ensures
            create_game_post(*old(self), *final(self), cmd, seed),
    {
        let user = match self.user_id() {
            Some(u) => u,
            None => {
                self.set_status("Ты не залогинен");
                return Command::Nothing;
            },
        };
        if self.db_connected {
            self.set_status("Создаю игру...");
            Command::CreateGame {
                seed,
                starting_balance: self.create_game_balance,
                max_turns: self.create_game_max_turns,
                target_balance: self.create_game_target_balance,
                user,
            }
        } else {
            self.set_status("БД не подключена");
            Command::Nothing
        }
    }

    fn create_game_submit(&mut self) -> (cmd: Command)
        ensures
            exists|seed: i64| create_game_post(*old(self), *final(self), cmd, seed),
    {
        if self.user_id().is_none() {
            let cmd = self.create_game_with_seed(0);
            return cmd;
        }
        let seed = unix_now_seconds();
        self.create_game_with_seed(seed)
    }

    fn game_created(&mut self, g: Id) -> (cmd: Command)
        ensures
            step(*old(self), Message::GameCreated(Ok(g)), *final(self), cmd),
    {
        self.status = string_of("Игра создана, загружаю...");
        self.active_game_id = Some(g);
        self.has_active_game = Some(true);
        match self.user_id() {
            Some(u) => if self.db_connected { Command::LoadGameScreen { game: g, user: u } } else { Command::Nothing },
            None => Command::Nothing,
        }
    }

    fn continue_game(&mut self) -> (cmd: Command)
        ensures
            step(*old(self), Message::ContinueGame, *final(self), cmd),
    {
        match self.user_id() {
            None => {
                self.set_status("Ты не залогинен");
                Command::Nothing
            },
            Some(u) => {
                self.set_status("Загружаю последнюю игру...");
                if self.db_connected { Command::GetLatestUserGame { user: u } } else { Command::Nothing }
            },
        }
    }

    fn load_game(&mut self, g: Id) -> (cmd: Command)
        ensures
            step(*old(self), Message::LoadGame(g), *final(self), cmd),
    {
        match self.user_id() {
            None => {
                self.set_status("Ты не залогинен");
                Command::Nothing
            },
            Some(u) => {
                self.active_game_id = Some(g);
                self.status = string_of("Загружаю игру...");
                if self.db_connected { Command::LoadGameScreen { game: g, user: u } } else { Command::Nothing }
            },
        }
    }

    fn screen_loaded(&mut self, gs: GameScreen) -> (cmd: Command)
        ensures
            screen_loaded_post(*old(self), *final(self), cmd, gs),
    {
        let GameScreen { rules, state, cells, inventory, properties } = gs;
        self.local_player_pos = state.position;
        self.turn_phase = TurnPhase::WaitingRoll;
        self.dice_roll = None;
        self.game_rules = Some(rules);
        self.player_state = Some(state);
        self.board_cells = cells;
        self.inventory = inventory;
        self.player_properties = properties;
        self.screen = Screen::Game;
        self.game_menu_open = false;
        self.status = string_of("Игра загружена");
        self.bot_turn_queue.clear();
        self.bot_turn_names.clear();
        self.bot_turn_log.clear();
        self.bot_participants.clear();
        self.show_property_mgmt = false;
        self.selected_property = None;
        Command::Nothing
    }

    fn leave_game(&mut self, pause: bool) -> (cmd: Command)
        ensures
            leave_game_post(*old(self), *final(self), cmd, pause),
    {
        self.game_menu_open = false;
        match self.game_session() {
            Some((g, u)) => if pause {
                Command::PauseGame { game: g, user: u }
            } else {
                Command::SurrenderGame { game: g, user: u }
            },
            None => {
                self.screen = Screen::Menu;
                Command::Nothing
            },
        }
    }

    fn game_paused(&mut self) -> (cmd: Command)
        ensures
            paused_post(*old(self), *final(self), cmd),
    {
        self.screen = Screen::Menu;
        self.has_active_game = Some(true);
        self.status = string_of("Игра сохранена");
        self.local_player_pos = 0;
        self.player_state = None;
        self.game_rules = None;
        self.board_cells.clear();
        self.inventory.clear();
        self.player_properties.clear();
        self.dice_roll = None;
        self.turn_phase = TurnPhase::WaitingRoll;
        self.cell_action = None;
        self.shop_slots.clear();
        self.tooltip_item = None;
        self.tooltip_visible = false;
        self.tooltip_locked = false;
        self.bot_participants.clear();
        self.bot_turn_queue.clear();
        self.bot_turn_names.clear();
        self.bot_turn_log.clear();
        self.show_property_mgmt = false;
        self.selected_property = None;
        self.game_menu_open = false;
        Command::Nothing
    }

    /// Rolls the dice with the clock reading `seed`: moves the piece and works out what the
    /// cell asks; a shop's slots are fetched at once.
    pub fn roll_dice_with_seed(&mut self, seed: u32) -> (cmd: Command)
        requires
            old(self).turn_phase == TurnPhase::WaitingRoll ==> old(self).local_player_pos <= i32::MAX - 12,
        ensures
            roll_dice_post(*old(self), *final(self), cmd, seed),
    {
        if self.turn_phase != TurnPhase::WaitingRoll {
            return Command::Nothing;
        }
        self.income_log.clear();
        self.start_log.clear();
        self.rent_received_log.clear();
        if let (Some(state), Some(rules)) = (&self.player_state, &self.game_rules) {
            if state.moves_made >= rules.max_turns {
                return Command::Nothing;
            }
        }
        let (d1, d2) = dice_from_seed(seed);
        self.dice_roll = Some((d1, d2));
        self.rolled_from = self.local_player_pos;
        self.local_player_pos = advance_position(self.local_player_pos, d1, d2);
        self.turn_phase = TurnPhase::Rolled;
        self.shop_slots = Vec::new();
        let new_pos = self.local_player_pos;
        let user = self.user_id();
        let action = landing_action(&self.board_cells, new_pos, user);
        let ghost landed = action;
        self.cell_action = action;
        match &self.cell_action {
            Some(CellAction::Shop { shop_id }) => {
                let shop = copy_id(shop_id);
                match self.game_session() {
                    Some((g, u)) => Command::GetShopSlots { shop, game: g, user: u },
                    None => Command::Nothing,
                }
            },
            _ => Command::Nothing,
        }
    }

    fn roll_dice(&mut self) -> (cmd: Command)
        requires
            step_requires(*old(self), Message::RollDice),
        ensures
            exists|seed: u32| seed < 1_000_000_000 && roll_dice_post(*old(self), *final(self), cmd, seed),
    {
        let seed = clock_subsec_nanos();
        self.roll_dice_with_seed(seed)
    }

    fn shop_change(&mut self, st: ParticipantState, text: &str, bought: bool) -> (cmd: Command)
        ensures
            shop_change_post(*old(self), *final(self), cmd, st, text@, bought),
    {
        self.player_state = Some(st);
        self.status = string_of(text);
        let (g, u) = match self.game_session() {
            Some(s) => s,
            None => return Command::Nothing,
        };
        let shop = match &self.cell_action {
            Some(CellAction::Shop { shop_id }) => copy_id(shop_id),
            _ => return Command::Nothing,
        };
        if bought {
            two(Command::GetShopSlots { shop, game: g, user: u }, Command::GetPlayerInventory { game: g, user: u })
        } else {
            Command::GetShopSlots { shop, game: g, user: u }
        }
    }

    fn reset_tooltip(&mut self)
        ensures
            tooltip_reset(*old(self), *final(self)),
    {
        self.tooltip_visible = false;
        self.tooltip_locked = false;
        self.tooltip_item = None;
    }

    fn upgrade_done(&mut self, result: String, ok_text: &str, refused: &str) -> (cmd: Command)
        ensures
            upgrade_done_post(*old(self), *final(self), cmd, result, ok_text@, refused@),
    {
        if str_equals(result.as_str(), "ok") {
            self.status = string_of(ok_text);
        } else {
            self.status = join2(refused, result.as_str());
        }
        match self.game_session() {
            Some((g, u)) => two(Command::GetPlayerProperties { game: g, user: u }, Command::GetPlayerInventory { game: g, user: u }),
            None => Command::Nothing,
        }
    }

    fn end_turn(&mut self) -> (cmd: Command)
        ensures
            end_turn_post(*old(self), *final(self), cmd),
    {
        if self.turn_phase != TurnPhase::Rolled {
            return Command::Nothing;
        }
        self.shop_slots = Vec::new();
        self.tooltip_item = None;
        self.tooltip_visible = false;
        self.tooltip_locked = false;
        let (g, u) = match self.game_session() {
            Some(s) => s,
            None => return Command::Nothing,
        };
        let cmd = match &self.cell_action {
            Some(CellAction::MustPayRent { cell_index, .. }) => Command::PayRent { game: g, user: u, cell: *cell_index },
            Some(CellAction::Tax) => Command::PayTax { game: g, user: u },
            _ => Command::CommitMove { game: g, user: u, position: self.local_player_pos },
        };
        self.cell_action = None;
        cmd
    }

    fn turn_saved(&mut self, ns: ParticipantState) -> (cmd: Command)
        ensures
            turn_saved_post(*old(self), *final(self), cmd, ns),
    {
        let old_balance: i64 = match &self.player_state {
            Some(s) => s.balance,
            None => 0,
        };
        let bonus = start_bonus(old_balance, ns.position, self.rolled_from);
        let diff: i128 = ns.balance as i128 - old_balance as i128;
        self.player_state = Some(ns);
        self.turn_phase = TurnPhase::WaitingRoll;
        self.dice_roll = None;
        self.status = turn_saved_status(diff);
        self.bot_turn_log.clear();
        self.start_log = start_log_for(bonus);
        self.rent_received_log.clear();
        match self.active_game_id {
            Some(g) => if self.db_connected { Command::LoadBots { game: g } } else { Command::Nothing },
            None => Command::Nothing,
        }
    }
}

fn turn_saved_status(diff: i128) -> (r: String)
    ensures
        r@ == turn_saved_text(diff as int),
{
    if diff >= 400 {
        string_of("Ход завершён. Вы встали на СТАРТ! +400")
    } else if diff >= 200 {
        string_of("Ход завершён. Вы прошли СТАРТ! +200")
    } else {
        string_of("Ход завершён. Боты ходят...")
    }
}

fn start_log_for(bonus: i64) -> (v: Vec<String>)
    ensures
        views(v@) == (if bonus == 400 {
            seq!["Встали на СТАРТ: +400"@]
        } else if bonus == 200 {
            seq!["Прошли СТАРТ: +200"@]
        } else {
            Seq::<Seq<char>>::empty()
        }),
{
    let mut v: Vec<String> = Vec::new();
    if bonus == 400 {
        v.push(string_of("Встали на СТАРТ: +400"));
    } else if bonus == 200 {
        v.push(string_of("Прошли СТАРТ: +200"));
    }
    assert(views(v@) =~= (if bonus == 400 {
        seq!["Встали на СТАРТ: +400"@]
    } else if bonus == 200 {
        seq!["Прошли СТАРТ: +200"@]
    } else {
        Seq::<Seq<char>>::empty()
    }));
    v
}


proof fn lemma_views_push(v: Seq<String>, x: String)
    ensures
        views(v.push(x)) == views(v).push(x@),
{
    assert(views(v.push(x)) =~= views(v).push(x@));
}

proof fn lemma_views_insert_front(v: Seq<String>, x: String)
    ensures
        views(v.insert(0, x)) == seq![x@] + views(v),
{
    assert(views(v.insert(0, x)) =~= seq![x@] + views(v));
}

proof fn lemma_views_drop_first(v: Seq<String>)
    requires
        v.len() > 0,
    ensures
        views(v.remove(0)) == views(v).drop_first(),
        views(v)[0] == v[0]@,
{
    assert(views(v.remove(0)) =~= views(v).drop_first());
}

fn bot_move_status(name: &str, d1: i32, d2: i32, dice_word: bool) -> (r: String)
    requires
        1 <= d1 <= 6,
        1 <= d2 <= 6,
    ensures
        r@ == bot_move_text(name@, d1 as int, d2 as int, dice_word),
{
    let mut r = join2("Ходит ", name);
    if dice_word {
        push_str(&mut r, "... (кубик: ");
    } else {
        push_str(&mut r, "... (");
    }
    push_decimal(&mut r, d1 as i64);
    push_str(&mut r, "+");
    push_decimal(&mut r, d2 as i64);
    push_str(&mut r, "=");
    push_decimal(&mut r, (d1 + d2) as i64);
    push_str(&mut r, ")");
    assert(r@ =~= bot_move_text(name@, d1 as int, d2 as int, dice_word));
    r
}

fn bot_action_string(r: &BotTurnResult) -> (t: String)
    ensures
        t@ == bot_action_text(*r),
{
    let detail = r.action_detail.as_str();
    if str_equals(r.action.as_str(), "bought") {
        join3("купил «", detail, "»")
    } else if str_equals(r.action.as_str(), "rent_paid") {
        let (cell_name, amount) = split_once_text(detail, ':');
        let amount = match amount {
            Some(a) => a,
            None => string_of("?"),
        };
        let mut t = join3("заплатил аренду ", amount.as_str(), " за «");
        push_str(&mut t, cell_name.as_str());
        push_str(&mut t, "»");
        t
    } else if str_equals(r.action.as_str(), "tax_paid") {
        join2("заплатил налог ", detail)
    } else if str_equals(r.action.as_str(), "bankrupt") {
        join3("💀 БАНКРОТ (", detail, ")")
    } else if str_equals(r.action.as_str(), "start_bonus") {
        join2("прошёл СТАРТ +", detail)
    } else {
        string_of("пропустил ход")
    }
}

fn owns_named(cells: &Vec<BoardCell>, name: &str, user: Id) -> (r: bool)
    ensures
        r == player_owns_named(cells@, name@, user),
{
    let mut i: usize = 0;
    while i < cells.len()
        invariant
            i <= cells@.len(),
            forall|k: int| 0 <= k < i ==> !owned_named(#[trigger] cells@[k], name@, user),
        decreases cells@.len() - i,
    {
        let c = &cells[i];
        let named = match &c.prop_name {
            Some(n) => str_equals(n.as_str(), name),
            None => false,
        };
        let owned = match c.owner_user_id {
            Some(o) => o.0 == user.0,
            None => false,
        };
        if named && owned {
            assert(owned_named(cells@[i as int], name@, user));
            return true;
        }
        i = i + 1;
    }
    false
}

fn take_name(names: &mut Vec<String>) -> (r: String)
    ensures
        r@ == current_bot_name(views(old(names)@)),
        views(final(names)@) == names_after_pop(views(old(names)@)),
{
    if names.len() > 0 {
        proof {
            lemma_views_drop_first(old(names)@);
        }
        let r = names.remove(0);
        r
    } else {
        string_of("Бот")
    }
}

impl DreamBreaker {
    /// The bots of the round arrived: queue them and start the first one's turn with the
    /// clock reading `seed`.
    pub fn bots_loaded_with_seed(&mut self, bots: Vec<BotParticipant>, seed: u32) -> (cmd: Command)
        ensures
            bots_loaded_post(*old(self), *final(self), cmd, bots, seed),
    {
        let ghost ids = bots@.map_values(|b: BotParticipant| b.user_id);
        let ghost names_v = bots@.map_values(|b: BotParticipant| b.username@);
        let mut queue: Vec<Id> = Vec::new();
        let mut names: Vec<String> = Vec::new();
        let mut i: usize = 0;
        while i < bots.len()
            invariant
                i <= bots@.len(),
                ids == bots@.map_values(|b: BotParticipant| b.user_id),
                names_v == bots@.map_values(|b: BotParticipant| b.username@),
                queue@ == ids.take(i as int),
                views(names@) == names_v.take(i as int),
            decreases bots@.len() - i,
        {
            queue.push(copy_id(&bots[i].user_id));
            let ghost before = names@;
            let n = bots[i].username.clone();
            names.push(n);
            proof {
                lemma_views_push(before, n);
                assert(names_v.take(i + 1) =~= names_v.take(i as int).push(n@));
            }
            assert(queue@ =~= ids.take(i + 1));
            i = i + 1;
        }
        assert(ids.take(bots@.len() as int) =~= ids);
        assert(names_v.take(bots@.len() as int) =~= names_v);
        self.bot_participants = bots;
        self.bot_turn_queue = queue;
        self.bot_turn_names = names;
        let g = match self.active_game_id {
            Some(g) => g,
            None => return Command::Nothing,
        };
        if !self.db_connected {
            return Command::Nothing;
        }
        if self.bot_turn_queue.len() > 0 {
            let bot = self.bot_turn_queue.remove(0);
            assert(self.bot_turn_queue@ =~= ids.drop_first());
            let name = take_name(&mut self.bot_turn_names);
            let (a, b) = dice_from_seed(seed);
            let d1 = a as i32;
            let d2 = b as i32;
            self.status = bot_move_status(name.as_str(), d1, d2, true);
            let ghost rest = self.bot_turn_names@;
            self.bot_turn_names.insert(0, name);
            proof {
                lemma_views_insert_front(rest, name);
                assert(views(self.bot_turn_names@) =~= names_v);
            }
            Command::DoBotTurn { game: g, bot, dice: d1 + d2 }
        } else {
            two(Command::GetAllBalances { game: g }, Command::RefreshBots { game: g })
        }
    }

    fn bots_loaded(&mut self, bots: Vec<BotParticipant>) -> (cmd: Command)
        ensures
            exists|seed: u32| seed < 1_000_000_000 && bots_loaded_post(*old(self), *final(self), cmd, bots, seed),
    {
        let seed = clock_subsec_nanos();
        self.bots_loaded_with_seed(bots, seed)
    }

    fn next_bot(&mut self, seed: u32, with_status: bool) -> (cmd: Command)
        ensures
            next_bot_post(*old(self), *final(self), cmd, seed, with_status),
    {
        let g = match self.active_game_id {
            Some(g) => g,
            None => return Command::Nothing,
        };
        if !self.db_connected {
            return Command::Nothing;
        }
        if self.bot_turn_queue.len() > 0 {
            let ghost names0 = views(self.bot_turn_names@);
            let bot = self.bot_turn_queue.remove(0);
            assert(self.bot_turn_queue@ =~= old(self).bot_turn_queue@.drop_first());
            let name = take_name(&mut self.bot_turn_names);
            let (a, b) = dice_from_seed(seed);
            let d1 = a as i32;
            let d2 = b as i32;
            if with_status {
                self.status = bot_move_status(name.as_str(), d1, d2, false);
            }
            let ghost rest = self.bot_turn_names@;
            self.bot_turn_names.insert(0, name);
            proof {
                lemma_views_insert_front(rest, name);
                assert(views(self.bot_turn_names@) =~= names_with_head(names0));
            }
            Command::DoBotTurn { game: g, bot, dice: d1 + d2 }
        } else if with_status {
            self.set_status("Ходы ботов завершены");
            let user = self.user_id();
            let mut v: Vec<Command> = Vec::new();
            v.push(Command::GetAllBalances { game: g });
            v.push(Command::GetBoardCells { game: g });
            v.push(Command::RefreshBots { game: g });
            v.push(Command::RefreshPlayerState { game: g, player: user });
            assert(v@ =~= seq![
                Command::GetAllBalances { game: g },
                Command::GetBoardCells { game: g },
                Command::RefreshBots { game: g },
                Command::RefreshPlayerState { game: g, player: user },
            ]);
            Command::Batch(v)
        } else {
            Command::GetAllBalances { game: g }
        }
    }

    fn note_rent(&mut self, r: &BotTurnResult, bot_name: &String)
        ensures
            *final(self) == (DreamBreaker { rent_received_log: final(self).rent_received_log, ..*old(self) }),
            views(final(self).rent_received_log@) == rent_log_after(*old(self), *r, bot_name@),
    {
        if str_equals(r.action.as_str(), "rent_paid") {
            if let Some(u) = self.user_id() {
                let (cell_name, amount) = split_once_text(r.action_detail.as_str(), ':');
                if owns_named(&self.board_cells, cell_name.as_str(), u) {
                    let amount = match amount {
                        Some(a) => a,
                        None => string_of("?"),
                    };
                    let mut line = join3("Аренда от ", bot_name.as_str(), ": +");
                    push_str(&mut line, amount.as_str());
                    let ghost before = self.rent_received_log@;
                    self.rent_received_log.push(line);
                    proof {
                        lemma_views_push(before, line);
                    }
                }
            }
        }
    }

    fn push_bot_log(&mut self, line: String)
        ensures
            *final(self) == (DreamBreaker { bot_turn_log: final(self).bot_turn_log, ..*old(self) }),
            views(final(self).bot_turn_log@) == log_after(views(old(self).bot_turn_log@), line@),
    {
        let ghost before = self.bot_turn_log@;
        self.bot_turn_log.push(line);
        proof {
            lemma_views_push(before, line);
        }
        if self.bot_turn_log.len() > BOT_LOG_CAPACITY {
            let ghost full = self.bot_turn_log@;
            proof {
                lemma_views_drop_first(full);
            }
            self.bot_turn_log.remove(0);
        }
    }

    fn log_bot_move(&mut self, r: &BotTurnResult)
        ensures
            *final(self) == (DreamBreaker {
                bot_turn_names: final(self).bot_turn_names,
                bot_turn_log: final(self).bot_turn_log,
                rent_received_log: final(self).rent_received_log,
                ..*old(self)
            }),
            views(final(self).bot_turn_names@) == names_after_pop(views(old(self).bot_turn_names@)),
            views(final(self).bot_turn_log@) == log_after(
                views(old(self).bot_turn_log@),
                current_bot_name(views(old(self).bot_turn_names@)) + ": "@ + bot_action_text(*r),
            ),
            views(final(self).rent_received_log@) == rent_log_after(
                *old(self),
                *r,
                current_bot_name(views(old(self).bot_turn_names@)),
            ),
    {
        let ghost pre = *self;
        let bot_name = take_name(&mut self.bot_turn_names);
        let ghost after_take = *self;
        assert(rent_log_after(after_take, *r, bot_name@) == rent_log_after(pre, *r, bot_name@));
        self.note_rent(r, &bot_name);
        let action = bot_action_string(r);
        let line = join3(bot_name.as_str(), ": ", action.as_str());
        self.push_bot_log(line);
    }

    /// A bot finished its turn: log it, then move the next bot with the clock reading `seed`.
    pub fn bot_turn_done_with_seed(&mut self, r: BotTurnResult, seed: u32) -> (cmd: Command)
        ensures
            bot_turn_ok_post(*old(self), *final(self), cmd, r, seed),
    {
        self.log_bot_move(&r);
        let ghost mid = *self;
        let cmd = self.next_bot(seed, true);
        assert(next_bot_post(mid, *self, cmd, seed, true));
        cmd
    }

    fn bot_turn_done(&mut self, r: BotTurnResult) -> (cmd: Command)
        ensures
            exists|seed: u32| seed < 1_000_000_000 && bot_turn_ok_post(*old(self), *final(self), cmd, r, seed),
    {
        let seed = clock_subsec_nanos();
        self.bot_turn_done_with_seed(r, seed)
    }

    /// A bot's turn failed: report it and move the next bot with the clock reading `seed`.
    pub fn bot_turn_failed_with_seed(&mut self, e: DbError, seed: u32) -> (cmd: Command)
        ensures
            bot_turn_err_post(*old(self), *final(self), cmd, e, seed),
    {
        self.report("Ошибка хода бота: ", &e);
        let _ = take_name(&mut self.bot_turn_names);
        let ghost mid = *self;
        let cmd = self.next_bot(seed, false);
        assert(next_bot_post(mid, *self, cmd, seed, false));
        cmd
    }

    fn bot_turn_failed(&mut self, e: DbError) -> (cmd: Command)
        ensures
            exists|seed: u32| 13 <= seed < 1_000_000_013 && bot_turn_err_post(*old(self), *final(self), cmd, e, seed),
    {
        let seed = clock_subsec_nanos() + 13;
        self.bot_turn_failed_with_seed(e, seed)
    }

    fn balances_loaded(&mut self, rows: Vec<BalanceRow>) -> (cmd: Command)
        ensures
            balances_post(*old(self), *final(self), cmd, rows@),
    {
        let rules = match self.game_rules {
            Some(r) => r,
            None => return Command::Nothing,
        };
        let state = match self.player_state {
            Some(s) => s,
            None => return Command::Nothing,
        };
        let u = match self.user_id() {
            Some(u) => u,
            None => return Command::Nothing,
        };
        let outcome = game_outcome(&rules, &state, &rows, u);
        match outcome {
            GameOutcome::Ongoing => Command::Nothing,
            GameOutcome::Victory => {
                self.set_status("Выиграна");
                self.finish_command(u)
            },
            GameOutcome::Defeat => {
                self.set_status("Проиграна");
                self.finish_command(u)
            },
        }
    }

    fn finish_command(&self, u: Id) -> (cmd: Command)
        ensures
            cmd == match self.active_game_id {
                Some(g) => if_connected(*self, Command::FinishGame { game: g, user: u }),
                None => Command::Nothing,
            },
    {
        match self.active_game_id {
            Some(g) => if self.db_connected { Command::FinishGame { game: g, user: u } } else { Command::Nothing },
            None => Command::Nothing,
        }
    }

    fn payment(&mut self, st: ParticipantState, label: &str, text: &str) -> (cmd: Command)
        ensures
            payment_post(*old(self), *final(self), cmd, st, label@, text@),
    {
        if let Some(before) = &self.player_state {
            let paid: i128 = before.balance as i128 - st.balance as i128;
            if paid > 0 {
                let mut line = string_of(label);
                push_decimal_wide(&mut line, paid);
                let ghost before = self.income_log@;
                self.income_log.push(line);
                proof {
                    lemma_views_push(before, line);
                }
            }
        }
        self.player_state = Some(st);
        self.status = string_of(text);
        self.cell_action = None;
        match self.game_session() {
            Some((g, u)) => Command::CommitMove { game: g, user: u, position: self.local_player_pos },
            None => Command::Nothing,
        }
    }
}



/// Which part of [`DreamBreaker::update`] handles a message.
pub open spec fn message_part(m: Message) -> nat {
    match m {
        Message::OpenLogin => 1,
        Message::OpenRegister => 1,
        Message::OpenLoadGame => 1,
        Message::OpenCreateGame => 1,
        Message::OpenSettings => 1,
        Message::OpenSettingsFromGame => 1,
        Message::BackToMenu => 2,
        Message::Logout => 2,
        Message::Exit => 2,
        Message::ToggleProfileMenu => 2,
        Message::SelectUser(..) => 2,
        Message::ToggleStats => 2,
        Message::OpenStats => 3,
        Message::UsernameChanged(..) => 3,
        Message::PasswordChanged(..) => 3,
        Message::Password2Changed(..) => 3,
        Message::SubmitLogin => 3,
        Message::LoginDone(..) => 3,
        Message::SubmitRegister => 4,
        Message::RegisterDone(..) => 4,
        Message::GameBalanceIncrease => 4,
        Message::GameBalanceDecrease => 4,
        Message::GameMaxTurnsIncrease => 4,
        Message::GameMaxTurnsDecrease => 5,
        Message::GameTargetBalanceIncrease => 5,
        Message::GameTargetBalanceDecrease => 5,
        Message::CreateGameSubmit => 5,
        Message::GameCreated(..) => 5,
        Message::ContinueGame => 6,
        Message::LoadGame(..) => 6,
        Message::GameScreenLoaded(..) => 6,
        Message::ToggleGameMenu => 6,
        Message::SaveAndExit => 6,
        Message::GamePaused(..) => 7,
        Message::Surrender => 7,
        Message::GameSurrendered(..) => 7,
        Message::GameResultLoaded(..) => 7,
        Message::TooltipHoverStart(..) => 8,
        Message::TooltipHoverEnd => 8,
        Message::TooltipTick => 8,
        Message::TooltipClose => 8,
        Message::CellHovered(..) => 8,
        Message::SetWindowMode(..) => 8,
        Message::DbConnected(..) => 9,
        Message::MigrationsApplied(..) => 9,
        Message::UsersLoaded(..) => 9,
        Message::GamesLoaded(..) => 10,
        Message::ActiveGameChecked(..) => 10,
        Message::UserGamesLoaded(..) => 10,
        Message::StatsLoaded(..) => 11,
        Message::RollDice => 11,
        Message::OpenShop(..) => 11,
        Message::ShopSlotsLoaded(..) => 11,
        Message::BuyShopSlot(..) => 12,
        Message::ShopSlotBought(..) => 12,
        Message::InventoryReloaded(..) => 12,
        Message::SellPowerUp(..) => 12,
        Message::PowerUpSold(..) => 13,
        Message::TogglePropertyMgmt => 13,
        Message::SelectProperty(..) => 13,
        Message::PropertiesLoaded(..) => 13,
        Message::InstallUpgrade { .. } => 14,
        Message::UpgradeInstalled(..) => 14,
        Message::UninstallUpgrade { .. } => 14,
        Message::UpgradeUninstalled(..) => 14,
        Message::RerollShop(..) => 15,
        Message::ShopRerolled(..) => 15,
        Message::EndTurn => 15,
        Message::TurnSaved(..) => 15,
        Message::BotsLoaded(..) => 16,
        Message::BotsRefreshed(..) => 16,
        Message::PlayerStateRefreshed(..) => 16,
        Message::BotTurnDone(..) => 17,
        Message::BalancesLoaded(..) => 17,
        Message::BuyProperty => 17,
        Message::SkipAction => 17,
        Message::PropertyBought(..) => 18,
        Message::RentPaid(..) => 18,
        Message::TaxPaid(..) => 18,
        _ => 19,
    }
}

impl DreamBreaker {
    /// Handles one message: the next state, and the work the shell is to do.
    #[verifier::rlimit(50)]
    pub fn update(&mut self, msg: Message) -> (cmd: Command)
        requires
            step_requires(*old(self), msg),
        ensures
            step(*old(self), msg, *final(self), cmd),
    {
        match msg {
            Message::OpenLogin => self.open_form(Screen::Login),
            Message::OpenRegister => self.open_form(Screen::Register),
            Message::OpenLoadGame => {
                self.screen = Screen::LoadGame;
                self.profile_menu_open = false;
                match self.user_id() {
                    Some(u) => if self.db_connected { Command::GetUserGames { user: u } } else { Command::Nothing },
                    None => Command::Nothing,
                }
            },
            Message::OpenCreateGame => {
                self.screen = Screen::CreateGame;
                self.profile_menu_open = false;
                self.create_game_balance = 1000;
                self.create_game_max_turns = 50;
                self.create_game_target_balance = 2500;
                Command::Nothing
            },
            Message::OpenSettings => {
                self.settings_from_game = false;
                self.screen = Screen::Settings;
                self.profile_menu_open = false;
                Command::Nothing
            },
            Message::OpenSettingsFromGame => {
                self.settings_from_game = true;
                self.screen = Screen::Settings;
                self.game_menu_open = false;
                Command::Nothing
            },
            other => self.update_part2(other),
        }
    }

    fn update_part2(&mut self, msg: Message) -> (cmd: Command)
        requires
            step_requires(*old(self), msg),
            message_part(msg) >= 2,
        ensures
            step(*old(self), msg, *final(self), cmd),
    {
        match msg {
            Message::BackToMenu => self.back_to_menu(),
            Message::Logout => self.logout(),
            Message::Exit => Command::Exit,
            Message::ToggleProfileMenu => {
                self.profile_menu_open = !self.profile_menu_open;
                Command::Nothing
            },
            Message::SelectUser(_, name) => {
                self.profile_menu_open = false;
                self.screen = Screen::Login;
                self.input_username = name;
                self.input_password = String::new();
                self.form_error = String::new();
                Command::Nothing
            },
            Message::ToggleStats => {
                self.show_stats = !self.show_stats;
                Command::Nothing
            },
            other => self.update_part3(other),
        }
    }

    fn update_part3(&mut self, msg: Message) -> (cmd: Command)
        requires
            step_requires(*old(self), msg),
            message_part(msg) >= 3,
        ensures
            step(*old(self), msg, *final(self), cmd),
    {
        match msg {
            Message::OpenStats => {
                self.profile_menu_open = false;
                match self.user_id() {
                    Some(u) => if self.db_connected { Command::GetUserStats { user: u } } else { Command::Nothing },
                    None => Command::Nothing,
                }
            },
            Message::UsernameChanged(v) => {
                self.input_username = v;
                Command::Nothing
            },
            Message::PasswordChanged(v) => {
                self.input_password = v;
                Command::Nothing
            },
            Message::Password2Changed(v) => {
                self.input_password2 = v;
                Command::Nothing
            },
            Message::SubmitLogin => self.submit_login(),
            Message::LoginDone(Ok(user)) => self.login_done(user),
            Message::LoginDone(Err(e)) => {
                self.form_error = e.0;
                self.status = string_of("Ошибка входа");
                Command::Nothing
            },
            other => self.update_part4(other),
        }
    }

    fn update_part4(&mut self, msg: Message) -> (cmd: Command)
        requires
            step_requires(*old(self), msg),
            message_part(msg) >= 4,
        ensures
            step(*old(self), msg, *final(self), cmd),
    {
        match msg {
            Message::SubmitRegister => self.submit_register(),
            Message::RegisterDone(Ok(id)) => self.register_done(id),
            Message::RegisterDone(Err(e)) => self.register_failed(e),
            Message::GameBalanceIncrease => {
                self.create_game_balance = self.create_game_balance + 100;
                if self.create_game_target_balance <= self.create_game_balance {
                    self.create_game_target_balance = self.create_game_balance + 100;
                }
                Command::Nothing
            },
            Message::GameBalanceDecrease => {
                if self.create_game_balance > 100 {
                    self.create_game_balance = self.create_game_balance - 100;
                }
                Command::Nothing
            },
            Message::GameMaxTurnsIncrease => {
                self.create_game_max_turns = self.create_game_max_turns + 2;
                Command::Nothing
            },
            other => self.update_part5(other),
        }
    }

    fn update_part5(&mut self, msg: Message) -> (cmd: Command)
        requires
            step_requires(*old(self), msg),
            message_part(msg) >= 5,
        ensures
            step(*old(self), msg, *final(self), cmd),
    {
        match msg {
            Message::GameMaxTurnsDecrease => {
                if self.create_game_max_turns > 2 {
                    self.create_game_max_turns = self.create_game_max_turns - 2;
                }
                Command::Nothing
            },
            Message::GameTargetBalanceIncrease => {
                self.create_game_target_balance = self.create_game_target_balance + 100;
                Command::Nothing
            },
            Message::GameTargetBalanceDecrease => {
                let min = self.create_game_balance + 100;
                if self.create_game_target_balance > min {
                    self.create_game_target_balance = self.create_game_target_balance - 100;
                }
                Command::Nothing
            },
            Message::CreateGameSubmit => self.create_game_submit(),
            Message::GameCreated(Ok(g)) => self.game_created(g),
            Message::GameCreated(Err(e)) => {
                self.report("Ошибка создания игры: ", &e);
                Command::Nothing
            },
            other => self.update_part6(other),
        }
    }

    fn update_part6(&mut self, msg: Message) -> (cmd: Command)
        requires
            step_requires(*old(self), msg),
            message_part(msg) >= 6,
        ensures
            step(*old(self), msg, *final(self), cmd),
    {
        match msg {
            Message::ContinueGame => self.continue_game(),
            Message::LoadGame(g) => self.load_game(g),
            Message::GameScreenLoaded(Ok(gs)) => self.screen_loaded(gs),
            Message::GameScreenLoaded(Err(e)) => {
                self.report("Ошибка загрузки игры: ", &e);
                Command::Nothing
            },
            Message::ToggleGameMenu => {
                self.game_menu_open = !self.game_menu_open;
                Command::Nothing
            },
            Message::SaveAndExit => self.leave_game(true),
            other => self.update_part7(other),
        }
    }

    fn update_part7(&mut self, msg: Message) -> (cmd: Command)
        requires
            step_requires(*old(self), msg),
            message_part(msg) >= 7,
        ensures
            step(*old(self), msg, *final(self), cmd),
    {
        match msg {
            Message::GamePaused(Ok(())) => self.game_paused(),
            Message::GamePaused(Err(e)) => {
                self.report("Ошибка сохранения: ", &e);
                Command::Nothing
            },
            Message::Surrender => self.leave_game(false),
            Message::GameSurrendered(Ok(())) => Command::Nothing,
            Message::GameSurrendered(Err(e)) => {
                self.report("Ошибка: ", &e);
                Command::Nothing
            },
            Message::GameResultLoaded(Ok(r)) => {
                self.game_result = r;
                self.screen = Screen::GameOver;
                Command::Nothing
            },
            Message::GameResultLoaded(Err(e)) => {
                self.report("Ошибка загрузки результата: ", &e);
                self.screen = Screen::Menu;
                Command::Nothing
            },
            other => self.update_part8(other),
        }
    }

    fn update_part8(&mut self, msg: Message) -> (cmd: Command)
        requires
            step_requires(*old(self), msg),
            message_part(msg) >= 8,
        ensures
            step(*old(self), msg, *final(self), cmd),
    {
        match msg {
            Message::TooltipHoverStart(item) => {
                self.tooltip_item = Some(item);
                self.tooltip_visible = true;
                Command::Nothing
            },
            Message::TooltipHoverEnd => {
                self.tooltip_item = None;
                self.tooltip_visible = false;
                Command::Nothing
            },
            Message::TooltipTick => Command::Nothing,
            Message::TooltipClose => {
                self.tooltip_item = None;
                self.tooltip_visible = false;
                Command::Nothing
            },
            Message::CellHovered(idx) => {
                self.hovered_cell = idx;
                Command::Nothing
            },
            Message::SetWindowMode(mode) => {
                self.window_mode = mode;
                Command::ApplyWindowMode { fullscreen: mode != WindowMode::Window }
            },
            other => self.update_part9(other),
        }
    }

    fn update_part9(&mut self, msg: Message) -> (cmd: Command)
        requires
            step_requires(*old(self), msg),
            message_part(msg) >= 9,
        ensures
            step(*old(self), msg, *final(self), cmd),
    {
        match msg {
            Message::DbConnected(Ok(())) => {
                self.status = string_of("Применяю миграции...");
                self.db_connected = true;
                Command::RunMigrations
            },
            Message::DbConnected(Err(e)) => {
                self.report("Ошибка подключения: ", &e);
                Command::Nothing
            },
            Message::MigrationsApplied(Ok(())) => {
                self.set_status("Готово");
                if self.db_connected { Command::ListUsers } else { Command::Nothing }
            },
            Message::MigrationsApplied(Err(e)) => {
                self.report("Ошибка миграций: ", &e);
                Command::Nothing
            },
            Message::UsersLoaded(Ok(users)) => {
                self.users = users;
                Command::Nothing
            },
            Message::UsersLoaded(Err(_)) => Command::Nothing,
            other => self.update_part10(other),
        }
    }

    fn update_part10(&mut self, msg: Message) -> (cmd: Command)
        requires
            step_requires(*old(self), msg),
            message_part(msg) >= 10,
        ensures
            step(*old(self), msg, *final(self), cmd),
    {
        match msg {
            Message::GamesLoaded(Ok(games)) => {
                self.games = games;
                Command::Nothing
            },
            Message::GamesLoaded(Err(e)) => {
                self.report("Ошибка загрузки игр: ", &e);
                Command::Nothing
            },
            Message::ActiveGameChecked(Ok(found)) => {
                self.has_active_game = Some(found.is_some());
                Command::Nothing
            },
            Message::ActiveGameChecked(Err(_)) => {
                self.has_active_game = Some(false);
                Command::Nothing
            },
            Message::UserGamesLoaded(Ok(rows)) => {
                self.user_games = rows;
                Command::Nothing
            },
            Message::UserGamesLoaded(Err(e)) => {
                self.report("Ошибка загрузки игр: ", &e);
                Command::Nothing
            },
            other => self.update_part11(other),
        }
    }

    fn update_part11(&mut self, msg: Message) -> (cmd: Command)
        requires
            step_requires(*old(self), msg),
            message_part(msg) >= 11,
        ensures
            step(*old(self), msg, *final(self), cmd),
    {
        match msg {
            Message::StatsLoaded(Ok(stats)) => {
                self.user_stats = Some(stats);
                self.show_stats = true;
                Command::Nothing
            },
            Message::StatsLoaded(Err(e)) => {
                self.report("Ошибка загрузки статистики: ", &e);
                Command::Nothing
            },
            Message::RollDice => self.roll_dice(),
            Message::OpenShop(shop) => match self.game_session() {
                Some((g, u)) => Command::GetShopSlots { shop, game: g, user: u },
                None => Command::Nothing,
            },
            Message::ShopSlotsLoaded(Ok(slots)) => {
                self.shop_slots = slots;
                Command::Nothing
            },
            Message::ShopSlotsLoaded(Err(e)) => {
                self.report("Ошибка загрузки магазина: ", &e);
                Command::Nothing
            },
            other => self.update_part12(other),
        }
    }

    fn update_part12(&mut self, msg: Message) -> (cmd: Command)
        requires
            step_requires(*old(self), msg),
            message_part(msg) >= 12,
        ensures
            step(*old(self), msg, *final(self), cmd),
    {
        match msg {
            Message::BuyShopSlot(slot) => match self.game_session() {
                Some((g, u)) => Command::BuyShopSlot { slot, game: g, user: u },
                None => Command::Nothing,
            },
            Message::ShopSlotBought(Ok(st)) => self.shop_change(st, "Усиление куплено", true),
            Message::ShopSlotBought(Err(e)) => self.game_error(e, "Ошибка покупки: "),
            Message::InventoryReloaded(Ok(items)) => {
                self.inventory = items;
                Command::Nothing
            },
            Message::InventoryReloaded(Err(e)) => {
                self.report("Ошибка обновления инвентаря: ", &e);
                Command::Nothing
            },
            Message::SellPowerUp(pu) => {
                self.reset_tooltip();
                match self.game_session() {
                    Some((g, u)) => Command::SellPowerUp { game: g, user: u, power_up: pu },
                    None => Command::Nothing,
                }
            },
            other => self.update_part13(other),
        }
    }

    fn update_part13(&mut self, msg: Message) -> (cmd: Command)
        requires
            step_requires(*old(self), msg),
            message_part(msg) >= 13,
        ensures
            step(*old(self), msg, *final(self), cmd),
    {
        match msg {
            Message::PowerUpSold(Ok(st)) => {
                self.player_state = Some(st);
                self.status = string_of("Усиление продано");
                match self.game_session() {
                    Some((g, u)) => Command::GetPlayerInventory { game: g, user: u },
                    None => Command::Nothing,
                }
            },
            Message::PowerUpSold(Err(e)) => self.game_error(e, "Ошибка продажи: "),
            Message::TogglePropertyMgmt => {
                self.show_property_mgmt = !self.show_property_mgmt;
                if !self.show_property_mgmt {
                    return Command::Nothing;
                }
                match self.game_session() {
                    Some((g, u)) => Command::GetPlayerProperties { game: g, user: u },
                    None => Command::Nothing,
                }
            },
            Message::SelectProperty(i) => {
                self.selected_property = Some(i);
                Command::Nothing
            },
            Message::PropertiesLoaded(Ok(props)) => {
                self.player_properties = props;
                match self.selected_property {
                    Some(i) => if i >= self.player_properties.len() {
                        self.selected_property = None;
                    },
                    None => {},
                }
                Command::Nothing
            },
            Message::PropertiesLoaded(Err(e)) => {
                self.report("Ошибка загрузки собственностей: ", &e);
                Command::Nothing
            },
            other => self.update_part14(other),
        }
    }

    fn update_part14(&mut self, msg: Message) -> (cmd: Command)
        requires
            step_requires(*old(self), msg),
            message_part(msg) >= 14,
        ensures
            step(*old(self), msg, *final(self), cmd),
    {
        match msg {
            Message::InstallUpgrade { property_id, power_up_id } => match self.game_session() {
                Some((g, u)) => Command::InstallUpgrade { game: g, user: u, property: property_id, power_up: power_up_id },
                None => Command::Nothing,
            },
            Message::UpgradeInstalled(Ok(r)) => self.upgrade_done(r, "Усиление установлено", "Нельзя установить: "),
            Message::UpgradeInstalled(Err(e)) => {
                self.report("Ошибка установки: ", &e);
                Command::Nothing
            },
            Message::UninstallUpgrade { property_id, power_up_id } => {
                self.reset_tooltip();
                match self.game_session() {
                    Some((g, u)) => Command::UninstallUpgrade { game: g, user: u, property: property_id, power_up: power_up_id },
                    None => Command::Nothing,
                }
            },
            Message::UpgradeUninstalled(Ok(r)) => self.upgrade_done(r, "Усиление возвращено в инвентарь", "Нельзя извлечь: "),
            Message::UpgradeUninstalled(Err(e)) => {
                self.report("Ошибка извлечения: ", &e);
                Command::Nothing
            },
            other => self.update_part15(other),
        }
    }

    fn update_part15(&mut self, msg: Message) -> (cmd: Command)
        requires
            step_requires(*old(self), msg),
            message_part(msg) >= 15,
        ensures
            step(*old(self), msg, *final(self), cmd),
    {
        match msg {
            Message::RerollShop(shop) => match self.game_session() {
                Some((g, u)) => Command::RerollShop { shop, game: g, user: u },
                None => Command::Nothing,
            },
            Message::ShopRerolled(Ok(st)) => self.shop_change(st, "Магазин обновлён", false),
            Message::ShopRerolled(Err(e)) => self.game_error(e, "Ошибка реролла: "),
            Message::EndTurn => self.end_turn(),
            Message::TurnSaved(Ok(ns)) => self.turn_saved(ns),
            Message::TurnSaved(Err(e)) => self.game_error(e, "Ошибка сохранения хода: "),
            other => self.update_part16(other),
        }
    }

    fn update_part16(&mut self, msg: Message) -> (cmd: Command)
        requires
            step_requires(*old(self), msg),
            message_part(msg) >= 16,
        ensures
            step(*old(self), msg, *final(self), cmd),
    {
        match msg {
            Message::BotsLoaded(Ok(bots)) => self.bots_loaded(bots),
            Message::BotsLoaded(Err(e)) => {
                self.report("Ошибка загрузки ботов: ", &e);
                match self.active_game_id {
                    Some(g) => if self.db_connected { Command::GetAllBalances { game: g } } else { Command::Nothing },
                    None => Command::Nothing,
                }
            },
            Message::BotsRefreshed(Ok(bots)) => {
                self.bot_participants = bots;
                Command::Nothing
            },
            Message::BotsRefreshed(Err(_)) => Command::Nothing,
            Message::PlayerStateRefreshed(Ok(Some(st))) => {
                self.player_state = Some(st);
                Command::Nothing
            },
            Message::PlayerStateRefreshed(_) => Command::Nothing,
            other => self.update_part17(other),
        }
    }

    fn update_part17(&mut self, msg: Message) -> (cmd: Command)
        requires
            step_requires(*old(self), msg),
            message_part(msg) >= 17,
        ensures
            step(*old(self), msg, *final(self), cmd),
    {
        match msg {
            Message::BotTurnDone(Ok(r)) => self.bot_turn_done(r),
            Message::BotTurnDone(Err(e)) => self.bot_turn_failed(e),
            Message::BalancesLoaded(Ok(rows)) => self.balances_loaded(rows),
            Message::BalancesLoaded(Err(e)) => {
                self.report("Ошибка проверки балансов: ", &e);
                Command::Nothing
            },
            Message::BuyProperty => {
                let cell = match &self.cell_action {
                    Some(CellAction::CanBuy { cell_index, .. }) => *cell_index,
                    _ => return Command::Nothing,
                };
                match self.game_session() {
                    Some((g, u)) => {
                        self.cell_action = None;
                        Command::BuyProperty { game: g, user: u, cell }
                    },
                    None => Command::Nothing,
                }
            },
            Message::SkipAction => {
                self.cell_action = None;
                self.shop_slots.clear();
                self.tooltip_item = None;
                self.tooltip_visible = false;
                self.tooltip_locked = false;
                Command::Nothing
            },
            other => self.update_part18(other),
        }
    }

    fn update_part18(&mut self, msg: Message) -> (cmd: Command)
        requires
            step_requires(*old(self), msg),
            message_part(msg) >= 18,
        ensures
            step(*old(self), msg, *final(self), cmd),
    {
        match msg {
            Message::PropertyBought(Ok(st)) => {
                self.player_state = Some(st);
                self.status = string_of("Собственность куплена");
                match self.active_game_id {
                    Some(g) => if self.db_connected { Command::GetBoardCells { game: g } } else { Command::Nothing },
                    None => Command::Nothing,
                }
            },
            Message::PropertyBought(Err(e)) => self.game_error(e, "Ошибка покупки: "),
            Message::RentPaid(Ok(st)) => self.payment(st, "Аренда: -", "Аренда уплачена, завершаю ход..."),
            Message::RentPaid(Err(e)) => self.game_error(e, "Ошибка аренды: "),
            Message::TaxPaid(Ok(st)) => self.payment(st, "Налог: -", "Налог уплачен, завершаю ход..."),
            Message::TaxPaid(Err(e)) => self.game_error(e, "Ошибка налога: "),
            other => self.update_part19(other),
        }
    }

    fn update_part19(&mut self, msg: Message) -> (cmd: Command)
        requires
            step_requires(*old(self), msg),
            message_part(msg) >= 19,
        ensures
            step(*old(self), msg, *final(self), cmd),
    {
        match msg {
            Message::BoardReloaded(Ok(cells)) => {
                self.board_cells = cells;
                match self.game_session() {
                    Some((g, u)) => Command::GetPlayerProperties { game: g, user: u },
                    None => Command::Nothing,
                }
            },
            Message::BoardReloaded(Err(_)) => Command::Nothing,
            Message::StaleGamesReset => Command::Nothing,
            _ => Command::Nothing,
        }
    }
}

} // verus!
