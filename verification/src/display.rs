//! What the screens show: labels, captions and choices derived from the client's data.
use vstd::prelude::*;
use crate::board::{property_group, group_hex};
use crate::client::{TooltipItem, WindowMode};
use crate::model::{BoardCell, BotParticipant, GameResult, GameRules, Id, InventoryItem, ParticipantState, PlayerProperty, ShopSlot};
use crate::rules::{inventory_full, inventory_total, reroll_cost, INVENTORY_CAPACITY};
use crate::text::{
    after_last, after_last_text, decimal, join2, join3, prefix_seq, prefix_text, push_decimal, push_str,
    replace_seq, replace_text, str_equals, string_of, trim_seq, trim_text, xml_escape, xml_escape_seq,
};

verus! {

/// The icons of the main menu.
#[derive(Debug, Clone, Copy, PartialEq, Eq, Structural)]
pub enum Icon {
    Play,
    Save,
    Settings,
    Close,
}

impl Icon {
    /// The file an icon is drawn from.
    pub fn path(self) -> (r: &'static str)
        ensures
            r@ == match self {
                Icon::Play => "assets/play_btn.svg"@,
                Icon::Save => "assets/save_btn.svg"@,
                Icon::Settings => "assets/settings_btn.svg"@,
                Icon::Close => "assets/close_btn.svg"@,
            },
    {
        match self {
            Icon::Play => "assets/play_btn.svg",
            Icon::Save => "assets/save_btn.svg",
            Icon::Settings => "assets/settings_btn.svg",
            Icon::Close => "assets/close_btn.svg",
        }
    }
}

impl WindowMode {
    /// The name of a window mode in the settings list.
    pub fn label(&self) -> (r: &'static str)
        ensures
            r@ == match *self {
                WindowMode::Window => "Окно"@,
                WindowMode::Fullscreen => "Полноэкранный"@,
                WindowMode::Borderless => "Полноэкранный в окне"@,
            },
    {
        match self {
            WindowMode::Window => "Окно",
            WindowMode::Fullscreen => "Полноэкранный",
            WindowMode::Borderless => "Полноэкранный в окне",
        }
    }
}

// ---------------------------------------------------------------------------
// Load screen

/// How a game's status reads in the list of games.
pub open spec fn status_label_spec(status: Seq<char>) -> Seq<char> {
    if status == "active"@ {
        "активна"@
    } else if status == "paused"@ {
        "приостановлена"@
    } else if status == "pending"@ {
        "ожидание"@
    } else if status == "finished"@ {
        "завершена"@
    } else if status == "surrender"@ {
        "сдался"@
    } else {
        status
    }
}

/// How a game's status reads in the list of games.
pub fn game_status_label(status: &str) -> (r: String)
    ensures
        r@ == status_label_spec(status@),
{
    if str_equals(status, "active") {
        string_of("активна")
    } else if str_equals(status, "paused") {
        string_of("приостановлена")
    } else if str_equals(status, "pending") {
        string_of("ожидание")
    } else if str_equals(status, "finished") {
        string_of("завершена")
    } else if str_equals(status, "surrender") {
        string_of("сдался")
    } else {
        string_of(status)
    }
}

/// Whether a game is over (finished or surrendered), so that it cannot be loaded.
pub fn game_is_done(status: &str) -> (r: bool)
    ensures
        r == (status@ == "finished"@ || status@ == "surrender"@),
{
    str_equals(status, "finished") || str_equals(status, "surrender")
}

/// What chrono writes, in the form `%d.%m.%y %H:%M`, for the UTC time `ts` seconds after the
/// Unix epoch; `None` where chrono holds no such time.
pub uninterp spec fn utc_minute_text(ts: i64) -> Option<Seq<char>>;

/// chrono's `DateTime::from_timestamp` and its `format("%d.%m.%y %H:%M")` written out: the
/// text is [`utc_minute_text`]. The calls share this one item, as chrono's `DateTime` is not
/// held as a value in this library.
#[verifier::external_body]
fn format_utc_minute(ts: i64) -> (r: Option<String>)
    ensures
        match r {
            Some(t) => utc_minute_text(ts) == Some(t@),
            None => utc_minute_text(ts) is None,
        },
{
    match chrono::DateTime::from_timestamp(ts, 0) {
        Some(t) => Some(t.format("%d.%m.%y %H:%M").to_string()),
        None => None,
    }
}

/// The name of a game in the list of games: `Игра-` and its creation time to the minute (UTC).
pub open spec fn game_title_spec(created_at: i64) -> Seq<char> {
    "Игра-"@ + match utc_minute_text(created_at) {
        Some(t) => t,
        None => Seq::empty(),
    }
}

/// The name of a game in the list of games, from its creation time in Unix seconds.
pub fn game_title(created_at: i64) -> (r: String)
    ensures
        r@ == game_title_spec(created_at),
{
    match format_utc_minute(created_at) {
        Some(t) => join2("Игра-", t.as_str()),
        None => string_of("Игра-"),
    }
}

// ---------------------------------------------------------------------------
// Power-ups

/// The effect type of an inventory item, empty where unknown.
pub open spec fn effect_type_of(item: InventoryItem) -> Seq<char> {
    match item.effect_type {
        Some(t) => t@,
        None => Seq::empty(),
    }
}

/// The effect value of an inventory item, zero where unknown.
pub open spec fn effect_value_of(item: InventoryItem) -> int {
    match item.effect_value {
        Some(v) => v as int,
        None => 0,
    }
}

/// The two-line caption of an inventory slot.
pub open spec fn inventory_label_spec(item: InventoryItem) -> Seq<char> {
    let t = effect_type_of(item);
    let v = decimal(effect_value_of(item));
    if t == "flat_base"@ {
        "+"@ + v + "\nБаза"@
    } else if t == "percent_bonus"@ {
        "+"@ + v + "%\nАренда"@
    } else if t == "flat_final"@ {
        "+"@ + v + "\nИтог"@
    } else {
        prefix_seq(item.name@, 8)
    }
}

fn effect_type_text(item: &InventoryItem) -> (r: String)
    ensures
        r@ == effect_type_of(*item),
{
    match &item.effect_type {
        Some(t) => string_of(t.as_str()),
        None => String::new(),
    }
}

fn effect_value_num(item: &InventoryItem) -> (r: i64)
    ensures
        r == effect_value_of(*item),
{
    match item.effect_value {
        Some(v) => v,
        None => 0,
    }
}

/// The two-line caption of an inventory slot: the effect in short, or the name.
pub fn inventory_label(item: &InventoryItem) -> (r: String)
    ensures
        r@ == inventory_label_spec(*item),
{
    let t = effect_type_text(item);
    let v = effect_value_num(item);
    let mut r = string_of("+");
    if str_equals(t.as_str(), "flat_base") {
        push_decimal(&mut r, v);
        push_str(&mut r, "\nБаза");
    } else if str_equals(t.as_str(), "percent_bonus") {
        push_decimal(&mut r, v);
        push_str(&mut r, "%\nАренда");
    } else if str_equals(t.as_str(), "flat_final") {
        push_decimal(&mut r, v);
        push_str(&mut r, "\nИтог");
    } else {
        return prefix_text(item.name.as_str(), 8);
    }
    r
}

/// The tooltip of an inventory item.
pub fn inventory_tooltip(item: &InventoryItem) -> (t: TooltipItem)
    ensures
        t.name@ == item.name@,
        t.description@ == Seq::<char>::empty(),
        t.effect_type@ == effect_type_of(*item),
        t.effect_value == effect_value_of(*item),
        t.buy_cost is None,
        t.sell_cost is None,
{
    TooltipItem {
        name: string_of(item.name.as_str()),
        description: String::new(),
        effect_type: effect_type_text(item),
        effect_value: effect_value_num(item),
        buy_cost: None,
        sell_cost: None,
    }
}

/// Half of `cost`, rounded toward zero: what a power-up sells for.
pub open spec fn resale_spec(cost: int) -> int {
    if cost >= 0 { cost / 2 } else { -((-cost) / 2) }
}

/// The tooltip of a shop slot, with its price and resale price.
pub fn shop_tooltip(slot: &ShopSlot) -> (t: TooltipItem)
    ensures
        t.name@ == slot.name@,
        t.description@ == slot.description@,
        t.effect_type@ == Seq::<char>::empty(),
        t.effect_value == 0,
        t.buy_cost == Some(slot.cost),
        t.sell_cost matches Some(s) && s == resale_spec(slot.cost as int),
{
    let c = slot.cost as i128;
    let half: i128 = if c >= 0 { c / 2 } else { -((-c) / 2) };
    TooltipItem {
        name: string_of(slot.name.as_str()),
        description: string_of(slot.description.as_str()),
        effect_type: String::new(),
        effect_value: 0,
        buy_cost: Some(slot.cost),
        sell_cost: Some(half as i64),
    }
}

/// The sentence describing a power-up's effect.
pub open spec fn effect_description_spec(effect_type: Seq<char>, value: int) -> Seq<char> {
    if effect_type == "flat_base"@ {
        "+"@ + decimal(value) + " к базовой аренде"@
    } else if effect_type == "percent_bonus"@ {
        "+"@ + decimal(value) + "% к аренде"@
    } else if effect_type == "flat_final"@ {
        "+"@ + decimal(value) + " к итоговой аренде"@
    } else {
        effect_type
    }
}

/// The sentence describing a power-up's effect.
pub fn effect_description(effect_type: &str, value: i64) -> (r: String)
    ensures
        r@ == effect_description_spec(effect_type@, value as int),
{
    let mut r = string_of("+");
    if str_equals(effect_type, "flat_base") {
        push_decimal(&mut r, value);
        push_str(&mut r, " к базовой аренде");
    } else if str_equals(effect_type, "percent_bonus") {
        push_decimal(&mut r, value);
        push_str(&mut r, "% к аренде");
    } else if str_equals(effect_type, "flat_final") {
        push_decimal(&mut r, value);
        push_str(&mut r, " к итоговой аренде");
    } else {
        return string_of(effect_type);
    }
    r
}

// ---------------------------------------------------------------------------
// Shop

/// What a shop slot's button offers.
#[derive(Debug, Clone, Copy, PartialEq, Eq, Structural)]
pub enum ShopOffer {
    /// Already bought from this shop.
    Sold,
    /// The player owns this power-up already.
    AlreadyOwned,
    /// The inventory is full.
    NoRoom,
    /// It can be bought for its price.
    Buy,
}

/// What a shop slot's button offers, checked in this order.
pub open spec fn shop_offer_spec(slot: ShopSlot, inventory: Seq<InventoryItem>) -> ShopOffer {
    if slot.status@ == "sold"@ {
        ShopOffer::Sold
    } else if slot.already_own {
        ShopOffer::AlreadyOwned
    } else if inventory_total(inventory) >= INVENTORY_CAPACITY {
        ShopOffer::NoRoom
    } else {
        ShopOffer::Buy
    }
}

/// What a shop slot's button offers.
pub fn shop_offer(slot: &ShopSlot, inventory: &Vec<InventoryItem>) -> (r: ShopOffer)
    ensures
        r == shop_offer_spec(*slot, inventory@),
{
    if str_equals(slot.status.as_str(), "sold") {
        ShopOffer::Sold
    } else if slot.already_own {
        ShopOffer::AlreadyOwned
    } else if inventory_full(inventory) {
        ShopOffer::NoRoom
    } else {
        ShopOffer::Buy
    }
}

/// Positions of the slots that were not rerolled away, in order.
pub fn visible_slots(slots: &Vec<ShopSlot>) -> (r: Vec<usize>)
    ensures
        forall|k: int| 0 <= k < r@.len() ==> r@[k] < slots@.len() && slots@[r@[k] as int].status@ != "rerolled"@,
        forall|k: int, l: int| 0 <= k < l < r@.len() ==> r@[k] < r@[l],
        forall|i: int| 0 <= i < slots@.len() && slots@[i].status@ != "rerolled"@ ==> r@.contains(i as usize),
{
    let mut r: Vec<usize> = Vec::new();
    let mut i: usize = 0;
    while i < slots.len()
        invariant
            i <= slots@.len(),
            forall|k: int| 0 <= k < r@.len() ==> r@[k] < i && slots@[r@[k] as int].status@ != "rerolled"@,
            forall|k: int, l: int| 0 <= k < l < r@.len() ==> r@[k] < r@[l],
            forall|j: int| 0 <= j < i && slots@[j].status@ != "rerolled"@ ==> r@.contains(j as usize),
        decreases slots@.len() - i,
    {
        if !str_equals(slots[i].status.as_str(), "rerolled") {
            let ghost before = r@;
            r.push(i);
            assert forall|j: int| 0 <= j < i + 1 && slots@[j].status@ != "rerolled"@ implies r@.contains(j as usize) by {
                if j < i {
                    let k = choose|k: int| 0 <= k < before.len() && before[k] == j as usize;
                    assert(r@[k] == j as usize);
                } else {
                    assert(r@[r@.len() - 1] == j as usize);
                }
            }
        }
        i = i + 1;
    }
    r
}

/// The price of the next reroll of the open shop (its slots carry the reroll count).
pub fn shop_reroll_price(slots: &Vec<ShopSlot>) -> (r: i64)
    ensures
        r == 50 + 15 * (if slots@.len() > 0 { slots@[0].reroll_count as int } else { 0 }),
{
    let count = if slots.len() > 0 { slots[0].reroll_count } else { 0 };
    reroll_cost(count)
}

// ---------------------------------------------------------------------------
// Properties

/// The card picture level of a property with `count` upgrades: 0 to 3 (counts out of
/// range show the highest level).
pub open spec fn svg_level_spec(count: int) -> int {
    if 0 <= count <= 3 { count } else { 3 }
}

/// The card picture level of a property with `count` upgrades.
pub fn svg_level(count: i32) -> (r: usize)
    ensures
        r == svg_level_spec(count as int),
{
    if 0 <= count && count <= 3 { count as usize } else { 3 }
}

/// The picture level of the player's property on cell `idx` (the last one listed there),
/// zero when the player owns none there.
pub open spec fn board_level_spec(props: Seq<PlayerProperty>, idx: int) -> int
    decreases props.len(),
{
    if props.len() == 0 {
        0
    } else if props.last().cell_index == idx {
        svg_level_spec(props.last().upgrades_count as int)
    } else {
        board_level_spec(props.drop_last(), idx)
    }
}

/// The picture level of the player's property on cell `idx`.
pub fn board_level(props: &Vec<PlayerProperty>, idx: i32) -> (r: usize)
    ensures
        r == board_level_spec(props@, idx as int),
{
    let mut k: usize = props.len();
    assert(props@.take(k as int) =~= props@);
    while k > 0
        invariant
            k <= props@.len(),
            board_level_spec(props@, idx as int) == board_level_spec(props@.take(k as int), idx as int),
        decreases k,
    {
        assert(props@.take(k as int).drop_last() =~= props@.take(k - 1));
        if props[k - 1].cell_index == idx {
            return svg_level(props[k - 1].upgrades_count);
        }
        k = k - 1;
    }
    0
}

/// Upgrades on the player's property on cell `idx` (the first one listed), zero when none.
pub open spec fn hovered_upgrades_spec(props: Seq<PlayerProperty>, idx: int) -> int
    decreases props.len(),
{
    if props.len() == 0 {
        0
    } else if props[0].cell_index == idx {
        props[0].upgrades_count as int
    } else {
        hovered_upgrades_spec(props.drop_first(), idx)
    }
}

/// Upgrades on the player's property on cell `idx`, for the cell card.
pub fn hovered_upgrades(props: &Vec<PlayerProperty>, idx: i32) -> (r: i32)
    ensures
        r == hovered_upgrades_spec(props@, idx as int),
{
    let mut i: usize = 0;
    assert(props@.skip(0) =~= props@);
    while i < props.len()
        invariant
            i <= props@.len(),
            hovered_upgrades_spec(props@, idx as int) == hovered_upgrades_spec(props@.skip(i as int), idx as int),
        decreases props@.len() - i,
    {
        assert(props@.skip(i as int).drop_first() =~= props@.skip(i + 1));
        if props[i].cell_index == idx {
            return props[i].upgrades_count;
        }
        i = i + 1;
    }
    0
}

/// Who owns a cell, as its card says.
pub open spec fn owner_label_spec(cell: BoardCell, user: Option<Id>, bots: Seq<BotParticipant>) -> Seq<char> {
    match cell.owner_user_id {
        Some(o) => if user == Some(o) {
            "Ваша"@
        } else {
            match first_bot(bots, o) {
                Some(i) => bots[i].username@,
                None => "Чужая"@,
            }
        },
        None => "Свободна"@,
    }
}

/// Index of the first bot with id `id`.
pub open spec fn first_bot(bots: Seq<BotParticipant>, id: Id) -> Option<int>
    decreases bots.len(),
{
    if bots.len() == 0 {
        None
    } else if bots[0].user_id == id {
        Some(0)
    } else {
        match first_bot(bots.drop_first(), id) {
            Some(i) => Some(i + 1),
            None => None,
        }
    }
}

fn find_bot(bots: &Vec<BotParticipant>, id: Id) -> (r: Option<usize>)
    ensures
        match r {
            Some(i) => i < bots@.len() && first_bot(bots@, id) == Some(i as int),
            None => first_bot(bots@, id) is None,
        },
{
    let mut i: usize = 0;
    while i < bots.len()
        invariant
            i <= bots@.len(),
            forall|k: int| 0 <= k < i ==> bots@[k].user_id != id,
        decreases bots@.len() - i,
    {
        if bots[i].user_id.0 == id.0 {
            proof {
                lemma_first_bot(bots@, id, i as int);
            }
            return Some(i);
        }
        i = i + 1;
    }
    proof {
        lemma_no_bot(bots@, id);
    }
    None
}

proof fn lemma_first_bot(bots: Seq<BotParticipant>, id: Id, i: int)
    requires
        0 <= i < bots.len(),
        bots[i].user_id == id,
        forall|k: int| 0 <= k < i ==> bots[k].user_id != id,
    ensures
        first_bot(bots, id) == Some(i),
    decreases i,
{
    if i > 0 {
        lemma_first_bot(bots.drop_first(), id, i - 1);
    }
}

proof fn lemma_no_bot(bots: Seq<BotParticipant>, id: Id)
    requires
        forall|k: int| 0 <= k < bots.len() ==> bots[k].user_id != id,
    ensures
        first_bot(bots, id) is None,
    decreases bots.len(),
{
    if bots.len() > 0 {
        lemma_no_bot(bots.drop_first(), id);
    }
}

/// Who owns a cell, as its card says: the player, a bot by name, someone else, or nobody.
pub fn owner_label(cell: &BoardCell, user: Option<Id>, bots: &Vec<BotParticipant>) -> (r: String)
    ensures
        r@ == owner_label_spec(*cell, user, bots@),
{
    match cell.owner_user_id {
        Some(o) => {
            let mine = match user {
                Some(u) => u.0 == o.0,
                None => false,
            };
            if mine {
                string_of("Ваша")
            } else {
                match find_bot(bots, o) {
                    Some(i) => string_of(bots[i].username.as_str()),
                    None => string_of("Чужая"),
                }
            }
        },
        None => string_of("Свободна"),
    }
}

/// Number of property cells owned by `bot`.
pub open spec fn bot_property_count_spec(cells: Seq<BoardCell>, bot: Id) -> nat
    decreases cells.len(),
{
    if cells.len() == 0 {
        0
    } else {
        bot_property_count_spec(cells.drop_last(), bot)
            + if cells.last().cell_type@ == "property"@ && cells.last().owner_user_id == Some(bot) { 1nat } else { 0nat }
    }
}

/// Number of property cells a bot owns, for the bots' panel.
pub fn bot_property_count(cells: &Vec<BoardCell>, bot: Id) -> (n: usize)
    ensures
        n == bot_property_count_spec(cells@, bot),
{
    let mut n: usize = 0;
    let mut i: usize = 0;
    while i < cells.len()
        invariant
            i <= cells@.len(),
            n == bot_property_count_spec(cells@.take(i as int), bot),
            n <= i,
        decreases cells@.len() - i,
    {
        assert(cells@.take(i + 1).drop_last() =~= cells@.take(i as int));
        let owned = match cells[i].owner_user_id {
            Some(o) => o.0 == bot.0,
            None => false,
        };
        if str_equals(cells[i].cell_type.as_str(), "property") && owned {
            n = n + 1;
        }
        i = i + 1;
    }
    assert(cells@.take(cells@.len() as int) =~= cells@);
    n
}

/// One installed upgrade whose fields were strings and whose id parsed.
pub open spec fn parsed_entry(name: Option<String>, id_text: Option<String>) -> Option<(Seq<char>, u128)> {
    match (name, id_text) {
        (Some(n), Some(t)) => match uuid_text_value(t@) {
            Some(v) => Some((n@, v)),
            None => None,
        },
        _ => None,
    }
}

/// What the uuid crate's `Uuid::parse_str` (which sqlx re-exports) makes of a
/// text: the UUID's 128 bits, or `None` where it does not parse.
pub uninterp spec fn uuid_text_value(text: Seq<char>) -> Option<u128>;

/// The uuid crate's `Uuid::parse_str` and `as_u128`: the value is [`uuid_text_value`].
#[verifier::external_body]
fn parse_uuid(text: &str) -> (r: Option<u128>)
    ensures
        r == uuid_text_value(text@),
{
    match sqlx::types::Uuid::parse_str(text) {
        Ok(u) => Some(u.as_u128()),
        Err(_) => None,
    }
}

/// The upgrades installed on a property that can be shown: those whose name and id are
/// strings and whose id parses, in order.
pub open spec fn installed_spec(entries: Seq<crate::model::UpgradeEntry>) -> Seq<(Seq<char>, u128)>
    decreases entries.len(),
{
    if entries.len() == 0 {
        Seq::empty()
    } else {
        let rest = installed_spec(entries.drop_last());
        match parsed_entry(entries.last().name, entries.last().power_up_id) {
            Some(p) => rest.push(p),
            None => rest,
        }
    }
}

/// The upgrades installed on a property, as names and ids.
pub fn installed_upgrades(prop: &PlayerProperty) -> (r: Vec<(String, Id)>)
    ensures
        r@.map_values(|p: (String, Id)| (p.0@, p.1.0)) == match prop.upgrades {
            Some(es) => installed_spec(es@),
            None => Seq::empty(),
        },
{
    let mut r: Vec<(String, Id)> = Vec::new();
    match &prop.upgrades {
        None => {
            assert(r@.map_values(|p: (String, Id)| (p.0@, p.1.0)) =~= Seq::<(Seq<char>, u128)>::empty());
            r
        },
        Some(es) => {
            let mut i: usize = 0;
            assert(r@.map_values(|p: (String, Id)| (p.0@, p.1.0)) =~= installed_spec(es@.take(0)));
            while i < es.len()
                invariant
                    i <= es@.len(),
                    r@.map_values(|p: (String, Id)| (p.0@, p.1.0)) == installed_spec(es@.take(i as int)),
                decreases es@.len() - i,
            {
                assert(es@.take(i + 1).drop_last() =~= es@.take(i as int));
                let e = &es[i];
                match (&e.name, &e.power_up_id) {
                    (Some(n), Some(t)) => match parse_uuid(t.as_str()) {
                        Some(v) => {
                            let ghost before = r@;
                            let item = (string_of(n.as_str()), Id(v));
                            r.push(item);
                            assert(r@.map_values(|p: (String, Id)| (p.0@, p.1.0))
                                =~= before.map_values(|p: (String, Id)| (p.0@, p.1.0)).push((n@, v)));
                        },
                        None => {},
                    },
                    _ => {},
                }
                i = i + 1;
            }
            assert(es@.take(es@.len() as int) =~= es@);
            r
        },
    }
}

/// How many upgrade slots a property shows (at least one).
pub fn upgrade_slots(prop: &PlayerProperty) -> (r: usize)
    ensures
        r == if prop.max_upgrades >= 1 { prop.max_upgrades as int } else { 1 },
{
    if prop.max_upgrades >= 1 { prop.max_upgrades as usize } else { 1 }
}

/// Whether the inventory is offered for installing: a slot is free and the inventory is not empty.
pub fn can_install_more(installed: usize, slots: usize, inventory: &Vec<InventoryItem>) -> (r: bool)
    ensures
        r == (installed < slots && inventory@.len() > 0),
{
    installed < slots && inventory.len() > 0
}

/// The short name of a power-up in the install list: after its last `:`, trimmed, ten characters.
pub open spec fn install_label_spec(name: Seq<char>) -> Seq<char> {
    prefix_seq(trim_seq(after_last(name, ':')), 10)
}

/// The short name of a power-up in the install list.
pub fn install_label(name: &str) -> (r: String)
    ensures
        r@ == install_label_spec(name@),
{
    let tail = after_last_text(name, ':');
    let trimmed = trim_text(tail.as_str());
    prefix_text(trimmed.as_str(), 10)
}

/// Whether a power-up is already installed (its id is among `installed`).
pub fn already_installed(installed: &Vec<(String, Id)>, power_up: Id) -> (r: bool)
    ensures
        r == exists|k: int| 0 <= k < installed@.len() && installed@[k].1 == power_up,
{
    let mut i: usize = 0;
    while i < installed.len()
        invariant
            i <= installed@.len(),
            forall|k: int| 0 <= k < i ==> installed@[k].1 != power_up,
        decreases installed@.len() - i,
    {
        if installed[i].1.0 == power_up.0 {
            return true;
        }
        i = i + 1;
    }
    false
}

/// The header colour of the player's property card in the management panel.
pub fn property_header_color(prop: &PlayerProperty) -> (r: &'static str)
    ensures
        r@ == crate::board::group_hex_spec(crate::board::property_group_spec(prop.cell_index as int)),
{
    group_hex(property_group(prop.cell_index))
}

// ---------------------------------------------------------------------------
// Game screen captions

/// Turns left in a game (never negative).
pub fn turns_left(rules: &GameRules, state: &ParticipantState) -> (r: i64)
    ensures
        r == crate::rules::moves_left(*rules, *state),
{
    let d: i64 = rules.max_turns as i64 - state.moves_made as i64;
    if d > 0 { d } else { 0 }
}

/// Whether the profile menu needs a scroll bar: more than five entries (the users and one button).
pub fn dropdown_needs_scroll(users: usize) -> (r: bool)
    ensures
        r == (users + 1 > 5),
{
    users >= 5
}

/// The ids of the users the profile menu offers: all of them, but the logged-in one.
pub fn dropdown_users(users: &Vec<(Id, String)>, current: Option<Id>) -> (r: Vec<usize>)
    ensures
        forall|k: int| 0 <= k < r@.len() ==> r@[k] < users@.len() && Some(users@[r@[k] as int].0) != current,
        forall|k: int, l: int| 0 <= k < l < r@.len() ==> r@[k] < r@[l],
        forall|i: int| 0 <= i < users@.len() && Some(users@[i].0) != current ==> r@.contains(i as usize),
{
    let mut r: Vec<usize> = Vec::new();
    let mut i: usize = 0;
    while i < users.len()
        invariant
            i <= users@.len(),
            forall|k: int| 0 <= k < r@.len() ==> r@[k] < i && Some(users@[r@[k] as int].0) != current,
            forall|k: int, l: int| 0 <= k < l < r@.len() ==> r@[k] < r@[l],
            forall|j: int| 0 <= j < i && Some(users@[j].0) != current ==> r@.contains(j as usize),
        decreases users@.len() - i,
    {
        let same = match current {
            Some(c) => c.0 == users[i].0.0,
            None => false,
        };
        if !same {
            let ghost before = r@;
            r.push(i);
            assert forall|j: int| 0 <= j < i + 1 && Some(users@[j].0) != current implies r@.contains(j as usize) by {
                if j < i {
                    let k = choose|k: int| 0 <= k < before.len() && before[k] == j as usize;
                    assert(r@[k] == j as usize);
                } else {
                    assert(r@[r@.len() - 1] == j as usize);
                }
            }
        }
        i = i + 1;
    }
    r
}

/// The caption of the button that opens or closes the property panel.
pub fn property_panel_label(open: bool) -> (r: &'static str)
    ensures
        r@ == if open { "▲ Мои объекты"@ } else { "▼ Мои объекты"@ },
{
    if open { "▲ Мои объекты" } else { "▼ Мои объекты" }
}

/// The caption of the settings screen's back button.
pub fn settings_back_label(from_game: bool) -> (r: &'static str)
    ensures
        r@ == if from_game { "Назад к игре"@ } else { "Назад"@ },
{
    if from_game { "Назад к игре" } else { "Назад" }
}

/// The picture of one die.
pub fn dice_svg_path(d: u8) -> (r: String)
    ensures
        r@ == "assets/dice_"@ + decimal(d as int) + ".svg"@,
{
    let mut r = string_of("assets/dice_");
    push_decimal(&mut r, d as i64);
    push_str(&mut r, ".svg");
    r
}

/// The newest lines of the bots' log, newest first, at most six.
pub fn recent_bot_moves(log: &Vec<String>) -> (r: Vec<String>)
    ensures
        r@.len() == if log@.len() < 6 { log@.len() } else { 6 },
        forall|k: int| 0 <= k < r@.len() ==> r@[k]@ == log@[log@.len() - 1 - k]@,
{
    let mut r: Vec<String> = Vec::new();
    let n = log.len();
    let m = if n < 6 { n } else { 6 };
    let mut k: usize = 0;
    while k < m
        invariant
            n == log@.len(),
            m == if n < 6 { n } else { 6 },
            k <= m,
            r@.len() == k,
            forall|j: int| 0 <= j < k ==> r@[j]@ == log@[n - 1 - j]@,
        decreases m - k,
    {
        r.push(string_of(log[n - 1 - k].as_str()));
        k = k + 1;
    }
    r
}

/// Who stands on cell `idx`: the player (at `player_pos`) first, then the bots there in order.
pub open spec fn occupants_spec(idx: int, player_pos: int, player: Option<Id>, bots: Seq<BotParticipant>) -> Seq<Id>
    decreases bots.len(),
{
    if bots.len() == 0 {
        match player {
            Some(p) => if player_pos == idx { seq![p] } else { Seq::empty() },
            None => Seq::empty(),
        }
    } else {
        let rest = occupants_spec(idx, player_pos, player, bots.drop_last());
        if bots.last().position == idx { rest.push(bots.last().user_id) } else { rest }
    }
}

/// Who stands on cell `idx`, for the pieces drawn there.
pub fn occupants(idx: i32, player_pos: i32, player: Option<Id>, bots: &Vec<BotParticipant>) -> (r: Vec<Id>)
    ensures
        r@ == occupants_spec(idx as int, player_pos as int, player, bots@),
{
    let mut r: Vec<Id> = Vec::new();
    if let Some(p) = player {
        if player_pos == idx {
            r.push(p);
        }
    }
    assert(r@ =~= occupants_spec(idx as int, player_pos as int, player, bots@.take(0)));
    let mut i: usize = 0;
    while i < bots.len()
        invariant
            i <= bots@.len(),
            r@ == occupants_spec(idx as int, player_pos as int, player, bots@.take(i as int)),
        decreases bots@.len() - i,
    {
        assert(bots@.take(i + 1).drop_last() =~= bots@.take(i as int));
        if bots[i].position == idx {
            r.push(copy_bot_id(&bots[i]));
        }
        i = i + 1;
    }
    assert(bots@.take(bots@.len() as int) =~= bots@);
    r
}

fn copy_bot_id(b: &BotParticipant) -> (r: Id)
    ensures
        r == b.user_id,
{
    Id(b.user_id.0)
}

// ---------------------------------------------------------------------------
// Game over

/// The headline of the game-over screen.
pub fn outcome_label(result: &GameResult) -> (r: &'static str)
    ensures
        r@ == if result.is_victory { "ПОБЕДА"@ } else { "ПОРАЖЕНИЕ"@ },
{
    if result.is_victory { "ПОБЕДА" } else { "ПОРАЖЕНИЕ" }
}

/// The line under the headline of the game-over screen.
pub open spec fn outcome_detail_spec(result: GameResult) -> Seq<char> {
    if result.is_victory {
        "Достигнут целевой баланс"@
    } else if result.game_status@ == "surrender"@ {
        "Вы сдались"@
    } else if result.game_status@ == "finished"@ {
        "Закончились ходы"@
    } else {
        result.game_status@
    }
}

/// The line under the headline of the game-over screen.
pub fn outcome_detail(result: &GameResult) -> (r: String)
    ensures
        r@ == outcome_detail_spec(*result),
{
    if result.is_victory {
        string_of("Достигнут целевой баланс")
    } else if str_equals(result.game_status.as_str(), "surrender") {
        string_of("Вы сдались")
    } else if str_equals(result.game_status.as_str(), "finished") {
        string_of("Закончились ходы")
    } else {
        string_of(result.game_status.as_str())
    }
}

// ---------------------------------------------------------------------------
// Property cards

/// The card template file for a property with `upgrades` upgrades (0 to 3).
pub open spec fn template_path_spec(upgrades: int) -> Seq<char> {
    "assets/property_"@ + decimal(if upgrades < 3 { upgrades } else { 3 }) + ".svg"@
}

/// The card template file for a property with `upgrades` upgrades.
pub fn property_template_path(upgrades: usize) -> (r: String)
    ensures
        r@ == template_path_spec(upgrades as int),
{
    let level: i64 = if upgrades < 3 { upgrades as i64 } else { 3 };
    let mut r = string_of("assets/property_");
    push_decimal(&mut r, level);
    push_str(&mut r, ".svg");
    r
}

/// The card drawn when the template cannot be read.
pub fn fallback_property_template() -> (r: &'static str)
    ensures
        r@ == "<svg xmlns=\"http://www.w3.org/2000/svg\" viewBox=\"256 256 256 256\"><rect x=\"256\" y=\"256\" width=\"254\" height=\"254\" fill=\"#d8d8d8\" stroke=\"#000\"/></svg>"@,
{
    "<svg xmlns=\"http://www.w3.org/2000/svg\" viewBox=\"256 256 256 256\"><rect x=\"256\" y=\"256\" width=\"254\" height=\"254\" fill=\"#d8d8d8\" stroke=\"#000\"/></svg>"
}

/// The elements written onto a property card: the header band, the owner's band, the
/// name (8 characters) in the header zone and the figure (8 characters) below the divider at
/// y = 496, both centred at x = 384 and escaped.
pub open spec fn card_injection_spec(name: Seq<char>, value: Seq<char>, header: Seq<char>, owner: Option<Seq<char>>) -> Seq<char> {
    "<rect x=\"256\" y=\"256\" width=\"256\" height=\"40\" fill=\""@ + header + "\" opacity=\"0.85\"/>"@
        + (match owner {
            Some(oc) => "<rect x=\"256\" y=\"496\" width=\"256\" height=\"16\" fill=\""@ + oc + "\" opacity=\"0.9\"/>"@,
            None => Seq::empty(),
        })
        + "<text x=\"384\" y=\"276\" text-anchor=\"middle\" dominant-baseline=\"middle\" font-family=\"sans-serif\" font-size=\"22\" fill=\"#111\">"@
        + xml_escape_seq(prefix_seq(name, 8))
        + "</text><text x=\"384\" y=\"507\" text-anchor=\"middle\" dominant-baseline=\"middle\" font-family=\"sans-serif\" font-size=\"20\" fill=\"#333\">"@
        + xml_escape_seq(prefix_seq(value, 8))
        + "</text>"@
}

/// The picture of a property card: `template` with the name, figure and colour bands
/// written in before every `</svg>`.
pub open spec fn card_markup_spec(template: Seq<char>, name: Seq<char>, value: Seq<char>, header: Seq<char>, owner: Option<Seq<char>>) -> Seq<char> {
    replace_seq(template, "</svg>"@, card_injection_spec(name, value, header, owner) + "</svg>"@)
}

/// Writes a property's name and figure and its colour bands onto the card template.
pub fn property_card_markup(template: &str, name: &str, value: &str, header: &str, owner: Option<&str>) -> (r: String)
    ensures
        r@ == card_markup_spec(template@, name@, value@, header@, match owner { Some(o) => Some(o@), None => None }),
{
    let name_short = prefix_text(name, 8);
    let value_short = prefix_text(value, 8);
    let mut inj = join3("<rect x=\"256\" y=\"256\" width=\"256\" height=\"40\" fill=\"", header, "\" opacity=\"0.85\"/>");
    match owner {
        Some(oc) => {
            push_str(&mut inj, "<rect x=\"256\" y=\"496\" width=\"256\" height=\"16\" fill=\"");
            push_str(&mut inj, oc);
            push_str(&mut inj, "\" opacity=\"0.9\"/>");
        },
        None => {},
    }
    push_str(&mut inj, "<text x=\"384\" y=\"276\" text-anchor=\"middle\" dominant-baseline=\"middle\" font-family=\"sans-serif\" font-size=\"22\" fill=\"#111\">");
    let n_esc = xml_escape(name_short.as_str());
    push_str(&mut inj, n_esc.as_str());
    push_str(&mut inj, "</text><text x=\"384\" y=\"507\" text-anchor=\"middle\" dominant-baseline=\"middle\" font-family=\"sans-serif\" font-size=\"20\" fill=\"#333\">");
    let v_esc = xml_escape(value_short.as_str());
    push_str(&mut inj, v_esc.as_str());
    push_str(&mut inj, "</text>");
    push_str(&mut inj, "</svg>");
    let ghost o = match owner { Some(x) => Some(x@), None => None::<Seq<char>> };
    assert(inj@ =~= card_injection_spec(name@, value@, header@, o) + "</svg>"@);
    proof {
        reveal_strlit("</svg>");
    }
    replace_text(template, "</svg>", inj.as_str())
}

} // verus!
