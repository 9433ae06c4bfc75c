//! Properties of the client that span messages, and of the rules as a whole.
use vstd::prelude::*;
use crate::auth::{bcrypt_verifies, credentials_spec};
use crate::board::{cell_at_spec, position_spec};
use crate::client::{
    bot_turn_err_post, bot_turn_ok_post, bots_loaded_post, create_game_post, current_bot_name, fresh,
    log_after, message_part, names_after_pop, next_bot_post, rent_log_after, roll_dice_post, step,
    step_requires, views, bot_action_text, Command, DreamBreaker, Message, TurnPhase,
};
use crate::model::{BalanceRow, BotTurnResult, DbError, GameRules, Id, ParticipantState};
use crate::rules::{bots_alive, dice_spec, moves_left, outcome_spec, GameOutcome, BOT_LOG_CAPACITY};
use crate::text::{replace_seq, xml_escape_char, xml_escape_seq};

verus! {

/// The new-game form's values are sane: a positive starting balance and a target above it,
/// both in hundreds, and a positive even number of turns.
pub open spec fn create_params_ok(s: DreamBreaker) -> bool {
    &&& s.create_game_balance >= 100
    &&& s.create_game_balance % 100 == 0
    &&& s.create_game_target_balance >= s.create_game_balance + 100
    &&& s.create_game_target_balance % 100 == 0
    &&& s.create_game_max_turns >= 2
    &&& s.create_game_max_turns % 2 == 0
}

/// A position on the forty-cell board.
pub open spec fn on_board(pos: int) -> bool {
    0 <= pos < 40
}

/// A loaded game screen puts the piece on the board.
pub open spec fn loads_on_board(msg: Message) -> bool {
    match msg {
        Message::GameScreenLoaded(Ok(gs)) => on_board(gs.state.position as int),
        _ => true,
    }
}

/// What every message keeps.
pub open spec fn step_facts(pre: DreamBreaker, msg: Message, post: DreamBreaker) -> bool {
    &&& (create_params_ok(pre) && step_requires(pre, msg) ==> create_params_ok(post))
    &&& (pre.bot_turn_log@.len() <= BOT_LOG_CAPACITY ==> post.bot_turn_log@.len() <= BOT_LOG_CAPACITY)
    &&& (pre.turn_phase != TurnPhase::Rolled && post.turn_phase == TurnPhase::Rolled
        ==> msg is RollDice && pre.turn_phase == TurnPhase::WaitingRoll)
    &&& (on_board(pre.local_player_pos as int) && loads_on_board(msg) ==> on_board(post.local_player_pos as int))
}

proof fn lemma_views_len(v: Seq<String>)
    ensures
        views(v).len() == v.len(),
{
}

proof fn lemma_next_bot_frame(mid: DreamBreaker, post: DreamBreaker, cmd: Command, seed: u32, with_status: bool)
    requires
        next_bot_post(mid, post, cmd, seed, with_status),
    ensures
        post.create_game_balance == mid.create_game_balance,
        post.create_game_target_balance == mid.create_game_target_balance,
        post.create_game_max_turns == mid.create_game_max_turns,
        post.bot_turn_log == mid.bot_turn_log,
        post.turn_phase == mid.turn_phase,
        post.local_player_pos == mid.local_player_pos,
{
}

proof fn lemma_bot_turn_ok_facts(pre: DreamBreaker, post: DreamBreaker, cmd: Command, r: BotTurnResult, seed: u32)
    requires
        bot_turn_ok_post(pre, post, cmd, r, seed),
    ensures
        step_facts(pre, Message::BotTurnDone(Ok(r)), post),
{
    let bot = current_bot_name(views(pre.bot_turn_names@));
    let mid = choose|mid: DreamBreaker| {
        &&& mid == DreamBreaker {
            bot_turn_names: mid.bot_turn_names,
            bot_turn_log: mid.bot_turn_log,
            rent_received_log: mid.rent_received_log,
            ..pre
        }
        &&& views(mid.bot_turn_names@) == names_after_pop(views(pre.bot_turn_names@))
        &&& views(mid.bot_turn_log@) == log_after(views(pre.bot_turn_log@), bot + ": "@ + bot_action_text(r))
        &&& views(mid.rent_received_log@) == rent_log_after(pre, r, bot)
        &&& next_bot_post(mid, post, cmd, seed, true)
    };
    lemma_next_bot_frame(mid, post, cmd, seed, true);
    lemma_views_len(mid.bot_turn_log@);
    lemma_views_len(pre.bot_turn_log@);
}

proof fn lemma_bot_turn_err_facts(pre: DreamBreaker, post: DreamBreaker, cmd: Command, e: DbError, seed: u32)
    requires
        bot_turn_err_post(pre, post, cmd, e, seed),
    ensures
        step_facts(pre, Message::BotTurnDone(Err(e)), post),
{
    let mid = choose|mid: DreamBreaker| {
        &&& mid == DreamBreaker { status: mid.status, bot_turn_names: mid.bot_turn_names, ..pre }
        &&& mid.status@ == "Ошибка хода бота: "@ + e.0@
        &&& views(mid.bot_turn_names@) == names_after_pop(views(pre.bot_turn_names@))
        &&& next_bot_post(mid, post, cmd, seed, false)
    };
    lemma_next_bot_frame(mid, post, cmd, seed, false);
}

proof fn lemma_step_facts_1(pre: DreamBreaker, msg: Message, post: DreamBreaker, cmd: Command)
    requires
        message_part(msg) == 1,
        step(pre, msg, post, cmd),
    ensures
        step_facts(pre, msg, post),
{
    match msg {
        _ => {},
    }
}

proof fn lemma_step_facts_2(pre: DreamBreaker, msg: Message, post: DreamBreaker, cmd: Command)
    requires
        message_part(msg) == 2,
        step(pre, msg, post, cmd),
    ensures
        step_facts(pre, msg, post),
{
    match msg {
        _ => {},
    }
}

proof fn lemma_step_facts_3(pre: DreamBreaker, msg: Message, post: DreamBreaker, cmd: Command)
    requires
        message_part(msg) == 3,
        step(pre, msg, post, cmd),
    ensures
        step_facts(pre, msg, post),
{
    match msg {
        _ => {},
    }
}

proof fn lemma_step_facts_4(pre: DreamBreaker, msg: Message, post: DreamBreaker, cmd: Command)
    requires
        message_part(msg) == 4,
        step(pre, msg, post, cmd),
    ensures
        step_facts(pre, msg, post),
{
    match msg {
        _ => {},
    }
}

proof fn lemma_step_facts_5(pre: DreamBreaker, msg: Message, post: DreamBreaker, cmd: Command)
    requires
        message_part(msg) == 5,
        step(pre, msg, post, cmd),
    ensures
        step_facts(pre, msg, post),
{
    match msg {
        Message::CreateGameSubmit => {
            let seed = choose|seed: i64| create_game_post(pre, post, cmd, seed);
        },
        _ => {},
    }
}

proof fn lemma_step_facts_6(pre: DreamBreaker, msg: Message, post: DreamBreaker, cmd: Command)
    requires
        message_part(msg) == 6,
        step(pre, msg, post, cmd),
    ensures
        step_facts(pre, msg, post),
{
    match msg {
        _ => {},
    }
}

proof fn lemma_step_facts_7(pre: DreamBreaker, msg: Message, post: DreamBreaker, cmd: Command)
    requires
        message_part(msg) == 7,
        step(pre, msg, post, cmd),
    ensures
        step_facts(pre, msg, post),
{
    match msg {
        _ => {},
    }
}

proof fn lemma_step_facts_8(pre: DreamBreaker, msg: Message, post: DreamBreaker, cmd: Command)
    requires
        message_part(msg) == 8,
        step(pre, msg, post, cmd),
    ensures
        step_facts(pre, msg, post),
{
    match msg {
        _ => {},
    }
}

proof fn lemma_step_facts_9(pre: DreamBreaker, msg: Message, post: DreamBreaker, cmd: Command)
    requires
        message_part(msg) == 9,
        step(pre, msg, post, cmd),
    ensures
        step_facts(pre, msg, post),
{
    match msg {
        _ => {},
    }
}

proof fn lemma_step_facts_10(pre: DreamBreaker, msg: Message, post: DreamBreaker, cmd: Command)
    requires
        message_part(msg) == 10,
        step(pre, msg, post, cmd),
    ensures
        step_facts(pre, msg, post),
{
    match msg {
        _ => {},
    }
}

proof fn lemma_step_facts_11(pre: DreamBreaker, msg: Message, post: DreamBreaker, cmd: Command)
    requires
        message_part(msg) == 11,
        step(pre, msg, post, cmd),
    ensures
        step_facts(pre, msg, post),
{
    match msg {
        Message::RollDice => {
            let seed = choose|seed: u32| seed < 1_000_000_000 && roll_dice_post(pre, post, cmd, seed);
        },
        _ => {},
    }
}

proof fn lemma_step_facts_12(pre: DreamBreaker, msg: Message, post: DreamBreaker, cmd: Command)
    requires
        message_part(msg) == 12,
        step(pre, msg, post, cmd),
    ensures
        step_facts(pre, msg, post),
{
    match msg {
        _ => {},
    }
}

proof fn lemma_step_facts_13(pre: DreamBreaker, msg: Message, post: DreamBreaker, cmd: Command)
    requires
        message_part(msg) == 13,
        step(pre, msg, post, cmd),
    ensures
        step_facts(pre, msg, post),
{
    match msg {
        _ => {},
    }
}

proof fn lemma_step_facts_14(pre: DreamBreaker, msg: Message, post: DreamBreaker, cmd: Command)
    requires
        message_part(msg) == 14,
        step(pre, msg, post, cmd),
    ensures
        step_facts(pre, msg, post),
{
    match msg {
        _ => {},
    }
}

proof fn lemma_step_facts_15(pre: DreamBreaker, msg: Message, post: DreamBreaker, cmd: Command)
    requires
        message_part(msg) == 15,
        step(pre, msg, post, cmd),
    ensures
        step_facts(pre, msg, post),
{
    match msg {
        _ => {},
    }
}

proof fn lemma_step_facts_16(pre: DreamBreaker, msg: Message, post: DreamBreaker, cmd: Command)
    requires
        message_part(msg) == 16,
        step(pre, msg, post, cmd),
    ensures
        step_facts(pre, msg, post),
{
    match msg {
        Message::BotsLoaded(Ok(bots)) => {
            let seed = choose|seed: u32| seed < 1_000_000_000 && bots_loaded_post(pre, post, cmd, bots, seed);
        },
        _ => {},
    }
}

proof fn lemma_step_facts_17(pre: DreamBreaker, msg: Message, post: DreamBreaker, cmd: Command)
    requires
        message_part(msg) == 17,
        step(pre, msg, post, cmd),
    ensures
        step_facts(pre, msg, post),
{
    match msg {
        Message::BotTurnDone(Ok(r)) => {
            let seed = choose|seed: u32| seed < 1_000_000_000 && bot_turn_ok_post(pre, post, cmd, r, seed);
            lemma_bot_turn_ok_facts(pre, post, cmd, r, seed);
        },
        Message::BotTurnDone(Err(e)) => {
            let seed = choose|seed: u32| 13 <= seed < 1_000_000_013 && bot_turn_err_post(pre, post, cmd, e, seed);
            lemma_bot_turn_err_facts(pre, post, cmd, e, seed);
        },
        _ => {},
    }
}

proof fn lemma_step_facts_18(pre: DreamBreaker, msg: Message, post: DreamBreaker, cmd: Command)
    requires
        message_part(msg) == 18,
        step(pre, msg, post, cmd),
    ensures
        step_facts(pre, msg, post),
{
    match msg {
        _ => {},
    }
}

proof fn lemma_step_facts_19(pre: DreamBreaker, msg: Message, post: DreamBreaker, cmd: Command)
    requires
        message_part(msg) == 19,
        step(pre, msg, post, cmd),
    ensures
        step_facts(pre, msg, post),
{
    match msg {
        _ => {},
    }
}

/// Facts every message keeps, whatever its part.
proof fn lemma_step_facts(pre: DreamBreaker, msg: Message, post: DreamBreaker, cmd: Command)
    requires
        step(pre, msg, post, cmd),
    ensures
        step_facts(pre, msg, post),
{
    let k = message_part(msg);
    if k == 1 {
        lemma_step_facts_1(pre, msg, post, cmd);
    } else if k == 2 {
        lemma_step_facts_2(pre, msg, post, cmd);
    } else if k == 3 {
        lemma_step_facts_3(pre, msg, post, cmd);
    } else if k == 4 {
        lemma_step_facts_4(pre, msg, post, cmd);
    } else if k == 5 {
        lemma_step_facts_5(pre, msg, post, cmd);
    } else if k == 6 {
        lemma_step_facts_6(pre, msg, post, cmd);
    } else if k == 7 {
        lemma_step_facts_7(pre, msg, post, cmd);
    } else if k == 8 {
        lemma_step_facts_8(pre, msg, post, cmd);
    } else if k == 9 {
        lemma_step_facts_9(pre, msg, post, cmd);
    } else if k == 10 {
        lemma_step_facts_10(pre, msg, post, cmd);
    } else if k == 11 {
        lemma_step_facts_11(pre, msg, post, cmd);
    } else if k == 12 {
        lemma_step_facts_12(pre, msg, post, cmd);
    } else if k == 13 {
        lemma_step_facts_13(pre, msg, post, cmd);
    } else if k == 14 {
        lemma_step_facts_14(pre, msg, post, cmd);
    } else if k == 15 {
        lemma_step_facts_15(pre, msg, post, cmd);
    } else if k == 16 {
        lemma_step_facts_16(pre, msg, post, cmd);
    } else if k == 17 {
        lemma_step_facts_17(pre, msg, post, cmd);
    } else if k == 18 {
        lemma_step_facts_18(pre, msg, post, cmd);
    } else {
        lemma_step_facts_19(pre, msg, post, cmd);
    }
}

/// A fresh client's new-game form is sane.
pub proof fn law_fresh_create_params(s: DreamBreaker)
    requires
        fresh(s),
    ensures
        create_params_ok(s),
{
}

/// Every message keeps the new-game form sane: the target stays at least a hundred above the
/// starting balance, both stay in hundreds, and the number of turns stays positive and even.
pub proof fn law_create_params_preserved(pre: DreamBreaker, msg: Message, post: DreamBreaker, cmd: Command)
    requires
        create_params_ok(pre),
        step_requires(pre, msg),
        step(pre, msg, post, cmd),
    ensures
        create_params_ok(post),
{
    lemma_step_facts(pre, msg, post, cmd);
}

/// The bots' log never holds more than ten lines.
pub proof fn law_bot_log_bounded(pre: DreamBreaker, msg: Message, post: DreamBreaker, cmd: Command)
    requires
        pre.bot_turn_log@.len() <= BOT_LOG_CAPACITY,
        step(pre, msg, post, cmd),
    ensures
        post.bot_turn_log@.len() <= BOT_LOG_CAPACITY,
{
    lemma_step_facts(pre, msg, post, cmd);
}

/// A turn is entered only by rolling the dice while waiting for the roll.
pub proof fn law_rolled_only_by_dice(pre: DreamBreaker, msg: Message, post: DreamBreaker, cmd: Command)
    requires
        pre.turn_phase != TurnPhase::Rolled,
        post.turn_phase == TurnPhase::Rolled,
        step(pre, msg, post, cmd),
    ensures
        msg is RollDice,
        pre.turn_phase == TurnPhase::WaitingRoll,
{
    lemma_step_facts(pre, msg, post, cmd);
}

/// The player's piece stays on the board: a position in 0..40 stays there, whatever the
/// message (a loaded game screen excepted, which brings its own position).
pub proof fn law_piece_stays_on_board(pre: DreamBreaker, msg: Message, post: DreamBreaker, cmd: Command)
    requires
        on_board(pre.local_player_pos as int),
        loads_on_board(msg),
        step(pre, msg, post, cmd),
    ensures
        on_board(post.local_player_pos as int),
{
    lemma_step_facts(pre, msg, post, cmd);
}

/// Rolling moves the piece forward by the sum of the two dice, each between 1 and 6, around
/// the board; the dice are shown and the turn may then be ended.
pub proof fn law_roll_moves_by_dice(pre: DreamBreaker, post: DreamBreaker, cmd: Command)
    requires
        on_board(pre.local_player_pos as int),
        pre.turn_phase == TurnPhase::WaitingRoll,
        !(pre.player_state is Some && pre.game_rules is Some
            && pre.player_state->0.moves_made >= pre.game_rules->0.max_turns),
        step(pre, Message::RollDice, post, cmd),
    ensures
        post.turn_phase == TurnPhase::Rolled,
        post.dice_roll matches Some(d) && 1 <= d.0 <= 6 && 1 <= d.1 <= 6
            && post.local_player_pos == (pre.local_player_pos + d.0 + d.1) % 40,
{
    let seed = choose|seed: u32| seed < 1_000_000_000 && roll_dice_post(pre, post, cmd, seed);
}

/// The dice cannot be rolled twice in a turn, nor once the game's turns are used up: the
/// roll then changes nothing but clearing this turn's notices.
pub proof fn law_no_roll_out_of_turn(pre: DreamBreaker, post: DreamBreaker, cmd: Command)
    requires
        pre.turn_phase != TurnPhase::WaitingRoll
            || (pre.player_state is Some && pre.game_rules is Some
                && pre.player_state->0.moves_made >= pre.game_rules->0.max_turns),
        step(pre, Message::RollDice, post, cmd),
    ensures
        post.turn_phase == pre.turn_phase,
        post.local_player_pos == pre.local_player_pos,
        post.dice_roll == pre.dice_roll,
        post.player_state == pre.player_state,
        cmd == Command::Nothing,
{
    let seed = choose|seed: u32| seed < 1_000_000_000 && roll_dice_post(pre, post, cmd, seed);
}

/// Ending a turn that has not been rolled does nothing.
pub proof fn law_end_turn_needs_roll(pre: DreamBreaker, post: DreamBreaker, cmd: Command)
    requires
        pre.turn_phase != TurnPhase::Rolled,
        step(pre, Message::EndTurn, post, cmd),
    ensures
        post == pre,
        cmd == Command::Nothing,
{
}

/// Each die shows 1 to 6, whatever the clock reads.
pub proof fn law_dice_range(seed: u32)
    ensures
        1 <= dice_spec(seed).0 <= 6,
        1 <= dice_spec(seed).1 <= 6,
{
}

/// Reaching the target balance wins the game.
pub proof fn law_target_wins(rules: GameRules, state: ParticipantState, rows: Seq<BalanceRow>, user: Id)
    requires
        state.balance >= rules.target_balance,
    ensures
        outcome_spec(rules, state, rows, user) == GameOutcome::Victory,
{
}

/// Outliving every bot wins the game.
pub proof fn law_last_one_standing_wins(rules: GameRules, state: ParticipantState, rows: Seq<BalanceRow>, user: Id)
    requires
        state.balance > 0,
        bots_alive(rows, user) == 0,
    ensures
        outcome_spec(rules, state, rows, user) == GameOutcome::Victory,
{
}

/// A bankrupt player short of the target loses.
pub proof fn law_bankrupt_loses(rules: GameRules, state: ParticipantState, rows: Seq<BalanceRow>, user: Id)
    requires
        state.balance <= 0,
        state.balance < rules.target_balance,
    ensures
        outcome_spec(rules, state, rows, user) == GameOutcome::Defeat,
{
}

/// Running out of turns short of a victory loses.
pub proof fn law_out_of_turns_loses(rules: GameRules, state: ParticipantState, rows: Seq<BalanceRow>, user: Id)
    requires
        state.moves_made >= rules.max_turns,
        state.balance < rules.target_balance,
        bots_alive(rows, user) > 0,
    ensures
        outcome_spec(rules, state, rows, user) == GameOutcome::Defeat,
{
}

/// While turns remain, a solvent player short of the target facing a solvent bot plays on.
pub proof fn law_game_goes_on(rules: GameRules, state: ParticipantState, rows: Seq<BalanceRow>, user: Id)
    requires
        state.moves_made < rules.max_turns,
        0 < state.balance < rules.target_balance,
        bots_alive(rows, user) > 0,
    ensures
        outcome_spec(rules, state, rows, user) == GameOutcome::Ongoing,
{
}

/// A password stored by registration lets its account log in: when bcrypt's `verify` accepts
/// the password against the stored hash (as it does for a hash that `hash_password` made from
/// it), an active account's login answers with that account.
pub proof fn law_registered_password_logs_in(r: Result<Id, DbError>, id: Id, hash: String, password: Seq<char>)
    requires
        bcrypt_verifies(password, hash@) == Some(true),
        credentials_spec(r, Some((id, hash, true)), password),
    ensures
        r == Ok::<Id, DbError>(id),
{
}

/// A wrong password never logs in.
pub proof fn law_wrong_password_refused(r: Result<Id, DbError>, creds: Option<(Id, String, bool)>, password: Seq<char>)
    requires
        creds matches Some(c) && bcrypt_verifies(password, c.1@) == Some(false),
        credentials_spec(r, creds, password),
    ensures
        r is Err,
{
}

/// Escaped text holds no `<`, `>` or `"`, so it cannot close or open markup.
pub proof fn law_escape_has_no_markup(s: Seq<char>)
    ensures
        forall|i: int| 0 <= i < xml_escape_seq(s).len() ==> {
            let c = #[trigger] xml_escape_seq(s)[i];
            c != '<' && c != '>' && c != '"'
        },
    decreases s.len(),
{
    if s.len() > 0 {
        law_escape_has_no_markup(s.drop_last());
        let a = xml_escape_seq(s.drop_last());
        let b = xml_escape_char(s.last());
        assert(xml_escape_seq(s) == a + b);
        assert forall|i: int| 0 <= i < (a + b).len() implies {
            let c = #[trigger] (a + b)[i];
            c != '<' && c != '>' && c != '"'
        } by {
            if i >= a.len() {
                assert((a + b)[i] == b[i - a.len()]);
            } else {
                assert((a + b)[i] == a[i]);
            }
        }
    }
}

/// Text without `&`, `<`, `>` and `"` is left as it is by escaping.
pub proof fn law_plain_text_unchanged(s: Seq<char>)
    requires
        forall|i: int| 0 <= i < s.len() ==> s[i] != '&' && s[i] != '<' && s[i] != '>' && s[i] != '"',
    ensures
        xml_escape_seq(s) == s,
    decreases s.len(),
{
    if s.len() > 0 {
        law_plain_text_unchanged(s.drop_last());
        assert(s.drop_last() + seq![s.last()] =~= s);
    }
}

/// Escaping works character by character: the escape of a concatenation is the
/// concatenation of the escapes.
pub proof fn law_escape_distributes(a: Seq<char>, b: Seq<char>)
    ensures
        xml_escape_seq(a + b) == xml_escape_seq(a) + xml_escape_seq(b),
    decreases b.len(),
{
    if b.len() == 0 {
        assert(a + b =~= a);
        assert(xml_escape_seq(a) + xml_escape_seq(b) =~= xml_escape_seq(a));
    } else {
        law_escape_distributes(a, b.drop_last());
        assert((a + b).drop_last() =~= a + b.drop_last());
        assert((a + b).last() == b.last());
        assert(xml_escape_seq(a) + xml_escape_seq(b.drop_last()) + xml_escape_char(b.last())
            =~= xml_escape_seq(a) + (xml_escape_seq(b.drop_last()) + xml_escape_char(b.last())));
    }
}

/// Reads XML text back: each of the entities `&amp;`, `&lt;`, `&gt;` and `&quot;` stands for
/// its character, every other character for itself.
pub open spec fn xml_unescape_seq(t: Seq<char>) -> Seq<char>
    decreases t.len(),
{
    if t.len() == 0 {
        Seq::empty()
    } else if t.len() >= 5 && t.take(5) == seq!['&', 'a', 'm', 'p', ';'] {
        seq!['&'] + xml_unescape_seq(t.skip(5))
    } else if t.len() >= 4 && t.take(4) == seq!['&', 'l', 't', ';'] {
        seq!['<'] + xml_unescape_seq(t.skip(4))
    } else if t.len() >= 4 && t.take(4) == seq!['&', 'g', 't', ';'] {
        seq!['>'] + xml_unescape_seq(t.skip(4))
    } else if t.len() >= 6 && t.take(6) == seq!['&', 'q', 'u', 'o', 't', ';'] {
        seq!['"'] + xml_unescape_seq(t.skip(6))
    } else {
        seq![t[0]] + xml_unescape_seq(t.skip(1))
    }
}

proof fn lemma_escape_front(s: Seq<char>)
    requires
        s.len() > 0,
    ensures
        xml_escape_seq(s) == xml_escape_char(s[0]) + xml_escape_seq(s.skip(1)),
{
    law_escape_distributes(seq![s[0]], s.skip(1));
    assert(seq![s[0]] + s.skip(1) =~= s);
    let one = seq![s[0]];
    assert(one.drop_last() =~= Seq::<char>::empty());
    assert(xml_escape_seq(one) == xml_escape_seq(one.drop_last()) + xml_escape_char(one.last()));
    assert(xml_escape_seq(one) =~= xml_escape_char(s[0]));
}

/// Escaping loses nothing: reading the escaped text back gives the text again.
pub proof fn law_escape_round_trip(s: Seq<char>)
    ensures
        xml_unescape_seq(xml_escape_seq(s)) == s,
    decreases s.len(),
{
    if s.len() == 0 {
        assert(xml_escape_seq(s) =~= Seq::<char>::empty());
    } else {
        let c = s[0];
        let rest = s.skip(1);
        lemma_escape_front(s);
        law_escape_round_trip(rest);
        let e = xml_escape_char(c);
        let r = xml_escape_seq(rest);
        let t = e + r;
        assert(xml_escape_seq(s) == t);
        assert(t.skip(e.len() as int) =~= r);
        if c == '&' {
            assert(t.take(5) =~= seq!['&', 'a', 'm', 'p', ';']);
        } else if c == '<' {
            assert(t[1] == 'l');
            assert(!(t.len() >= 5 && t.take(5) == seq!['&', 'a', 'm', 'p', ';'])) by {
                if t.len() >= 5 { assert(t.take(5)[1] == 'l'); }
            }
            assert(t.take(4) =~= seq!['&', 'l', 't', ';']);
        } else if c == '>' {
            assert(t[1] == 'g');
            assert(!(t.len() >= 5 && t.take(5) == seq!['&', 'a', 'm', 'p', ';'])) by {
                if t.len() >= 5 { assert(t.take(5)[1] == 'g'); }
            }
            assert(t.take(4) != seq!['&', 'l', 't', ';']) by {
                assert(t.take(4)[1] == 'g');
            }
            assert(t.take(4) =~= seq!['&', 'g', 't', ';']);
        } else if c == '"' {
            assert(e.len() == 6);
            assert(t[1] == 'q');
            assert(t.take(5) != seq!['&', 'a', 'm', 'p', ';']) by {
                assert(t.take(5)[1] == 'q');
            }
            assert(t.take(4) != seq!['&', 'l', 't', ';']) by {
                assert(t.take(4)[1] == 'q');
            }
            assert(t.take(4) != seq!['&', 'g', 't', ';']) by {
                assert(t.take(4)[1] == 'q');
            }
            assert(t.take(6) =~= seq!['&', 'q', 'u', 'o', 't', ';']);
        } else {
            assert(t[0] == c);
            assert(t.len() >= 5 ==> t.take(5)[0] == c);
            assert(t.len() >= 4 ==> t.take(4)[0] == c);
            assert(t.len() >= 6 ==> t.take(6)[0] == c);
        }
        assert(seq![c] + rest =~= s);
    }
}

/// Two texts with the same escape are the same text.
pub proof fn law_escape_injective(a: Seq<char>, b: Seq<char>)
    requires
        xml_escape_seq(a) == xml_escape_seq(b),
    ensures
        a == b,
{
    law_escape_round_trip(a);
    law_escape_round_trip(b);
}

/// The entity that stands for the character undone at step `k` of the unescaping by
/// replacement: `&quot;`, `&gt;`, `&lt;`, then `&amp;`.
pub open spec fn entity_at_step(k: int) -> Seq<char> {
    if k == 0 {
        seq!['&', 'q', 'u', 'o', 't', ';']
    } else if k == 1 {
        seq!['&', 'g', 't', ';']
    } else if k == 2 {
        seq!['&', 'l', 't', ';']
    } else {
        seq!['&', 'a', 'm', 'p', ';']
    }
}

/// The character undone at step `k`: `"`, `>`, `<`, then `&`.
pub open spec fn char_at_step(k: int) -> char {
    if k == 0 { '"' } else if k == 1 { '>' } else if k == 2 { '<' } else { '&' }
}

/// Undoes the escape with std's `replace` calls, in this order: `&quot;`, `&gt;`, `&lt;`,
/// `&amp;`.
pub open spec fn unescape_by_replace(t: Seq<char>) -> Seq<char> {
    replace_seq(
        replace_seq(
            replace_seq(replace_seq(t, entity_at_step(0), seq![char_at_step(0)]), entity_at_step(1), seq![char_at_step(1)]),
            entity_at_step(2),
            seq![char_at_step(2)],
        ),
        entity_at_step(3),
        seq![char_at_step(3)],
    )
}

/// What a character has become after the first `k` replacement steps of the unescaping.
spec fn partly_escaped_char(k: int, c: char) -> Seq<char> {
    if c == '"' {
        if k >= 1 { seq!['"'] } else { entity_at_step(0) }
    } else if c == '>' {
        if k >= 2 { seq!['>'] } else { entity_at_step(1) }
    } else if c == '<' {
        if k >= 3 { seq!['<'] } else { entity_at_step(2) }
    } else if c == '&' {
        if k >= 4 { seq!['&'] } else { entity_at_step(3) }
    } else {
        seq![c]
    }
}

/// What a text has become after the first `k` replacement steps of the unescaping.
spec fn partly_escaped(k: int, s: Seq<char>) -> Seq<char>
    decreases s.len(),
{
    if s.len() == 0 {
        Seq::empty()
    } else {
        partly_escaped_char(k, s[0]) + partly_escaped(k, s.skip(1))
    }
}

proof fn lemma_partly_escaped_ends(s: Seq<char>)
    ensures
        partly_escaped(0, s) == xml_escape_seq(s),
        partly_escaped(4, s) == s,
    decreases s.len(),
{
    if s.len() == 0 {
        assert(xml_escape_seq(s) =~= Seq::<char>::empty());
    } else {
        lemma_partly_escaped_ends(s.skip(1));
        lemma_escape_front(s);
        let c = s[0];
        assert(partly_escaped_char(0, c) =~= xml_escape_char(c));
        assert(partly_escaped_char(4, c) =~= seq![c]);
        assert(seq![c] + s.skip(1) =~= s);
    }
}

/// A chunk in which no match of an `&`-led pattern can start is copied by `replace` as it is.
proof fn lemma_replace_skips_chunk(ch: Seq<char>, u: Seq<char>, pat: Seq<char>, rep: Seq<char>)
    requires
        pat.len() >= 2,
        pat[0] == '&',
        forall|i: int| 0 < i < ch.len() ==> ch[i] != '&',
        ch.len() > 0 && ch[0] == '&' ==> ch.len() >= 2 && ch[1] != pat[1],
    ensures
        replace_seq(ch + u, pat, rep) == ch + replace_seq(u, pat, rep),
    decreases ch.len(),
{
    if ch.len() > 0 {
        let t = ch + u;
        assert(t[0] == ch[0]);
        if pat.len() <= t.len() {
            if ch[0] == '&' {
                assert(t.take(pat.len() as int)[1] == ch[1]);
            } else {
                assert(t.take(pat.len() as int)[0] == ch[0]);
            }
            assert(t.take(pat.len() as int) != pat);
        }
        assert(t.drop_first() =~= ch.drop_first() + u);
        lemma_replace_skips_chunk(ch.drop_first(), u, pat, rep);
        assert(seq![ch[0]] + ch.drop_first() =~= ch);
        assert(seq![ch[0]] + (ch.drop_first() + replace_seq(u, pat, rep)) =~= ch + replace_seq(u, pat, rep));
    }
}

proof fn lemma_replace_step(k: int, s: Seq<char>)
    requires
        0 <= k < 4,
    ensures
        replace_seq(partly_escaped(k, s), entity_at_step(k), seq![char_at_step(k)]) == partly_escaped(k + 1, s),
    decreases s.len(),
{
    let pat = entity_at_step(k);
    let rep = seq![char_at_step(k)];
    if s.len() == 0 {
    } else {
        let c = s[0];
        let rest = s.skip(1);
        lemma_replace_step(k, rest);
        let ch = partly_escaped_char(k, c);
        let u = partly_escaped(k, rest);
        let t = ch + u;
        assert(partly_escaped(k, s) == t);
        if c == char_at_step(k) && (c == '"' || c == '>' || c == '<' || c == '&') {
            assert(ch =~= pat);
            assert(t.take(pat.len() as int) =~= pat);
            assert(t.skip(pat.len() as int) =~= u);
            assert(partly_escaped_char(k + 1, c) =~= rep);
        } else {
            assert(partly_escaped_char(k + 1, c) =~= ch);
            assert forall|i: int| 0 < i < ch.len() implies ch[i] != '&' by {}
            lemma_replace_skips_chunk(ch, u, pat, rep);
        }
    }
}

/// Escaping loses nothing when undone with std's `replace` calls: replacing `&quot;`, `&gt;`,
/// `&lt;` and then `&amp;` by their characters gives the text back.
pub proof fn law_escape_undone_by_replace(s: Seq<char>)
    ensures
        unescape_by_replace(xml_escape_seq(s)) == s,
{
    lemma_partly_escaped_ends(s);
    lemma_replace_step(0, s);
    lemma_replace_step(1, s);
    lemma_replace_step(2, s);
    lemma_replace_step(3, s);
}

/// The start bonus: with a positive balance before the turn, ending on the start cell earns
/// 400 wherever the roll began; ending elsewhere at a lower cell than before the roll (the
/// piece went round) earns 200; anything else, or a balance that was not positive, earns none.
pub proof fn law_start_bonus(old_balance: int, new_position: int, position_before_roll: int)
    ensures
        old_balance > 0 && new_position == 0 ==> crate::rules::start_bonus_spec(old_balance, new_position, position_before_roll) == 400,
        old_balance > 0 && new_position != 0 && new_position < position_before_roll
            ==> crate::rules::start_bonus_spec(old_balance, new_position, position_before_roll) == 200,
        old_balance > 0 && new_position != 0 && new_position >= position_before_roll
            ==> crate::rules::start_bonus_spec(old_balance, new_position, position_before_roll) == 0,
        old_balance <= 0 ==> crate::rules::start_bonus_spec(old_balance, new_position, position_before_roll) == 0,
{
}

/// A saved turn that ends on the start cell, with a positive balance before it, shows the
/// landing bonus; one that went round past the start shows the passing bonus.
pub proof fn law_saved_turn_start_log(pre: DreamBreaker, ns: ParticipantState, post: DreamBreaker, cmd: Command)
    requires
        pre.player_state matches Some(old) && old.balance > 0,
        step(pre, Message::TurnSaved(Ok(ns)), post, cmd),
    ensures
        ns.position == 0 ==> views(post.start_log@) == seq!["Встали на СТАРТ: +400"@],
        ns.position != 0 && ns.position < pre.rolled_from ==> views(post.start_log@) == seq!["Прошли СТАРТ: +200"@],
        ns.position != 0 && ns.position >= pre.rolled_from ==> views(post.start_log@).len() == 0,
{
}

/// Every solvent bot row counts: appending a row adds one exactly when it is a bot other than
/// the player with a positive balance.
pub proof fn law_bots_alive_counts_each_row(rows: Seq<BalanceRow>, r: BalanceRow, user: Id)
    ensures
        bots_alive(rows.push(r), user) == bots_alive(rows, user)
            + (if r.user_id != user && r.user_type@ == "bot"@ && r.balance > 0 { 1int } else { 0int }),
{
    assert(rows.push(r).drop_last() =~= rows);
}

/// Some bot is still in the game exactly when some row, wherever it stands, is a bot other than
/// the player with a positive balance.
pub proof fn law_bots_alive_iff_solvent_bot(rows: Seq<BalanceRow>, user: Id)
    ensures
        (bots_alive(rows, user) > 0) <==> exists|i: int| 0 <= i < rows.len()
            && rows[i].user_id != user && #[trigger] rows[i].user_type@ == "bot"@ && rows[i].balance > 0,
    decreases rows.len(),
{
    if rows.len() > 0 {
        let init = rows.drop_last();
        law_bots_alive_iff_solvent_bot(init, user);
        let last = rows.len() - 1;
        if exists|i: int| 0 <= i < rows.len()
            && rows[i].user_id != user && #[trigger] rows[i].user_type@ == "bot"@ && rows[i].balance > 0 {
            let i = choose|i: int| 0 <= i < rows.len()
                && rows[i].user_id != user && #[trigger] rows[i].user_type@ == "bot"@ && rows[i].balance > 0;
            if i < last {
                assert(init[i] == rows[i]);
            }
        }
        assert forall|i: int| 0 <= i < init.len()
            && init[i].user_id != user && #[trigger] init[i].user_type@ == "bot"@ && init[i].balance > 0
            implies rows[i].user_type@ == "bot"@ && rows[i].user_id != user && rows[i].balance > 0 by {
            assert(init[i] == rows[i]);
        }
    }
}

/// While turns remain, a solvent player short of the target plays on as long as any bot row
/// other than the player, wherever it stands, still has money.
pub proof fn law_solvent_bot_keeps_game_going(rules: GameRules, state: ParticipantState, rows: Seq<BalanceRow>, user: Id, i: int)
    requires
        state.moves_made < rules.max_turns,
        0 < state.balance < rules.target_balance,
        0 <= i < rows.len(),
        rows[i].user_id != user,
        rows[i].user_type@ == "bot"@,
        rows[i].balance > 0,
    ensures
        outcome_spec(rules, state, rows, user) == GameOutcome::Ongoing,
{
    law_bots_alive_iff_solvent_bot(rows, user);
}

/// The player owns a property of a given name exactly when some cell carries that name and is
/// owned by the player; a cell owned by anyone else never counts.
pub proof fn law_owns_named_means_owned_by_player(cells: Seq<crate::model::BoardCell>, name: Seq<char>, user: Id)
    ensures
        crate::client::player_owns_named(cells, name, user) <==> exists|i: int| 0 <= i < cells.len()
            && (#[trigger] cells[i].prop_name matches Some(n) && n@ == name)
            && cells[i].owner_user_id == Some(user),
{
    if crate::client::player_owns_named(cells, name, user) {
        let i = choose|i: int| 0 <= i < cells.len() && #[trigger] crate::client::owned_named(cells[i], name, user);
        assert(cells[i].prop_name matches Some(n) && n@ == name);
    }
    if exists|i: int| 0 <= i < cells.len()
        && (#[trigger] cells[i].prop_name matches Some(n) && n@ == name)
        && cells[i].owner_user_id == Some(user) {
        let i = choose|i: int| 0 <= i < cells.len()
            && (#[trigger] cells[i].prop_name matches Some(n) && n@ == name)
            && cells[i].owner_user_id == Some(user);
        assert(crate::client::owned_named(cells[i], name, user));
    }
}

/// Rent a bot paid is shown as the player's income only when the player owns a cell of that
/// name: otherwise the received-rent log is left as it was.
pub proof fn law_rent_logged_only_for_own_cells(pre: DreamBreaker, r: BotTurnResult, bot: Seq<char>)
    requires
        forall|i: int| 0 <= i < pre.board_cells@.len() ==> !(
            (#[trigger] pre.board_cells@[i].prop_name matches Some(n) && n@ == crate::text::before_first(r.action_detail@, ':'))
            && pre.board_cells@[i].owner_user_id == crate::client::uid(pre)),
    ensures
        rent_log_after(pre, r, bot) == views(pre.rent_received_log@),
{
    match crate::client::uid(pre) {
        Some(u) => {
            law_owns_named_means_owned_by_player(pre.board_cells@, crate::text::before_first(r.action_detail@, ':'), u);
        },
        None => {},
    }
}

/// The dice: the first die is the clock reading modulo 6 plus one, the second the reading
/// divided by 7, modulo 6, plus one; so every face of each die can come up.
pub proof fn law_dice_faces(seed: u32, k: int)
    ensures
        dice_spec(seed).0 == seed % 6 + 1,
        dice_spec(seed).1 == (seed / 7) % 6 + 1,
        1 <= k <= 6 ==> dice_spec((k - 1) as u32).0 == k && dice_spec((7 * (k - 1)) as u32).1 == k,
{
}

/// Every item counts toward the inventory's fill: appending an item adds its quantity.
pub proof fn law_inventory_total_counts_each_item(items: Seq<crate::model::InventoryItem>, x: crate::model::InventoryItem)
    ensures
        crate::rules::inventory_total(items.push(x)) == crate::rules::inventory_total(items) + x.quantity,
{
    assert(items.push(x).drop_last() =~= items);
}

/// An inventory of single items holds as many as it lists.
pub proof fn law_inventory_total_of_singles(items: Seq<crate::model::InventoryItem>)
    requires
        forall|i: int| 0 <= i < items.len() ==> #[trigger] items[i].quantity == 1,
    ensures
        crate::rules::inventory_total(items) == items.len(),
    decreases items.len(),
{
    if items.len() > 0 {
        law_inventory_total_of_singles(items.drop_last());
    }
}

/// A slot that is neither sold nor owned offers no purchase once the inventory holds five
/// power-ups, and offers one while it holds fewer.
pub proof fn law_full_inventory_blocks_buying(slot: crate::model::ShopSlot, inventory: Seq<crate::model::InventoryItem>)
    requires
        slot.status@ != "sold"@,
        !slot.already_own,
    ensures
        crate::rules::inventory_total(inventory) >= 5 ==> crate::display::shop_offer_spec(slot, inventory) == crate::display::ShopOffer::NoRoom,
        crate::rules::inventory_total(inventory) < 5 ==> crate::display::shop_offer_spec(slot, inventory) == crate::display::ShopOffer::Buy,
{
}

/// The forty cells lie once each on the rim of the grid: cell `idx` sits at its position,
/// and every rim position that shows a cell shows the cell placed there.
pub proof fn law_board_layout(idx: int, row: int, col: int)
    ensures
        0 <= idx < 40 ==> {
            let p = position_spec(idx);
            &&& 0 <= p.0 < 11 && 0 <= p.1 < 11
            &&& cell_at_spec(p.0, p.1) == Some(idx)
        },
        cell_at_spec(row, col) matches Some(i) ==> 0 <= i < 40 && position_spec(i) == (row, col),
{
}

} // verus!
