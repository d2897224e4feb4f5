//! The state of the main window and its decisions: when the tool may start,
//! how one round of window picking moves on, which key a keystroke records,
//! and how tasks, intervals, recording, running and picking change.
use vstd::prelude::*;
use crate::config;
use crate::config::{config_from_state, AppConfig};
use crate::i18n;
use crate::i18n::{Language, UiText};
use crate::key_sender;
use crate::key_sender::{SendMode, VirtualKey};
use crate::scheduler;
use crate::scheduler::{KeyTask, SendStats};
use crate::window_picker;
use crate::window_picker::{MousePressPoll, MousePressSnapshot, WindowInfo};
use crate::text;
use crate::text::{chars_eq_str, chars_of, parse_u64_chars, push_decimal, trim_chars, utf8_len_at_most};

verus! {

/// The tool may start: it is idle, a target window is chosen, and keys may
/// be posted.
pub open spec fn may_start(is_running: bool, has_target: bool, accessibility_ready: bool) -> bool {
    !is_running && has_target && accessibility_ready
}

/// Why an idle tool may not start, the missing permission before the missing
/// target; nothing while it runs or when nothing is missing.
pub open spec fn block_reason_of(is_running: bool, has_target: bool, accessibility_ready: bool) -> Option<StartBlockReason> {
    if is_running {
        None
    } else if !accessibility_ready {
        Some(StartBlockReason::MissingPermission)
    } else if !has_target {
        Some(StartBlockReason::MissingTarget)
    } else {
        None
    }
}

/// Whether the start button may start.
pub fn can_start(is_running: bool, has_target: bool, accessibility_ready: bool) -> (b: bool)
    ensures
        b == may_start(is_running, has_target, accessibility_ready),
{
    !is_running && has_target && accessibility_ready
}

/// Why the tool may not start.
#[derive(Clone, Copy, Debug, PartialEq, Eq, Structural)]
pub enum StartBlockReason {
    MissingPermission,
    MissingTarget,
}

/// Why the tool may not start, if anything blocks it.
pub fn start_block_reason(is_running: bool, has_target: bool, accessibility_ready: bool) -> (r:
    Option<StartBlockReason>)
    ensures
        r == block_reason_of(is_running, has_target, accessibility_ready),
{
    if is_running {
        None
    } else if !accessibility_ready {
        Some(StartBlockReason::MissingPermission)
    } else if !has_target {
        Some(StartBlockReason::MissingTarget)
    } else {
        None
    }
}

/// An idle tool may start exactly when no reason blocks it; a running tool
/// may not start and shows no reason.
pub proof fn lemma_start_and_block_reason_agree(
    is_running: bool,
    has_target: bool,
    accessibility_ready: bool,
)
    ensures
        may_start(is_running, has_target, accessibility_ready) <==> (!is_running
            && block_reason_of(is_running, has_target, accessibility_ready) is None),
        is_running ==> !may_start(is_running, has_target, accessibility_ready)
            && block_reason_of(is_running, has_target, accessibility_ready) is None,
{
}

/// The outcome of one round of the window picker.
#[derive(Debug, PartialEq, Eq)]
pub struct PickFrame<T> {
    pub target: Option<T>,
    pub ready_to_confirm: bool,
    pub stop_picking: bool,
    pub changed: bool,
}

/// One round of the window picker. The target becomes the window under the
/// cursor, or stays the current one where there is none. The picker is ready
/// to confirm once the mouse has been seen released; once ready, a press or a
/// click between two rounds confirms the pick and stops picking. `changed`
/// tells whether the target is another window than before, as `same_target`
/// judges.
pub fn advance_pick_frame<T: Clone>(
    current_target: Option<&T>,
    hovered_target: Option<T>,
    ready_to_confirm: bool,
    mouse_pressed: bool,
    mouse_clicked: bool,
    same_target: impl Fn(&T, &T) -> bool,
) -> (frame: PickFrame<T>)
    requires
        forall|a: &T, b: &T| same_target.requires((a, b)),
    ensures
        hovered_target is Some ==> frame.target == hovered_target,
        hovered_target is None ==> (frame.target is Some <==> current_target is Some),
        hovered_target is None && current_target is Some ==> cloned::<T>(
            *current_target.unwrap(),
            frame.target.unwrap(),
        ),
        frame.ready_to_confirm == (ready_to_confirm || !mouse_pressed),
        frame.stop_picking == (frame.ready_to_confirm && (mouse_pressed || mouse_clicked)),
        current_target is None && frame.target is None ==> !frame.changed,
        current_target is None != frame.target is None ==> frame.changed,
        current_target is Some && frame.target is Some ==> same_target.ensures(
            (current_target.unwrap(), &frame.target.unwrap()),
            !frame.changed,
        ),
{
    let target = match hovered_target {
        Some(h) => Some(h),
        None => current_target.cloned(),
    };
    let changed = match (current_target, &target) {
        (Some(current), Some(next)) => !same_target(current, next),
        (None, None) => false,
        _ => true,
    };
    let ready = ready_to_confirm || !mouse_pressed;
    let stop_picking = ready && (mouse_pressed || mouse_clicked);
    PickFrame { target, ready_to_confirm: ready, stop_picking, changed }
}

/// The window level of a normal macOS window.
pub const NS_NORMAL_WINDOW_LEVEL: isize = 0;

/// The window level of a macOS pop-up window, which stays above normal ones.
pub const NS_POP_UP_WINDOW_LEVEL: isize = 101;

/// The macOS window level for a window that stays on top, or not.
pub fn mac_window_level(on_top: bool) -> (level: isize)
    ensures
        level == (if on_top {
            NS_POP_UP_WINDOW_LEVEL
        } else {
            NS_NORMAL_WINDOW_LEVEL
        }),
{
    if on_top {
        NS_POP_UP_WINDOW_LEVEL
    } else {
        NS_NORMAL_WINDOW_LEVEL
    }
}

/// What `str::to_uppercase` gives for a string: its Unicode upper case.
pub uninterp spec fn uppercase_of(s: Seq<char>) -> Seq<char>;

/// Calls `str::to_uppercase`. The result is taken as `uppercase_of` of the
/// argument. Of the Unicode case mapping that decides it, only its ASCII part
/// is restated: on an ASCII text each small letter becomes its capital and
/// every other character stays.
#[verifier::external_body]
fn to_uppercase(s: &str) -> (u: String)
    ensures
        u@ == uppercase_of(s@),
        vstd::utf8::is_ascii_chars(s@) ==> u@ == text::ascii_uppercase(s@),
{
    s.to_uppercase()
}

/// The key that an upper-cased key name from the GUI toolkit stands for:
/// a named key, a single ASCII letter or digit (by its code), or `F` with a
/// number from 1 to 12 in at most three bytes.
pub open spec fn vk_for_uppercased(u: Seq<char>) -> Option<VirtualKey> {
    if u == "SPACE"@ || u == " "@ {
        Some(VirtualKey(0x20))
    } else if u == "ENTER"@ || u == "RETURN"@ {
        Some(VirtualKey(0x0D))
    } else if u == "TAB"@ {
        Some(VirtualKey(0x09))
    } else if u == "ESCAPE"@ {
        Some(VirtualKey(0x1B))
    } else if u == "BACKSPACE"@ {
        Some(VirtualKey(0x08))
    } else if u == "DELETE"@ {
        Some(VirtualKey(0x2E))
    } else if u == "UP"@ {
        Some(VirtualKey(0x26))
    } else if u == "DOWN"@ {
        Some(VirtualKey(0x28))
    } else if u == "LEFT"@ {
        Some(VirtualKey(0x25))
    } else if u == "RIGHT"@ {
        Some(VirtualKey(0x27))
    } else if u == "HOME"@ {
        Some(VirtualKey(0x24))
    } else if u == "END"@ {
        Some(VirtualKey(0x23))
    } else if u == "PAGEUP"@ {
        Some(VirtualKey(0x21))
    } else if u == "PAGEDOWN"@ {
        Some(VirtualKey(0x22))
    } else if u == "INSERT"@ {
        Some(VirtualKey(0x2D))
    } else if text::utf8_len(u) == 1 {
        if text::is_ascii_alpha(u[0]) || text::is_ascii_digit(u[0]) {
            Some(VirtualKey((u[0] as u32) as u16))
        } else {
            None
        }
    } else if u.len() > 0 && u[0] == 'F' && text::utf8_len(u) <= 3 {
        match text::unsigned_decimal_value(u.drop_first()) {
            Some(n) => if 1 <= n <= 12 {
                Some(VirtualKey((0x6F + n) as u16))
            } else {
                None
            },
            None => None,
        }
    } else {
        None
    }
}

/// The key for an upper-cased key name.
pub fn vk_for_uppercased_key(upper: &str) -> (vk: Option<VirtualKey>)
    ensures
        vk == vk_for_uppercased(upper@),
{
    let u = chars_of(upper);
    proof {
        text::lemma_utf8_len_at_least_chars(u@);
    }
    if chars_eq_str(&u, "SPACE") || chars_eq_str(&u, " ") {
        Some(VirtualKey(0x20))
    } else if chars_eq_str(&u, "ENTER") || chars_eq_str(&u, "RETURN") {
        Some(VirtualKey(0x0D))
    } else if chars_eq_str(&u, "TAB") {
        Some(VirtualKey(0x09))
    } else if chars_eq_str(&u, "ESCAPE") {
        Some(VirtualKey(0x1B))
    } else if chars_eq_str(&u, "BACKSPACE") {
        Some(VirtualKey(0x08))
    } else if chars_eq_str(&u, "DELETE") {
        Some(VirtualKey(0x2E))
    } else if chars_eq_str(&u, "UP") {
        Some(VirtualKey(0x26))
    } else if chars_eq_str(&u, "DOWN") {
        Some(VirtualKey(0x28))
    } else if chars_eq_str(&u, "LEFT") {
        Some(VirtualKey(0x25))
    } else if chars_eq_str(&u, "RIGHT") {
        Some(VirtualKey(0x27))
    } else if chars_eq_str(&u, "HOME") {
        Some(VirtualKey(0x24))
    } else if chars_eq_str(&u, "END") {
        Some(VirtualKey(0x23))
    } else if chars_eq_str(&u, "PAGEUP") {
        Some(VirtualKey(0x21))
    } else if chars_eq_str(&u, "PAGEDOWN") {
        Some(VirtualKey(0x22))
    } else if chars_eq_str(&u, "INSERT") {
        Some(VirtualKey(0x2D))
    } else if utf8_len_at_most(&u, 1) && u.len() == 1 {
        let ch = u[0];
        assert(u@.drop_last().len() == 0);
        if ('A' <= ch && ch <= 'Z') || ('a' <= ch && ch <= 'z') || ('0' <= ch && ch <= '9') {
            Some(VirtualKey((ch as u32) as u16))
        } else {
            None
        }
    } else if u.len() > 0 && u[0] == 'F' && utf8_len_at_most(&u, 3) {
        let mut rest: Vec<char> = Vec::new();
        let mut i: usize = 1;
        while i < u.len()
            invariant
                1 <= i <= u@.len(),
                rest@ == u@.subrange(1, i as int),
            decreases u@.len() - i,
        {
            rest.push(u[i]);
            i = i + 1;
            assert(rest@ =~= u@.subrange(1, i as int));
        }
        assert(rest@ =~= u@.drop_first());
        proof {
            text::lemma_utf8_len_at_least_chars(u@);
        }
        match parse_u64_chars(&rest) {
            Some(n) => {
                if 1 <= n && n <= 12 {
                    Some(VirtualKey(0x6F + n as u16))
                } else {
                    None
                }
            },
            None => {
                proof {
                    assert(rest@.len() <= 2);
                    match text::unsigned_decimal_value(rest@) {
                        Some(v) => {
                            lemma_small_decimal(rest@);
                        },
                        None => {},
                    }
                }
                None
            },
        }
    } else {
        None
    }
}

/// A number of at most two characters is below a hundred.
proof fn lemma_small_decimal(s: Seq<char>)
    requires
        s.len() <= 2,
        text::unsigned_decimal_value(s) is Some,
    ensures
        text::unsigned_decimal_value(s).unwrap() < 100,
{
    let d = if s.len() > 0 && s[0] == '+' {
        s.drop_first()
    } else {
        s
    };
    assert(text::all_digits(d));
    if d.len() == 1 {
        assert(d.drop_last().len() == 0);
        assert(d.last() == d[0]);
        assert(text::is_ascii_digit(d[0]));
        assert(text::digits_value(d.drop_last()) == 0);
        assert(text::digits_value(d) == text::digit_value(d[0]));
    } else {
        assert(d.len() == 2);
        let p = d.drop_last();
        assert(p.drop_last().len() == 0);
        assert(p.last() == d[0]);
        assert(d.last() == d[1]);
        assert(text::is_ascii_digit(d[0]));
        assert(text::is_ascii_digit(d[1]));
        assert(text::digits_value(p.drop_last()) == 0);
        assert(text::digits_value(p) == text::digit_value(d[0]));
        assert(text::digits_value(d) == text::digits_value(p) * 10 + text::digit_value(d[1]));
    }
}

/// Every key that an upper-cased key name stands for is in the key table,
/// so the interface shows it by its table name, never as `?`.
pub proof fn lemma_recorded_keys_are_named(u: Seq<char>)
    requires
        vk_for_uppercased(u) is Some,
        u.len() > 0 ==> !text::is_ascii_lower(u[0]),
    ensures
        key_sender::key_index(vk_for_uppercased(u).unwrap().0) >= 0,
        key_sender::key_name(vk_for_uppercased(u).unwrap().0) == key_sender::key_entry(
            key_sender::key_index(vk_for_uppercased(u).unwrap().0),
        ).0,
{
    let code = vk_for_uppercased(u).unwrap().0;
    assert(key_sender::key_index(code) >= 0);
    key_sender::lemma_key_index_finds_code(code);
    key_sender::lemma_table_key_name(key_sender::key_index(code));
}

/// The spelling of the key words that `vk_for_uppercased` compares with.
proof fn lemma_key_words_spelled()
    ensures
        "SPACE"@ == seq!['S', 'P', 'A', 'C', 'E'],
        " "@ == seq![' '],
        "ENTER"@ == seq!['E', 'N', 'T', 'E', 'R'],
        "RETURN"@ == seq!['R', 'E', 'T', 'U', 'R', 'N'],
        "TAB"@ == seq!['T', 'A', 'B'],
        "ESCAPE"@ == seq!['E', 'S', 'C', 'A', 'P', 'E'],
        "BACKSPACE"@ == seq!['B', 'A', 'C', 'K', 'S', 'P', 'A', 'C', 'E'],
        "DELETE"@ == seq!['D', 'E', 'L', 'E', 'T', 'E'],
        "UP"@ == seq!['U', 'P'],
        "DOWN"@ == seq!['D', 'O', 'W', 'N'],
        "LEFT"@ == seq!['L', 'E', 'F', 'T'],
        "RIGHT"@ == seq!['R', 'I', 'G', 'H', 'T'],
        "HOME"@ == seq!['H', 'O', 'M', 'E'],
        "END"@ == seq!['E', 'N', 'D'],
        "PAGEUP"@ == seq!['P', 'A', 'G', 'E', 'U', 'P'],
        "PAGEDOWN"@ == seq!['P', 'A', 'G', 'E', 'D', 'O', 'W', 'N'],
        "INSERT"@ == seq!['I', 'N', 'S', 'E', 'R', 'T'],
{
    reveal_strlit("SPACE");
    reveal_strlit(" ");
    reveal_strlit("ENTER");
    reveal_strlit("RETURN");
    reveal_strlit("TAB");
    reveal_strlit("ESCAPE");
    reveal_strlit("BACKSPACE");
    reveal_strlit("DELETE");
    reveal_strlit("UP");
    reveal_strlit("DOWN");
    reveal_strlit("LEFT");
    reveal_strlit("RIGHT");
    reveal_strlit("HOME");
    reveal_strlit("END");
    reveal_strlit("PAGEUP");
    reveal_strlit("PAGEDOWN");
    reveal_strlit("INSERT");
}

/// A one-character name of a capital letter or a digit stands for the key
/// whose code is that character's.
proof fn lemma_single_character_name(u: Seq<char>)
    requires
        u.len() == 1,
        text::is_ascii_upper(u[0]) || text::is_ascii_digit(u[0]),
    ensures
        vstd::utf8::is_ascii_chars(u),
        text::ascii_uppercase(u) == u,
        vk_for_uppercased(u) == Some(VirtualKey((u[0] as u32) as u16)),
{
    lemma_key_words_spelled();
    text::lemma_uppercase_without_small_letters(u);
    assert(u.drop_last().len() == 0);
    assert(text::utf8_len(u.drop_last()) == 0);
    assert(text::utf8_len(u) == 1);
}

/// `F` followed by one digit from 1 to 9 stands for that function key.
proof fn lemma_function_key_name_one_digit(u: Seq<char>)
    requires
        u.len() == 2,
        u[0] == 'F',
        '1' <= u[1] <= '9',
    ensures
        vstd::utf8::is_ascii_chars(u),
        text::ascii_uppercase(u) == u,
        vk_for_uppercased(u) == Some(VirtualKey((0x6F + text::digit_value(u[1])) as u16)),
{
    lemma_key_words_spelled();
    text::lemma_uppercase_without_small_letters(u);
    let p = u.drop_last();
    assert(p.drop_last().len() == 0);
    assert(text::utf8_len(p.drop_last()) == 0);
    assert(text::utf8_len(p) == 1);
    assert(text::utf8_len(u) == 2);
    let d = u.drop_first();
    assert(d.len() == 1 && d[0] == u[1]);
    assert(text::all_digits(d));
    assert(d.drop_last().len() == 0);
    assert(text::digits_value(d.drop_last()) == 0);
    assert(text::digits_value(d) == text::digit_value(u[1]));
}

/// `F1` followed by a digit from 0 to 2 stands for function key 10, 11 or 12.
proof fn lemma_function_key_name_two_digits(u: Seq<char>)
    requires
        u.len() == 3,
        u[0] == 'F',
        u[1] == '1',
        '0' <= u[2] <= '2',
    ensures
        vstd::utf8::is_ascii_chars(u),
        text::ascii_uppercase(u) == u,
        vk_for_uppercased(u) == Some(VirtualKey((0x6F + 10 + text::digit_value(u[2])) as u16)),
{
    lemma_key_words_spelled();
    text::lemma_uppercase_without_small_letters(u);
    let p = u.drop_last();
    let q = p.drop_last();
    assert(q.drop_last().len() == 0);
    assert(text::utf8_len(q.drop_last()) == 0);
    assert(text::utf8_len(q) == 1);
    assert(text::utf8_len(p) == 2);
    assert(text::utf8_len(u) == 3);
    let d = u.drop_first();
    assert(d.len() == 2 && d[0] == '1' && d[1] == u[2]);
    assert(text::all_digits(d));
    let e = d.drop_last();
    assert(e.drop_last().len() == 0);
    assert(text::digits_value(e.drop_last()) == 0);
    assert(text::digits_value(e) == 1);
    assert(text::digits_value(d) == 10 + text::digit_value(u[2]));
}


/// The letter and digit names of the key table record their own keys.
proof fn lemma_character_names_record(i: int)
    requires
        0 <= i < 36,
        key_sender::key_entry(i).0 != "ESC"@,
    ensures
        vstd::utf8::is_ascii_chars(key_sender::key_entry(i).0),
        vk_for_uppercased(text::ascii_uppercase(key_sender::key_entry(i).0)) == Some(
            VirtualKey(key_sender::key_entry(i).1),
        ),
{
    if i == 0 {
        reveal_strlit("A");
        lemma_single_character_name(key_sender::key_entry(i).0);
    } else if i == 1 {
        reveal_strlit("B");
        lemma_single_character_name(key_sender::key_entry(i).0);
    } else if i == 2 {
        reveal_strlit("C");
        lemma_single_character_name(key_sender::key_entry(i).0);
    } else if i == 3 {
        reveal_strlit("D");
        lemma_single_character_name(key_sender::key_entry(i).0);
    } else if i == 4 {
        reveal_strlit("E");
        lemma_single_character_name(key_sender::key_entry(i).0);
    } else if i == 5 {
        reveal_strlit("F");
        lemma_single_character_name(key_sender::key_entry(i).0);
    } else if i == 6 {
        reveal_strlit("G");
        lemma_single_character_name(key_sender::key_entry(i).0);
    } else if i == 7 {
        reveal_strlit("H");
        lemma_single_character_name(key_sender::key_entry(i).0);
    } else if i == 8 {
        reveal_strlit("I");
        lemma_single_character_name(key_sender::key_entry(i).0);
    } else if i == 9 {
        reveal_strlit("J");
        lemma_single_character_name(key_sender::key_entry(i).0);
    } else if i == 10 {
        reveal_strlit("K");
        lemma_single_character_name(key_sender::key_entry(i).0);
    } else if i == 11 {
        reveal_strlit("L");
        lemma_single_character_name(key_sender::key_entry(i).0);
    } else if i == 12 {
        reveal_strlit("M");
        lemma_single_character_name(key_sender::key_entry(i).0);
    } else if i == 13 {
        reveal_strlit("N");
        lemma_single_character_name(key_sender::key_entry(i).0);
    } else if i == 14 {
        reveal_strlit("O");
        lemma_single_character_name(key_sender::key_entry(i).0);
    } else if i == 15 {
        reveal_strlit("P");
        lemma_single_character_name(key_sender::key_entry(i).0);
    } else if i == 16 {
        reveal_strlit("Q");
        lemma_single_character_name(key_sender::key_entry(i).0);
    } else if i == 17 {
        reveal_strlit("R");
        lemma_single_character_name(key_sender::key_entry(i).0);
    } else if i == 18 {
        reveal_strlit("S");
        lemma_single_character_name(key_sender::key_entry(i).0);
    } else if i == 19 {
        reveal_strlit("T");
        lemma_single_character_name(key_sender::key_entry(i).0);
    } else if i == 20 {
        reveal_strlit("U");
        lemma_single_character_name(key_sender::key_entry(i).0);
    } else if i == 21 {
        reveal_strlit("V");
        lemma_single_character_name(key_sender::key_entry(i).0);
    } else if i == 22 {
        reveal_strlit("W");
        lemma_single_character_name(key_sender::key_entry(i).0);
    } else if i == 23 {
        reveal_strlit("X");
        lemma_single_character_name(key_sender::key_entry(i).0);
    } else if i == 24 {
        reveal_strlit("Y");
        lemma_single_character_name(key_sender::key_entry(i).0);
    } else if i == 25 {
        reveal_strlit("Z");
        lemma_single_character_name(key_sender::key_entry(i).0);
    } else if i == 26 {
        reveal_strlit("0");
        lemma_single_character_name(key_sender::key_entry(i).0);
    } else if i == 27 {
        reveal_strlit("1");
        lemma_single_character_name(key_sender::key_entry(i).0);
    } else if i == 28 {
        reveal_strlit("2");
        lemma_single_character_name(key_sender::key_entry(i).0);
    } else if i == 29 {
        reveal_strlit("3");
        lemma_single_character_name(key_sender::key_entry(i).0);
    } else if i == 30 {
        reveal_strlit("4");
        lemma_single_character_name(key_sender::key_entry(i).0);
    } else if i == 31 {
        reveal_strlit("5");
        lemma_single_character_name(key_sender::key_entry(i).0);
    } else if i == 32 {
        reveal_strlit("6");
        lemma_single_character_name(key_sender::key_entry(i).0);
    } else if i == 33 {
        reveal_strlit("7");
        lemma_single_character_name(key_sender::key_entry(i).0);
    } else if i == 34 {
        reveal_strlit("8");
        lemma_single_character_name(key_sender::key_entry(i).0);
    } else if i == 35 {
        reveal_strlit("9");
        lemma_single_character_name(key_sender::key_entry(i).0);
    }
}

/// The function key names of the key table record their own keys.
proof fn lemma_function_key_names_record(i: int)
    requires
        36 <= i < 48,
        key_sender::key_entry(i).0 != "ESC"@,
    ensures
        vstd::utf8::is_ascii_chars(key_sender::key_entry(i).0),
        vk_for_uppercased(text::ascii_uppercase(key_sender::key_entry(i).0)) == Some(
            VirtualKey(key_sender::key_entry(i).1),
        ),
{
    if i == 36 {
        reveal_strlit("F1");
        lemma_function_key_name_one_digit(key_sender::key_entry(i).0);
    } else if i == 37 {
        reveal_strlit("F2");
        lemma_function_key_name_one_digit(key_sender::key_entry(i).0);
    } else if i == 38 {
        reveal_strlit("F3");
        lemma_function_key_name_one_digit(key_sender::key_entry(i).0);
    } else if i == 39 {
        reveal_strlit("F4");
        lemma_function_key_name_one_digit(key_sender::key_entry(i).0);
    } else if i == 40 {
        reveal_strlit("F5");
        lemma_function_key_name_one_digit(key_sender::key_entry(i).0);
    } else if i == 41 {
        reveal_strlit("F6");
        lemma_function_key_name_one_digit(key_sender::key_entry(i).0);
    } else if i == 42 {
        reveal_strlit("F7");
        lemma_function_key_name_one_digit(key_sender::key_entry(i).0);
    } else if i == 43 {
        reveal_strlit("F8");
        lemma_function_key_name_one_digit(key_sender::key_entry(i).0);
    } else if i == 44 {
        reveal_strlit("F9");
        lemma_function_key_name_one_digit(key_sender::key_entry(i).0);
    } else if i == 45 {
        reveal_strlit("F10");
        lemma_function_key_name_two_digits(key_sender::key_entry(i).0);
    } else if i == 46 {
        reveal_strlit("F11");
        lemma_function_key_name_two_digits(key_sender::key_entry(i).0);
    } else if i == 47 {
        reveal_strlit("F12");
        lemma_function_key_name_two_digits(key_sender::key_entry(i).0);
    }
}

/// The other names of the key table, but `ESC`, record their own keys.
proof fn lemma_named_keys_record(i: int)
    requires
        48 <= i < 63,
        key_sender::key_entry(i).0 != "ESC"@,
    ensures
        vstd::utf8::is_ascii_chars(key_sender::key_entry(i).0),
        vk_for_uppercased(text::ascii_uppercase(key_sender::key_entry(i).0)) == Some(
            VirtualKey(key_sender::key_entry(i).1),
        ),
{
    lemma_key_words_spelled();
    if i == 48 {
        assert(vk_for_uppercased("SPACE"@) == Some(VirtualKey(0x20)));
        text::lemma_uppercase_without_small_letters(key_sender::key_entry(i).0);
    } else if i == 49 {
        assert(vk_for_uppercased("ENTER"@) == Some(VirtualKey(0x0D)));
        text::lemma_uppercase_without_small_letters(key_sender::key_entry(i).0);
    } else if i == 50 {
        assert(vk_for_uppercased("TAB"@) == Some(VirtualKey(0x09)));
        text::lemma_uppercase_without_small_letters(key_sender::key_entry(i).0);
    } else if i == 52 {
        assert(vk_for_uppercased("BACKSPACE"@) == Some(VirtualKey(0x08)));
        text::lemma_uppercase_without_small_letters(key_sender::key_entry(i).0);
    } else if i == 53 {
        assert(vk_for_uppercased("DELETE"@) == Some(VirtualKey(0x2E)));
        text::lemma_uppercase_without_small_letters(key_sender::key_entry(i).0);
    } else if i == 54 {
        assert(vk_for_uppercased("INSERT"@) == Some(VirtualKey(0x2D)));
        text::lemma_uppercase_without_small_letters(key_sender::key_entry(i).0);
    } else if i == 55 {
        assert(vk_for_uppercased("HOME"@) == Some(VirtualKey(0x24)));
        text::lemma_uppercase_without_small_letters(key_sender::key_entry(i).0);
    } else if i == 56 {
        assert(vk_for_uppercased("END"@) == Some(VirtualKey(0x23)));
        text::lemma_uppercase_without_small_letters(key_sender::key_entry(i).0);
    } else if i == 57 {
        assert(vk_for_uppercased("PAGEUP"@) == Some(VirtualKey(0x21)));
        text::lemma_uppercase_without_small_letters(key_sender::key_entry(i).0);
    } else if i == 58 {
        assert(vk_for_uppercased("PAGEDOWN"@) == Some(VirtualKey(0x22)));
        text::lemma_uppercase_without_small_letters(key_sender::key_entry(i).0);
    } else if i == 59 {
        assert(vk_for_uppercased("UP"@) == Some(VirtualKey(0x26)));
        text::lemma_uppercase_without_small_letters(key_sender::key_entry(i).0);
    } else if i == 60 {
        assert(vk_for_uppercased("DOWN"@) == Some(VirtualKey(0x28)));
        text::lemma_uppercase_without_small_letters(key_sender::key_entry(i).0);
    } else if i == 61 {
        assert(vk_for_uppercased("LEFT"@) == Some(VirtualKey(0x25)));
        text::lemma_uppercase_without_small_letters(key_sender::key_entry(i).0);
    } else if i == 62 {
        assert(vk_for_uppercased("RIGHT"@) == Some(VirtualKey(0x27)));
        text::lemma_uppercase_without_small_letters(key_sender::key_entry(i).0);
    }
}

/// Every name in the key table but `ESC` is read back as its own key when the
/// GUI toolkit reports it as a keystroke: the name is ASCII, and its upper case
/// stands for the key that the table gives it. (`ESC` is recorded from the
/// toolkit's `escape`.)
pub proof fn lemma_table_names_record_their_keys(i: int)
    requires
        0 <= i < key_sender::KEY_COUNT,
        key_sender::key_entry(i).0 != "ESC"@,
    ensures
        vstd::utf8::is_ascii_chars(key_sender::key_entry(i).0),
        vk_for_uppercased(text::ascii_uppercase(key_sender::key_entry(i).0)) == Some(
            VirtualKey(key_sender::key_entry(i).1),
        ),
{
    if i < 36 {
        lemma_character_names_record(i);
    } else if i < 48 {
        lemma_function_key_names_record(i);
    } else {
        lemma_named_keys_record(i);
    }
}

/// The name that the interface shows for a key of the table, but `ESC`, is
/// read back as that key.
pub proof fn lemma_key_names_record_their_keys(code: u16)
    requires
        key_sender::key_index(code) >= 0,
        key_sender::key_name(code) != "ESC"@,
    ensures
        vstd::utf8::is_ascii_chars(key_sender::key_name(code)),
        vk_for_uppercased(text::ascii_uppercase(key_sender::key_name(code))) == Some(VirtualKey(code)),
{
    key_sender::lemma_key_index_finds_code(code);
    key_sender::lemma_table_key_name(key_sender::key_index(code));
    lemma_table_names_record_their_keys(key_sender::key_index(code));
}

/// The key that a keystroke's key name from the GUI toolkit records: the key
/// for the name in upper case.
pub fn keystroke_to_vk(key: &str) -> (vk: Option<VirtualKey>)
    ensures
        vk == vk_for_uppercased(uppercase_of(key@)),
        vstd::utf8::is_ascii_chars(key@) ==> vk == vk_for_uppercased(text::ascii_uppercase(key@)),
{
    let upper = to_uppercase(key);
    vk_for_uppercased_key(upper.as_str())
}


/// The key of a new task: Enter.
pub const DEFAULT_TASK_VK: u16 = 0x0D;

/// The interval of a new task, in milliseconds.
pub const DEFAULT_TASK_INTERVAL_MS: u64 = 200;

/// The interval that a text typed into a task's interval field sets: the
/// trimmed text read as a number of milliseconds, where that succeeds and is
/// not zero.
pub open spec fn interval_of_text(t: Seq<char>) -> Option<u64> {
    match text::parse_u64_spec(text::trim(t)) {
        Some(ms) => if ms > 0 {
            Some(ms)
        } else {
            None
        },
        None => None,
    }
}

/// The interval that a text typed into an interval field sets, if any.
pub fn parse_interval_ms(t: &str) -> (ms: Option<u64>)
    ensures
        ms == interval_of_text(t@),
{
    let v = chars_of(t);
    let trimmed = trim_chars(&v);
    match parse_u64_chars(&trimmed) {
        Some(n) => if n > 0 {
            Some(n)
        } else {
            None
        },
        None => None,
    }
}

/// A text without a digit sets no interval; in particular the empty text,
/// which an untouched field holds, sets none.
pub proof fn lemma_text_without_digit_sets_no_interval(t: Seq<char>)
    requires
        forall|i: int| 0 <= i < t.len() ==> !text::is_ascii_digit(#[trigger] t[i]),
    ensures
        interval_of_text(t) is None,
{
    text::lemma_trim_keeps_characters(t);
    let u = text::trim(t);
    let off = t.len() - text::trim_start(t).len();
    let d = if u.len() > 0 && u[0] == '+' {
        u.drop_first()
    } else {
        u
    };
    if d.len() > 0 && text::all_digits(d) {
        assert(text::is_ascii_digit(d[0]));
        if u.len() > 0 && u[0] == '+' {
            assert(d[0] == u[1]);
            assert(u[1] == t[off + 1]);
            assert(!text::is_ascii_digit(t[off + 1]));
        } else {
            assert(u[0] == t[off]);
            assert(!text::is_ascii_digit(t[off]));
        }
    }
    assert(text::unsigned_decimal_value(u) is None);
    assert(text::parse_u64_spec(u) is None);
}

/// Reading the interval fields changes nothing but intervals, and an interval
/// only where its field holds a text that sets one; a field that sets none
/// (empty, not a number, or zero) leaves its task's interval as it was.
pub proof fn lemma_sync_changes_only_set_intervals(
    tasks: Seq<KeyTask>,
    texts: Seq<Option<String>>,
)
    ensures
        synced_tasks(tasks, texts).len() == tasks.len(),
        forall|i: int|
            0 <= i < tasks.len() ==> (#[trigger] synced_tasks(tasks, texts)[i]).id == tasks[i].id
                && synced_tasks(tasks, texts)[i].vk == tasks[i].vk,
        forall|i: int|
            0 <= i < tasks.len() && (i >= texts.len() || texts[i] is None) ==> (
            #[trigger] synced_tasks(tasks, texts)[i]).interval_ms == tasks[i].interval_ms,
        forall|i: int|
            0 <= i < tasks.len() && 0 <= i < texts.len() && texts[i] is Some
                && interval_of_text(texts[i].unwrap()@) is None ==> (#[trigger] synced_tasks(
                tasks,
                texts,
            )[i]).interval_ms == tasks[i].interval_ms,
        forall|i: int|
            0 <= i < tasks.len() && 0 <= i < texts.len() && texts[i] is Some
                && interval_of_text(texts[i].unwrap()@) is Some ==> (#[trigger] synced_tasks(
                tasks,
                texts,
            )[i]).interval_ms == interval_of_text(texts[i].unwrap()@).unwrap(),
{
}

/// The interval of a task after its field's text `t` (if there is a field) is
/// read: the interval the text sets, else the old one.
pub open spec fn synced_interval(old: u64, t: Option<Seq<char>>) -> u64 {
    match t {
        Some(t) => match interval_of_text(t) {
            Some(ms) => ms,
            None => old,
        },
        None => old,
    }
}

/// The text of the field of task `i`, where the list has one.
pub open spec fn field_text(texts: Seq<Option<String>>, i: int) -> Option<Seq<char>> {
    if 0 <= i < texts.len() {
        match texts[i] {
            Some(t) => Some(t@),
            None => None,
        }
    } else {
        None
    }
}

/// The tasks after the interval fields `texts` (one per task, in task order)
/// are read.
pub open spec fn synced_tasks(tasks: Seq<KeyTask>, texts: Seq<Option<String>>) -> Seq<KeyTask> {
    Seq::new(
        tasks.len(),
        |i: int|
            KeyTask {
                interval_ms: synced_interval(tasks[i].interval_ms, field_text(texts, i)),
                ..tasks[i]
            },
    )
}

/// `tasks` without the tasks whose id is `id`, in order.
pub open spec fn without_task(tasks: Seq<KeyTask>, id: u32) -> Seq<KeyTask>
    decreases tasks.len(),
{
    if tasks.len() == 0 {
        tasks
    } else if tasks.last().id == id {
        without_task(tasks.drop_last(), id)
    } else {
        without_task(tasks.drop_last(), id).push(tasks.last())
    }
}

/// The position of the first task at or after `i` whose id is `id`; -1 where
/// there is none.
pub open spec fn task_index_from(tasks: Seq<KeyTask>, id: u32, i: int) -> int
    decreases tasks.len() - i,
{
    if i < 0 || i >= tasks.len() {
        -1
    } else if tasks[i].id == id {
        i
    } else {
        task_index_from(tasks, id, i + 1)
    }
}

/// `tasks` with the first task whose id is `id` pressing `vk`.
pub open spec fn with_task_key(tasks: Seq<KeyTask>, id: u32, vk: VirtualKey) -> Seq<KeyTask> {
    let k = task_index_from(tasks, id, 0);
    if k >= 0 {
        tasks.update(k, KeyTask { vk, ..tasks[k] })
    } else {
        tasks
    }
}

/// The search for an id from position `i` finds the first task at or after
/// `i` with that id, or reports that there is none.
proof fn lemma_task_index_from(tasks: Seq<KeyTask>, id: u32, i: int)
    requires
        0 <= i <= tasks.len(),
    ensures
        task_index_from(tasks, id, i) == -1 || (i <= task_index_from(tasks, id, i) < tasks.len()
            && tasks[task_index_from(tasks, id, i)].id == id),
        forall|j: int|
            i <= j < tasks.len() && (j < task_index_from(tasks, id, i) || task_index_from(
                tasks,
                id,
                i,
            ) == -1) ==> #[trigger] tasks[j].id != id,
    decreases tasks.len() - i,
{
    if i < tasks.len() && tasks[i].id != id {
        lemma_task_index_from(tasks, id, i + 1);
    }
}

/// Recording a key changes nothing but that key: every task keeps its id and
/// its interval; only the first task with the recorded id changes, and it
/// takes the recorded key; where no task has the id, nothing changes.
pub proof fn lemma_recording_changes_only_the_key(tasks: Seq<KeyTask>, id: u32, vk: VirtualKey)
    ensures
        with_task_key(tasks, id, vk).len() == tasks.len(),
        forall|i: int|
            0 <= i < tasks.len() ==> (#[trigger] with_task_key(tasks, id, vk)[i]).id == tasks[i].id
                && with_task_key(tasks, id, vk)[i].interval_ms == tasks[i].interval_ms,
        forall|i: int|
            0 <= i < tasks.len() && #[trigger] with_task_key(tasks, id, vk)[i] != tasks[i] ==> tasks[i].id
                == id && with_task_key(tasks, id, vk)[i].vk == vk,
        forall|i: int|
            0 <= i < tasks.len() && tasks[i].id == id && (forall|j: int|
                0 <= j < i ==> tasks[j].id != id) ==> (#[trigger] with_task_key(
                tasks,
                id,
                vk,
            )[i]).vk == vk,
        forall|i: int|
            0 <= i < tasks.len() && (exists|j: int| 0 <= j < i && tasks[j].id == id)
                ==> #[trigger] with_task_key(tasks, id, vk)[i] == tasks[i],
        (forall|i: int| 0 <= i < tasks.len() ==> tasks[i].id != id) ==> with_task_key(
            tasks,
            id,
            vk,
        ) == tasks,
{
    lemma_task_index_from(tasks, id, 0);
    let k = task_index_from(tasks, id, 0);
    let r = with_task_key(tasks, id, vk);
    assert forall|i: int|
        0 <= i < tasks.len() && tasks[i].id == id && (forall|j: int|
            0 <= j < i ==> tasks[j].id != id) implies (#[trigger] r[i]).vk == vk by {
        if k == -1 {
            assert(tasks[i].id != id);
        } else if k < i {
            assert(tasks[k].id == id);
        } else if k > i {
            assert(tasks[i].id != id);
        }
    }
    assert forall|i: int|
        0 <= i < tasks.len() && (exists|j: int| 0 <= j < i && tasks[j].id == id) implies #[trigger] r[i]
        == tasks[i] by {
        let j = choose|j: int| 0 <= j < i && tasks[j].id == id;
        if k >= 0 && k >= i {
            assert(tasks[j].id != id);
        }
    }
}

/// The id that follows `id`, wrapping like a `u32` counter.
pub open spec fn id_after(id: u32) -> u32 {
    if id == u32::MAX {
        0
    } else {
        (id + 1) as u32
    }
}

/// The `i`-th id handed out by a counter that starts at 1.
pub open spec fn nth_id(i: int) -> u32 {
    ((1 + i) % 0x1_0000_0000) as u32
}

/// What the tool needs to start: where the keys go, which keys when, and how
/// they are delivered.
#[derive(Clone, Debug)]
pub struct StartPlan {
    pub target: isize,
    pub tasks: Vec<KeyTask>,
    pub send_mode: SendMode,
}

/// The outcome of the start/stop toggle.
#[derive(Clone, Debug)]
pub enum ToggleOutcome {
    /// The tool stopped; the configuration to save.
    Stopped(AppConfig),
    /// The tool started with this plan.
    Started(StartPlan),
    /// The tool was idle and could not start.
    NotStarted,
}

/// The outcome of one round of the window picker for the main window.
#[derive(Clone, Copy, Debug, PartialEq, Eq, Structural)]
pub struct PickStep {
    /// Whether the picker goes on.
    pub keep_picking: bool,
    /// Whether the window shows something new.
    pub redraw: bool,
}

/// The state of the main window.
#[derive(Debug)]
pub struct AppState {
    pub target_window: Option<WindowInfo>,
    pub key_tasks: Vec<KeyTask>,
    pub recording_task_id: Option<u32>,
    pub send_mode: SendMode,
    pub is_running: bool,
    pub is_picking: bool,
    pub pick_ready_to_confirm: bool,
    pub pick_mouse_snapshot: MousePressSnapshot,
    pub stats: SendStats,
    pub language: Language,
    pub always_on_top: bool,
    /// The id the next new task gets.
    pub next_task_id: u32,
}

/// The target that a picker round leaves: the window under the cursor where
/// it is another window than the current one, else the current one.
pub open spec fn picked_target(current: Option<WindowInfo>, hovered: Option<WindowInfo>) -> Option<
    WindowInfo,
> {
    match hovered {
        Some(h) => match current {
            Some(c) => if window_picker::same_window(c, h) {
                current
            } else {
                hovered
            },
            None => hovered,
        },
        None => current,
    }
}

/// Whether a picker round names another window than the current one.
pub open spec fn pick_changes(current: Option<WindowInfo>, hovered: Option<WindowInfo>) -> bool {
    match hovered {
        Some(h) => match current {
            Some(c) => !window_picker::same_window(c, h),
            None => true,
        },
        None => false,
    }
}

/// `c` saves the state `s`: its send mode, language, window-on-top choice
/// and tasks.
pub open spec fn saves_state(c: AppConfig, s: AppState) -> bool {
    &&& c.send_mode@ == key_sender::send_mode_label(s.send_mode)
    &&& c.language@ == i18n::language_code(s.language)
    &&& c.always_on_top == s.always_on_top
    &&& c.tasks@.len() == s.key_tasks@.len()
    &&& forall|i: int|
        0 <= i < s.key_tasks@.len() ==> config::saves_task(
            #[trigger] c.tasks@[i],
            s.key_tasks@[i].vk,
            s.key_tasks@[i].interval_ms,
        )
}

/// The part of the status bar that counts presses: for each task, its key
/// name, `×` and its count, separated by two spaces.
pub open spec fn stats_line(tasks: Seq<KeyTask>, counts: Map<u32, u64>) -> Seq<char>
    decreases tasks.len(),
{
    if tasks.len() == 0 {
        Seq::empty()
    } else if tasks.len() == 1 {
        stats_part(tasks[0], counts)
    } else {
        stats_line(tasks.drop_last(), counts) + "  "@ + stats_part(tasks.last(), counts)
    }
}

pub open spec fn stats_part(t: KeyTask, counts: Map<u32, u64>) -> Seq<char> {
    key_sender::key_name(t.vk.0) + "×"@ + text::decimal(scheduler::count_in(counts, t.id) as nat)
}

/// `s` is the state of a window freshly opened with the saved configuration
/// `cfg`: one task per saved task with its key and interval, ids counted from
/// 1, or one Enter task every 200 ms where none was saved; the saved send
/// mode, language and window-on-top choice; nothing picked, recorded or
/// running.
pub open spec fn loaded_from(s: AppState, cfg: AppConfig) -> bool {
    &&& s.key_tasks@.len() == (if cfg.tasks@.len() == 0 {
        1
    } else {
        cfg.tasks@.len()
    })
    &&& cfg.tasks@.len() > 0 ==> forall|i: int|
        0 <= i < cfg.tasks@.len() ==> (#[trigger] s.key_tasks@[i]).vk.0 == cfg.tasks@[i].vk
            && s.key_tasks@[i].interval_ms == cfg.tasks@[i].interval_ms
    &&& cfg.tasks@.len() == 0 ==> s.key_tasks@[0].vk.0 == DEFAULT_TASK_VK
        && s.key_tasks@[0].interval_ms == DEFAULT_TASK_INTERVAL_MS
    &&& forall|i: int| 0 <= i < s.key_tasks@.len() ==> (#[trigger] s.key_tasks@[i]).id == nth_id(i)
    &&& s.next_task_id == nth_id(s.key_tasks@.len() as int)
    &&& s.send_mode == config::send_mode_of_name(cfg.send_mode@)
    &&& s.language == i18n::language_of_code(cfg.language@)
    &&& s.always_on_top == cfg.always_on_top
    &&& s.target_window is None
    &&& s.recording_task_id is None
    &&& !s.is_running
    &&& !s.is_picking
    &&& !s.pick_ready_to_confirm
    &&& s.pick_mouse_snapshot == window_picker::empty_snapshot()
    &&& s.stats.counts@ == Map::<u32, u64>::empty()
}

/// Saving a state and opening the window again with what was saved gives
/// back its send mode, language, window-on-top choice, and its tasks' keys
/// and intervals in order (where it had a task).
pub proof fn lemma_save_then_load(s: AppState, c: AppConfig, t: AppState)
    requires
        saves_state(c, s),
        loaded_from(t, c),
        s.key_tasks@.len() > 0,
    ensures
        t.send_mode == s.send_mode,
        t.language == s.language,
        t.always_on_top == s.always_on_top,
        t.key_tasks@.len() == s.key_tasks@.len(),
        forall|i: int|
            0 <= i < s.key_tasks@.len() ==> (#[trigger] t.key_tasks@[i]).vk == s.key_tasks@[i].vk
                && t.key_tasks@[i].interval_ms == s.key_tasks@[i].interval_ms,
{
    config::lemma_config_round_trip(c, s.send_mode, s.language);
    assert forall|i: int| 0 <= i < s.key_tasks@.len() implies (#[trigger] t.key_tasks@[i]).vk
        == s.key_tasks@[i].vk && t.key_tasks@[i].interval_ms == s.key_tasks@[i].interval_ms by {
        assert(config::saves_task(c.tasks@[i], s.key_tasks@[i].vk, s.key_tasks@[i].interval_ms));
    }
}

/// Removing a task that was just added, under an id no other task has,
/// gives back the tasks from before.
pub proof fn lemma_add_then_remove(tasks: Seq<KeyTask>, t: KeyTask)
    requires
        forall|i: int| 0 <= i < tasks.len() ==> (#[trigger] tasks[i]).id != t.id,
    ensures
        without_task(tasks.push(t), t.id) == tasks,
{
    assert(tasks.push(t).drop_last() =~= tasks);
    lemma_without_absent(tasks, t.id);
}

proof fn lemma_without_absent(tasks: Seq<KeyTask>, id: u32)
    requires
        forall|i: int| 0 <= i < tasks.len() ==> (#[trigger] tasks[i]).id != id,
    ensures
        without_task(tasks, id) == tasks,
    decreases tasks.len(),
{
    if tasks.len() > 0 {
        let p = tasks.drop_last();
        assert forall|i: int| 0 <= i < p.len() implies (#[trigger] p[i]).id != id by {
            assert(p[i] == tasks[i]);
        }
        lemma_without_absent(p, id);
        assert(tasks.last() == tasks[tasks.len() - 1]);
        assert(p.push(tasks.last()) =~= tasks);
    }
}

/// After a removal no task has the removed id, and every other task stays.
pub proof fn lemma_remove_drops_exactly(tasks: Seq<KeyTask>, id: u32)
    ensures
        forall|k: int|
            0 <= k < without_task(tasks, id).len() ==> (#[trigger] without_task(tasks, id)[k]).id
                != id,
        forall|i: int|
            0 <= i < tasks.len() && (#[trigger] tasks[i]).id != id ==> without_task(
                tasks,
                id,
            ).contains(tasks[i]),
    decreases tasks.len(),
{
    if tasks.len() > 0 {
        let p = tasks.drop_last();
        lemma_remove_drops_exactly(p, id);
        let r = without_task(p, id);
        assert forall|i: int| 0 <= i < tasks.len() && (#[trigger] tasks[i]).id != id implies without_task(
            tasks,
            id,
        ).contains(tasks[i]) by {
            if i < tasks.len() - 1 {
                assert(p[i] == tasks[i]);
                assert(r.contains(p[i]));
                let j = choose|j: int| 0 <= j < r.len() && r[j] == p[i];
                if tasks.last().id != id {
                    assert(r.push(tasks.last())[j] == tasks[i]);
                }
            } else {
                assert(r.push(tasks.last())[r.len() as int] == tasks[i]);
            }
        }
    }
}

/// Typing the decimal notation of a positive interval into an interval field
/// sets that interval.
pub proof fn lemma_interval_text_round_trip(n: u64)
    requires
        n > 0,
    ensures
        interval_of_text(text::decimal(n as nat)) == Some(n),
{
    let d = text::decimal(n as nat);
    text::lemma_decimal_digits(n as nat);
    text::lemma_decimal_round_trip(n as nat);
    assert(!text::is_white_space(d[0]));
    assert(text::trim_start(d) == d);
    assert(d.last() == d[d.len() - 1]);
    assert(!text::is_white_space(d.last()));
    assert(text::trim_end(d) == d);
}

/// The task ids of a state are distinct, and each is below the id that the
/// next new task gets; tasks can then be found, changed and removed by id.
pub open spec fn ids_well_formed(s: AppState) -> bool {
    &&& forall|i: int, j: int|
        #![trigger s.key_tasks@[i], s.key_tasks@[j]]
        0 <= i < s.key_tasks@.len() && 0 <= j < s.key_tasks@.len() && i != j
            ==> s.key_tasks@[i].id != s.key_tasks@[j].id
    &&& forall|i: int| 0 <= i < s.key_tasks@.len() ==> (#[trigger] s.key_tasks@[i]).id < s.next_task_id
}

/// A state with the same counter and the same task ids, task by task, as a
/// well-formed one is well-formed.
proof fn lemma_same_ids_well_formed(a: AppState, b: AppState)
    requires
        ids_well_formed(a),
        b.next_task_id == a.next_task_id,
        b.key_tasks@.len() == a.key_tasks@.len(),
        forall|i: int| 0 <= i < a.key_tasks@.len() ==> (#[trigger] b.key_tasks@[i]).id == a.key_tasks@[i].id,
    ensures
        ids_well_formed(b),
{
    assert forall|i: int, j: int|
        0 <= i < b.key_tasks@.len() && 0 <= j < b.key_tasks@.len() && i != j
        implies #[trigger] b.key_tasks@[i].id != #[trigger] b.key_tasks@[j].id by {
        assert(a.key_tasks@[i].id != a.key_tasks@[j].id);
    }
}

/// Every task that a removal keeps is one of the tasks before it, and the
/// tasks kept keep their order.
proof fn lemma_without_task_from(tasks: Seq<KeyTask>, id: u32)
    ensures
        without_task(tasks, id).len() <= tasks.len(),
        forall|k: int|
            0 <= k < without_task(tasks, id).len() ==> exists|i: int|
                0 <= i < tasks.len() && #[trigger] without_task(tasks, id)[k] == tasks[i],
        (forall|i: int, j: int|
            #![trigger tasks[i], tasks[j]]
            0 <= i < tasks.len() && 0 <= j < tasks.len() && i != j ==> tasks[i].id != tasks[j].id)
            ==> (forall|k: int, l: int|
            #![trigger without_task(tasks, id)[k], without_task(tasks, id)[l]]
            0 <= k < without_task(tasks, id).len() && 0 <= l < without_task(tasks, id).len()
                && k != l ==> without_task(tasks, id)[k].id != without_task(tasks, id)[l].id),
    decreases tasks.len(),
{
    if tasks.len() > 0 {
        let p = tasks.drop_last();
        lemma_without_task_from(p, id);
        let r = without_task(p, id);
        let w = without_task(tasks, id);
        assert forall|k: int| 0 <= k < w.len() implies exists|i: int|
            0 <= i < tasks.len() && #[trigger] w[k] == tasks[i] by {
            if k < r.len() {
                let i = choose|i: int| 0 <= i < p.len() && r[k] == p[i];
                assert(w[k] == tasks[i]);
            } else {
                assert(w[k] == tasks[tasks.len() - 1]);
            }
        }
        if forall|i: int, j: int|
            #![trigger tasks[i], tasks[j]]
            0 <= i < tasks.len() && 0 <= j < tasks.len() && i != j ==> tasks[i].id != tasks[j].id {
            assert forall|i: int, j: int|
                #![trigger p[i], p[j]]
                0 <= i < p.len() && 0 <= j < p.len() && i != j implies p[i].id != p[j].id by {
                assert(p[i] == tasks[i] && p[j] == tasks[j]);
            }
            assert forall|k: int, l: int|
                #![trigger w[k], w[l]]
                0 <= k < w.len() && 0 <= l < w.len() && k != l implies w[k].id != w[l].id by {
                if k < r.len() && l < r.len() {
                    assert(w[k] == r[k] && w[l] == r[l]);
                } else if k < r.len() {
                    let i = choose|i: int| 0 <= i < p.len() && r[k] == p[i];
                    assert(w[k] == tasks[i]);
                    assert(w[l] == tasks[tasks.len() - 1]);
                } else {
                    let i = choose|i: int| 0 <= i < p.len() && r[l] == p[i];
                    assert(w[l] == tasks[i]);
                    assert(w[k] == tasks[tasks.len() - 1]);
                }
            }
        }
    }
}

impl AppState {
    /// The state of a freshly opened window with the saved configuration
    /// `cfg`: one task per saved task, with ids counted from 1, or one Enter
    /// task every 200 ms where none was saved; nothing picked, recorded or
    /// running.
    pub fn new(cfg: &AppConfig) -> (s: AppState)
        ensures
            cfg.tasks@.len() < u32::MAX ==> ids_well_formed(s),
            loaded_from(s, *cfg),
    {
        let mut s = AppState {
            target_window: None,
            key_tasks: Vec::new(),
            recording_task_id: None,
            send_mode: cfg.send_mode_enum(),
            is_running: false,
            is_picking: false,
            pick_ready_to_confirm: false,
            pick_mouse_snapshot: MousePressSnapshot::default(),
            stats: SendStats::new(),
            language: cfg.language_enum(),
            always_on_top: cfg.always_on_top,
            next_task_id: 1,
        };
        let mut i: usize = 0;
        while i < cfg.tasks.len()
            invariant
                i <= cfg.tasks@.len(),
                s.key_tasks@.len() == i,
                forall|j: int|
                    0 <= j < i ==> (#[trigger] s.key_tasks@[j]).vk.0 == cfg.tasks@[j].vk
                        && s.key_tasks@[j].interval_ms == cfg.tasks@[j].interval_ms,
                forall|j: int| 0 <= j < i ==> (#[trigger] s.key_tasks@[j]).id == nth_id(j),
                s.next_task_id == nth_id(i as int),
                s.send_mode == config::send_mode_of_name(cfg.send_mode@),
                s.language == i18n::language_of_code(cfg.language@),
                s.always_on_top == cfg.always_on_top,
                s.target_window is None,
                s.recording_task_id is None,
                !s.is_running,
                !s.is_picking,
                !s.pick_ready_to_confirm,
                s.pick_mouse_snapshot == window_picker::empty_snapshot(),
                s.stats.counts@ == Map::<u32, u64>::empty(),
            decreases cfg.tasks@.len() - i,
        {
            let id = s.next_id();
            let tc = &cfg.tasks[i];
            s.key_tasks.push(KeyTask { id, vk: VirtualKey(tc.vk), interval_ms: tc.interval_ms });
            i = i + 1;
        }
        if s.key_tasks.len() == 0 {
            let id = s.next_id();
            s.key_tasks.push(
                KeyTask {
                    id,
                    vk: VirtualKey(DEFAULT_TASK_VK),
                    interval_ms: DEFAULT_TASK_INTERVAL_MS,
                },
            );
        }
        s
    }

    /// Hands out the next task id and moves the counter on, wrapping like a
    /// `u32`.
    pub fn next_id(&mut self) -> (id: u32)
        ensures
            ids_well_formed(*old(self)) && old(self).next_task_id < u32::MAX ==> ids_well_formed(*final(self)),
            id == old(self).next_task_id,
            *final(self) == (AppState { next_task_id: id_after(id), ..*old(self) }),
    {
        let id = self.next_task_id;
        self.next_task_id = self.next_task_id.wrapping_add(1);
        id
    }

    /// The configuration that saves this state as it stands.
    pub fn save_config(&self) -> (c: AppConfig)
        ensures
            saves_state(c, *self),
    {
        let mut pairs: Vec<(VirtualKey, u64)> = Vec::new();
        let mut i: usize = 0;
        while i < self.key_tasks.len()
            invariant
                i <= self.key_tasks@.len(),
                pairs@.len() == i,
                forall|j: int|
                    0 <= j < i ==> (#[trigger] pairs@[j]).0 == self.key_tasks@[j].vk && pairs@[j].1
                        == self.key_tasks@[j].interval_ms,
            decreases self.key_tasks@.len() - i,
        {
            pairs.push((self.key_tasks[i].vk, self.key_tasks[i].interval_ms));
            i = i + 1;
        }
        let c = config_from_state(self.send_mode, self.language, self.always_on_top, pairs.as_slice());
        assert forall|j: int| 0 <= j < self.key_tasks@.len() implies config::saves_task(
            #[trigger] c.tasks@[j],
            self.key_tasks@[j].vk,
            self.key_tasks@[j].interval_ms,
        ) by {
            assert(pairs@[j].0 == self.key_tasks@[j].vk);
        }
        c
    }

    /// Reads the interval fields, one text per task in task order (`None`
    /// where a task has no field): each field that holds a positive number
    /// sets its task's interval.
    pub fn sync_intervals_from_inputs(&mut self, texts: &Vec<Option<String>>)
        ensures
            ids_well_formed(*old(self)) ==> ids_well_formed(*final(self)),
            *final(self) == (AppState {
                key_tasks: final(self).key_tasks,
                ..*old(self)
            }),
            final(self).key_tasks@ == synced_tasks(old(self).key_tasks@, texts@),
            forall|i: int|
                0 <= i < old(self).key_tasks@.len() && 0 <= i < texts@.len()
                    && texts@[i] is Some && interval_of_text(texts@[i].unwrap()@) is None ==> (
                #[trigger] final(self).key_tasks@[i]).interval_ms == old(
                    self,
                ).key_tasks@[i].interval_ms,
    {
        proof {
            lemma_sync_changes_only_set_intervals(self.key_tasks@, texts@);
        }
        let ghost old_tasks = self.key_tasks@;
        let ghost s0 = *self;
        let mut i: usize = 0;
        while i < self.key_tasks.len()
            invariant
                *self == (AppState { key_tasks: self.key_tasks, ..s0 }),
                s0 == *old(self),
                i <= self.key_tasks@.len(),
                self.key_tasks@.len() == old_tasks.len(),
                forall|j: int|
                    0 <= j < i ==> #[trigger] self.key_tasks@[j] == synced_tasks(old_tasks, texts@)[j],
                forall|j: int| i <= j < old_tasks.len() ==> #[trigger] self.key_tasks@[j] == old_tasks[j],
            decreases self.key_tasks@.len() - i,
        {
            if i < texts.len() {
                match &texts[i] {
                    Some(t) => {
                        match parse_interval_ms(t.as_str()) {
                            Some(ms) => {
                                let task = self.key_tasks[i];
                                self.key_tasks.set(i, KeyTask { interval_ms: ms, ..task });
                            },
                            None => {},
                        }
                    },
                    None => {},
                }
            }
            i = i + 1;
        }
        assert(self.key_tasks@ =~= synced_tasks(old_tasks, texts@));
    }

    /// Reads the interval fields, then gives the configuration that saves the
    /// state.
    pub fn save_current_config(&mut self, texts: &Vec<Option<String>>) -> (c: AppConfig)
        ensures
            ids_well_formed(*old(self)) ==> ids_well_formed(*final(self)),
            *final(self) == (AppState {
                key_tasks: final(self).key_tasks,
                ..*old(self)
            }),
            final(self).key_tasks@ == synced_tasks(old(self).key_tasks@, texts@),
            saves_state(c, *final(self)),
    {
        self.sync_intervals_from_inputs(texts);
        self.save_config()
    }

    /// Flips whether the window stays on top, reads the interval fields, and
    /// gives the configuration that saves the new state.
    pub fn toggle_always_on_top(&mut self, texts: &Vec<Option<String>>) -> (c: AppConfig)
        ensures
            ids_well_formed(*old(self)) ==> ids_well_formed(*final(self)),
            *final(self) == (AppState {
                key_tasks: final(self).key_tasks,
                always_on_top: !old(self).always_on_top,
                ..*old(self)
            }),
            final(self).key_tasks@ == synced_tasks(old(self).key_tasks@, texts@),
            saves_state(c, *final(self)),
    {
        self.always_on_top = !self.always_on_top;
        self.save_current_config(texts)
    }

    /// Chooses how keys are delivered, reads the interval fields, and gives the
    /// configuration that saves the new state.
    pub fn set_send_mode(&mut self, mode: SendMode, texts: &Vec<Option<String>>) -> (c: AppConfig)
        ensures
            ids_well_formed(*old(self)) ==> ids_well_formed(*final(self)),
            *final(self) == (AppState {
                key_tasks: final(self).key_tasks,
                send_mode: mode,
                ..*old(self)
            }),
            final(self).key_tasks@ == synced_tasks(old(self).key_tasks@, texts@),
            saves_state(c, *final(self)),
    {
        self.send_mode = mode;
        self.save_current_config(texts)
    }

    /// Chooses the interface language, reads the interval fields, and gives
    /// the configuration that saves the new state.
    pub fn set_language(&mut self, language: Language, texts: &Vec<Option<String>>) -> (c:
        AppConfig)
        ensures
            ids_well_formed(*old(self)) ==> ids_well_formed(*final(self)),
            *final(self) == (AppState {
                key_tasks: final(self).key_tasks,
                language,
                ..*old(self)
            }),
            final(self).key_tasks@ == synced_tasks(old(self).key_tasks@, texts@),
            saves_state(c, *final(self)),
    {
        self.language = language;
        self.save_current_config(texts)
    }

    /// Adds a task that presses Enter every 200 ms, with the next id, and
    /// gives that id.
    pub fn add_key_task(&mut self) -> (id: u32)
        ensures
            ids_well_formed(*old(self)) && old(self).next_task_id < u32::MAX ==> ids_well_formed(*final(self)),
            id == old(self).next_task_id,
            *final(self) == (AppState {
                key_tasks: final(self).key_tasks,
                next_task_id: id_after(id),
                ..*old(self)
            }),
            final(self).key_tasks@ == old(self).key_tasks@.push(
                KeyTask { id, vk: VirtualKey(DEFAULT_TASK_VK), interval_ms: DEFAULT_TASK_INTERVAL_MS },
            ),
    {
        let id = self.next_id();
        self.key_tasks.push(
            KeyTask { id, vk: VirtualKey(DEFAULT_TASK_VK), interval_ms: DEFAULT_TASK_INTERVAL_MS },
        );
        id
    }

    /// Removes every task with id `task_id`.
    pub fn remove_key_task(&mut self, task_id: u32)
        ensures
            ids_well_formed(*old(self)) ==> ids_well_formed(*final(self)),
            *final(self) == (AppState {
                key_tasks: final(self).key_tasks,
                ..*old(self)
            }),
            final(self).key_tasks@ == without_task(old(self).key_tasks@, task_id),
    {
        let mut kept: Vec<KeyTask> = Vec::new();
        let mut i: usize = 0;
        while i < self.key_tasks.len()
            invariant
                i <= self.key_tasks@.len(),
                kept@ == without_task(self.key_tasks@.subrange(0, i as int), task_id),
            decreases self.key_tasks@.len() - i,
        {
            let t = self.key_tasks[i];
            assert(self.key_tasks@.subrange(0, i + 1).drop_last() =~= self.key_tasks@.subrange(
                0,
                i as int,
            ));
            if t.id != task_id {
                kept.push(t);
            }
            i = i + 1;
        }
        assert(self.key_tasks@.subrange(0, self.key_tasks@.len() as int) =~= self.key_tasks@);
        let ghost before = *self;
        self.key_tasks = kept;
        proof {
            lemma_without_task_from(before.key_tasks@, task_id);
            if ids_well_formed(before) {
                let w = self.key_tasks@;
                assert forall|k: int| 0 <= k < w.len() implies (#[trigger] w[k]).id
                    < self.next_task_id by {
                    let i = choose|i: int|
                        0 <= i < before.key_tasks@.len() && w[k] == before.key_tasks@[i];
                    assert(before.key_tasks@[i].id < before.next_task_id);
                }
            }
        }
    }

    /// The position of the first task with id `task_id`, if any.
    pub fn find_task(&self, task_id: u32) -> (k: Option<usize>)
        ensures
            match k {
                Some(k) => k as int == task_index_from(self.key_tasks@, task_id, 0) && k
                    < self.key_tasks@.len() && self.key_tasks@[k as int].id == task_id,
                None => task_index_from(self.key_tasks@, task_id, 0) == -1,
            },
    {
        let mut i: usize = 0;
        while i < self.key_tasks.len()
            invariant
                i <= self.key_tasks@.len(),
                task_index_from(self.key_tasks@, task_id, 0) == task_index_from(
                    self.key_tasks@,
                    task_id,
                    i as int,
                ),
            decreases self.key_tasks@.len() - i,
        {
            if self.key_tasks[i].id == task_id {
                return Some(i);
            }
            i = i + 1;
        }
        None
    }

    /// Starts recording a key for task `task_id`.
    pub fn start_recording(&mut self, task_id: u32)
        ensures
            ids_well_formed(*old(self)) ==> ids_well_formed(*final(self)),
            *final(self) == (AppState { recording_task_id: Some(task_id), ..*old(self) }),
    {
        self.recording_task_id = Some(task_id);
    }

    /// A click on a task's key badge toggles key capture for that task: it
    /// ends where that task is the one capturing, and begins otherwise.
    pub fn toggle_recording(&mut self, task_id: u32)
        ensures
            ids_well_formed(*old(self)) ==> ids_well_formed(*final(self)),
            *final(self) == (AppState {
                recording_task_id: if old(self).recording_task_id == Some(task_id) {
                    None
                } else {
                    Some(task_id)
                },
                ..*old(self)
            }),
    {
        if self.recording_task_id == Some(task_id) {
            self.recording_task_id = None;
        } else {
            self.recording_task_id = Some(task_id);
        }
    }

    /// A key pressed while recording: the task being recorded takes the key
    /// the keystroke names (where it names one), and recording ends. Without
    /// recording nothing changes.
    pub fn handle_key_record(&mut self, key: &str)
        ensures
            ids_well_formed(*old(self)) ==> ids_well_formed(*final(self)),
            old(self).recording_task_id is None ==> *final(self) == *old(self),
            old(self).recording_task_id matches Some(id) ==> {
                &&& *final(self) == (AppState {
                    key_tasks: final(self).key_tasks,
                    recording_task_id: None,
                    ..*old(self)
                })
                &&& final(self).key_tasks@ == match vk_for_uppercased(uppercase_of(key@)) {
                    Some(vk) => with_task_key(old(self).key_tasks@, id, vk),
                    None => old(self).key_tasks@,
                }
            },
            final(self).key_tasks@.len() == old(self).key_tasks@.len(),
            forall|i: int|
                0 <= i < old(self).key_tasks@.len() ==> (#[trigger] final(self).key_tasks@[i]).id
                    == old(self).key_tasks@[i].id && final(self).key_tasks@[i].interval_ms == old(
                    self,
                ).key_tasks@[i].interval_ms,
    {
        proof {
            if let Some(id) = self.recording_task_id {
                if let Some(vk) = vk_for_uppercased(uppercase_of(key@)) {
                    lemma_recording_changes_only_the_key(self.key_tasks@, id, vk);
                }
            }
        }
        let task_id = match self.recording_task_id {
            Some(id) => id,
            None => return ,
        };
        match keystroke_to_vk(key) {
            Some(vk) => match self.find_task(task_id) {
                Some(k) => {
                    let task = self.key_tasks[k];
                    self.key_tasks.set(k, KeyTask { vk, ..task });
                },
                None => {},
            },
            None => {},
        }
        self.recording_task_id = None;
    }

    /// Starts the tool where it can: keys may be posted, a target window with
    /// a handle is chosen, and there is a task. The interval fields are read
    /// first. Otherwise nothing changes.
    pub fn start(&mut self, accessibility_ready: bool, texts: &Vec<Option<String>>) -> (plan:
        Option<StartPlan>)
        ensures
            ids_well_formed(*old(self)) ==> ids_well_formed(*final(self)),
            plan is Some <==> (accessibility_ready && old(self).target_window is Some
                && window_picker::target_of(old(self).target_window.unwrap().target) is Some
                && old(self).key_tasks@.len() > 0),
            plan is None ==> *final(self) == *old(self),
            plan matches Some(p) ==> {
                &&& *final(self) == (AppState {
                    key_tasks: final(self).key_tasks,
                    is_running: true,
                    ..*old(self)
                })
                &&& final(self).key_tasks@ == synced_tasks(old(self).key_tasks@, texts@)
                &&& Some(p.target) == window_picker::target_of(
                    old(self).target_window.unwrap().target,
                )
                &&& p.tasks@ == final(self).key_tasks@
                &&& p.send_mode == old(self).send_mode
            },
    {
        if !accessibility_ready {
            return None;
        }
        let target = match &self.target_window {
            Some(w) => match w.target_hwnd() {
                Some(h) => h,
                None => return None,
            },
            None => return None,
        };
        if self.key_tasks.len() == 0 {
            return None;
        }
        self.sync_intervals_from_inputs(texts);
        let mut tasks: Vec<KeyTask> = Vec::new();
        let mut i: usize = 0;
        while i < self.key_tasks.len()
            invariant
                i <= self.key_tasks@.len(),
                tasks@ == self.key_tasks@.subrange(0, i as int),
            decreases self.key_tasks@.len() - i,
        {
            tasks.push(self.key_tasks[i]);
            i = i + 1;
            assert(tasks@ =~= self.key_tasks@.subrange(0, i as int));
        }
        assert(tasks@ =~= self.key_tasks@);
        self.is_running = true;
        Some(StartPlan { target, tasks, send_mode: self.send_mode })
    }

    /// Marks the tool stopped, keeping the final counts of the scheduler where
    /// one ran.
    pub fn stop(&mut self, scheduler_stats: Option<SendStats>)
        ensures
            ids_well_formed(*old(self)) ==> ids_well_formed(*final(self)),
            *final(self) == (AppState {
                is_running: false,
                stats: match scheduler_stats {
                    Some(st) => st,
                    None => old(self).stats,
                },
                ..*old(self)
            }),
    {
        match scheduler_stats {
            Some(st) => {
                self.stats = st;
            },
            None => {},
        }
        self.is_running = false;
    }

    /// The start/stop toggle: a running tool stops and saves its
    /// configuration (after reading the interval fields); an idle one starts
    /// where it can.
    pub fn toggle_running(
        &mut self,
        accessibility_ready: bool,
        texts: &Vec<Option<String>>,
        scheduler_stats: Option<SendStats>,
    ) -> (outcome: ToggleOutcome)
        ensures
            ids_well_formed(*old(self)) ==> ids_well_formed(*final(self)),
            old(self).is_running ==> {
                &&& outcome matches ToggleOutcome::Stopped(c) && saves_state(c, *final(self))
                &&& !final(self).is_running
                &&& *final(self) == (AppState {
                    key_tasks: final(self).key_tasks,
                    is_running: false,
                    stats: match scheduler_stats {
                        Some(st) => st,
                        None => old(self).stats,
                    },
                    ..*old(self)
                })
                &&& final(self).key_tasks@ == synced_tasks(old(self).key_tasks@, texts@)
            },
            !old(self).is_running ==> (outcome is NotStarted <==> !(accessibility_ready
                && old(self).target_window is Some && window_picker::target_of(
                old(self).target_window.unwrap().target,
            ) is Some && old(self).key_tasks@.len() > 0)),
            !old(self).is_running && outcome is NotStarted ==> *final(self) == *old(self),
            !old(self).is_running ==> outcome !is Stopped,
            outcome matches ToggleOutcome::Started(p) ==> {
                &&& final(self).is_running
                &&& *final(self) == (AppState {
                    key_tasks: final(self).key_tasks,
                    is_running: true,
                    ..*old(self)
                })
                &&& final(self).key_tasks@ == synced_tasks(old(self).key_tasks@, texts@)
                &&& p.tasks@ == final(self).key_tasks@
                &&& p.send_mode == old(self).send_mode
                &&& Some(p.target) == window_picker::target_of(
                    old(self).target_window.unwrap().target,
                )
            },
    {
        if self.is_running {
            self.stop(scheduler_stats);
            let c = self.save_current_config(texts);
            ToggleOutcome::Stopped(c)
        } else {
            match self.start(accessibility_ready, texts) {
                Some(p) => ToggleOutcome::Started(p),
                None => ToggleOutcome::NotStarted,
            }
        }
    }

    /// Turns window picking on or off. Picking starts unarmed, from the mouse
    /// snapshot `snapshot_now`; stopping forgets the snapshot.
    pub fn toggle_pick(&mut self, snapshot_now: MousePressSnapshot) -> (picking: bool)
        ensures
            ids_well_formed(*old(self)) ==> ids_well_formed(*final(self)),
            picking == !old(self).is_picking,
            *final(self) == (AppState {
                is_picking: picking,
                pick_ready_to_confirm: false,
                pick_mouse_snapshot: if picking {
                    snapshot_now
                } else {
                    window_picker::empty_snapshot()
                },
                ..*old(self)
            }),
    {
        self.is_picking = !self.is_picking;
        self.pick_ready_to_confirm = false;
        if self.is_picking {
            self.pick_mouse_snapshot = snapshot_now;
        } else {
            self.pick_mouse_snapshot = MousePressSnapshot::default();
        }
        self.is_picking
    }

    /// One round of window picking with the mouse look `poll` and the window
    /// under the cursor `hovered`. The target becomes the hovered window where
    /// it is another window. Once the mouse was seen released, a press or a
    /// click confirms: picking stops.
    pub fn pick_step(&mut self, poll: MousePressPoll, hovered: Option<WindowInfo>) -> (step:
        PickStep)
        ensures
            ids_well_formed(*old(self)) ==> ids_well_formed(*final(self)),
            !old(self).is_picking ==> *final(self) == *old(self) && !step.keep_picking
                && !step.redraw,
            old(self).is_picking ==> {
                let ready = old(self).pick_ready_to_confirm || !poll.is_pressed;
                let stop = ready && (poll.is_pressed || poll.saw_new_press);
                let changed = pick_changes(old(self).target_window, hovered);
                &&& step.keep_picking == !stop
                &&& step.redraw == (changed || stop)
                &&& *final(self) == (AppState {
                    target_window: picked_target(old(self).target_window, hovered),
                    is_picking: !stop,
                    pick_ready_to_confirm: !stop && ready,
                    pick_mouse_snapshot: if stop {
                        window_picker::empty_snapshot()
                    } else {
                        poll.snapshot
                    },
                    ..*old(self)
                })
            },
    {
        if !self.is_picking {
            return PickStep { keep_picking: false, redraw: false };
        }
        let same = |c: &WindowInfo, n: &WindowInfo| -> (b: bool)
            ensures
                b == window_picker::same_window(*c, *n),
            { c.matches_target(n) };
        let ghost hovered_v = hovered;
        let frame = advance_pick_frame(
            self.target_window.as_ref(),
            hovered,
            self.pick_ready_to_confirm,
            poll.is_pressed,
            poll.saw_new_press,
            same,
        );
        proof {
            if self.target_window is Some && hovered_v is None {
                window_picker::lemma_same_window_equivalence(
                    self.target_window.unwrap(),
                    self.target_window.unwrap(),
                    self.target_window.unwrap(),
                );
            }
        }
        self.pick_mouse_snapshot = poll.snapshot;
        if frame.changed {
            self.target_window = frame.target;
        }
        if frame.stop_picking {
            self.is_picking = false;
            self.pick_ready_to_confirm = false;
            self.pick_mouse_snapshot = MousePressSnapshot::default();
        } else {
            self.pick_ready_to_confirm = frame.ready_to_confirm;
        }
        PickStep { keep_picking: !frame.stop_picking, redraw: frame.changed || frame.stop_picking }
    }

    /// The label of the pick button: stop while picking, pick otherwise.
    pub fn pick_label(&self, text: &UiText) -> (s: &'static str)
        ensures
            s == (if self.is_picking {
                text.stop
            } else {
                text.pick
            }),
    {
        if self.is_picking {
            text.stop
        } else {
            text.pick
        }
    }

    /// The label of a task's key badge: the prompt while that task records,
    /// else the key's name.
    pub fn badge_label(&self, text: &UiText, task: &KeyTask) -> (s: &'static str)
        ensures
            self.recording_task_id == Some(task.id) ==> s == text.press_key,
            self.recording_task_id != Some(task.id) ==> s@ == key_sender::key_name(task.vk.0),
    {
        if self.recording_task_id == Some(task.id) {
            text.press_key
        } else {
            task.vk.name()
        }
    }

    /// The press counts shown in the status bar.
    pub fn stats_text(&self) -> (s: String)
        ensures
            s@ == stats_line(self.key_tasks@, self.stats.counts@),
    {
        let tasks = &self.key_tasks;
        let mut s = String::new();
        let mut i: usize = 0;
        while i < tasks.len()
            invariant
                i <= tasks@.len(),
                s@ == stats_line(tasks@.subrange(0, i as int), self.stats.counts@),
            decreases tasks@.len() - i,
        {
            let t = tasks[i];
            let ghost before = s@;
            if i > 0 {
                s.append("  ");
            }
            s.append(t.vk.name());
            s.append("×");
            push_decimal(&mut s, self.stats.count(t.id));
            let ghost sub = tasks@.subrange(0, i + 1);
            assert(sub.drop_last() =~= tasks@.subrange(0, i as int));
            assert(sub.last() == t);
            if i == 0 {
                assert(sub.len() == 1);
                assert(s@ =~= stats_line(sub, self.stats.counts@));
            } else {
                assert(s@ =~= stats_line(sub, self.stats.counts@));
            }
            i = i + 1;
        }
        assert(tasks@.subrange(0, tasks@.len() as int) =~= tasks@);
        s
    }
}

/// The status shown in the status bar: the missing permission first, then
/// running, else ready.
pub fn status_text(text: &UiText, accessibility_ready: bool, is_running: bool) -> (s: &'static str)
    ensures
        s == (if !accessibility_ready {
            text.accessibility_required
        } else if is_running {
            text.running_status
        } else {
            text.ready
        }),
{
    if !accessibility_ready {
        text.accessibility_required
    } else if is_running {
        text.running_status
    } else {
        text.ready
    }
}

/// The warning under the start button for a reason that blocks starting.
pub fn block_message(text: &UiText, reason: Option<StartBlockReason>) -> (m: Option<&'static str>)
    ensures
        m == match reason {
            Some(StartBlockReason::MissingPermission) => Some(text.start_needs_permission),
            Some(StartBlockReason::MissingTarget) => Some(text.start_needs_window),
            None => None,
        },
{
    match reason {
        Some(StartBlockReason::MissingPermission) => Some(text.start_needs_permission),
        Some(StartBlockReason::MissingTarget) => Some(text.start_needs_window),
        None => None,
    }
}

} // verus!
