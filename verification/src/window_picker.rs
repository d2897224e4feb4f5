//! The target window: what identifies it on each platform, when two picks
//! name the same window, which window under the cursor is picked, and the
//! mouse-button bookkeeping that tells the picker when the user clicks.
//! Reading windows and mouse buttons from the operating system is the
//! application's part; it hands the readings to the functions here.
use vstd::prelude::*;
use crate::text;
use crate::text::trim_str;

verus! {

/// What identifies a picked window to the platform that delivers the keys.
#[derive(Clone, Copy, Debug, PartialEq, Eq, Structural)]
pub enum WindowTarget {
    /// A window handle on Windows.
    Hwnd(isize),
    /// A window number on macOS and the id of the process that owns it.
    MacWindow { window_id: u32, owner_pid: i32 },
    /// No handle: a platform that cannot deliver keys to a window.
    Unsupported,
}

/// A window that the user picked.
#[derive(Debug, PartialEq, Eq)]
pub struct WindowInfo {
    pub target: WindowTarget,
    pub title: String,
    pub class_name: String,
}

impl Clone for WindowInfo {
    fn clone(&self) -> (w: WindowInfo)
        ensures
            w == *self,
    {
        WindowInfo { target: self.target, title: self.title.clone(), class_name: self.class_name.clone() }
    }
}

/// The target that keys are sent to for a window: the window handle on
/// Windows, the owning process on macOS, none elsewhere.
pub open spec fn target_of(target: WindowTarget) -> Option<isize> {
    match target {
        WindowTarget::Hwnd(h) => Some(h),
        WindowTarget::MacWindow { owner_pid, .. } => Some(owner_pid as isize),
        WindowTarget::Unsupported => None,
    }
}

/// Whether two picks name the same window: the same handle on Windows, the
/// same window number and process on macOS, the same title and class
/// elsewhere.
pub open spec fn same_window(a: WindowInfo, b: WindowInfo) -> bool {
    match (a.target, b.target) {
        (WindowTarget::Hwnd(x), WindowTarget::Hwnd(y)) => x == y,
        (
            WindowTarget::MacWindow { window_id: w1, owner_pid: p1 },
            WindowTarget::MacWindow { window_id: w2, owner_pid: p2 },
        ) => w1 == w2 && p1 == p2,
        (WindowTarget::Unsupported, WindowTarget::Unsupported) => a.title@ == b.title@
            && a.class_name@ == b.class_name@,
        _ => false,
    }
}

impl WindowInfo {
    /// A window on a platform without window handles.
    pub fn new(title: String, class_name: String) -> (w: WindowInfo)
        ensures
            w.target == WindowTarget::Unsupported,
            w.title == title,
            w.class_name == class_name,
    {
        WindowInfo { target: WindowTarget::Unsupported, title, class_name }
    }

    /// A window on Windows.
    pub fn windows(hwnd: isize, title: String, class_name: String) -> (w: WindowInfo)
        ensures
            w.target == WindowTarget::Hwnd(hwnd),
            w.title == title,
            w.class_name == class_name,
    {
        WindowInfo { target: WindowTarget::Hwnd(hwnd), title, class_name }
    }

    /// A window on macOS.
    pub fn macos(window_id: u32, owner_pid: i32, title: String, class_name: String) -> (w:
        WindowInfo)
        ensures
            w.target == (WindowTarget::MacWindow { window_id, owner_pid }),
            w.title == title,
            w.class_name == class_name,
    {
        WindowInfo { target: WindowTarget::MacWindow { window_id, owner_pid }, title, class_name }
    }

    pub fn target_hwnd(&self) -> (t: Option<isize>)
        ensures
            t == target_of(self.target),
    {
        match self.target {
            WindowTarget::Hwnd(h) => Some(h),
            WindowTarget::MacWindow { owner_pid, .. } => Some(owner_pid as isize),
            WindowTarget::Unsupported => None,
        }
    }

    pub fn matches_target(&self, other: &WindowInfo) -> (b: bool)
        ensures
            b == same_window(*self, *other),
    {
        match (self.target, other.target) {
            (WindowTarget::Hwnd(x), WindowTarget::Hwnd(y)) => x == y,
            (
                WindowTarget::MacWindow { window_id: w1, owner_pid: p1 },
                WindowTarget::MacWindow { window_id: w2, owner_pid: p2 },
            ) => w1 == w2 && p1 == p2,
            (WindowTarget::Unsupported, WindowTarget::Unsupported) => self.title == other.title
                && self.class_name == other.class_name,
            _ => false,
        }
    }

    /// The text that shows the window: its title.
    pub fn display_text(&self) -> (s: String)
        ensures
            s@ == self.title@,
    {
        self.title.clone()
    }
}

/// Naming the same window is an equivalence: every window is the same as
/// itself, in either order, and through a third.
pub proof fn lemma_same_window_equivalence(a: WindowInfo, b: WindowInfo, c: WindowInfo)
    ensures
        same_window(a, a),
        same_window(a, b) ==> same_window(b, a),
        same_window(a, b) && same_window(b, c) ==> same_window(a, c),
{
}

/// The mouse buttons as the picker last saw them. Bit 0 is the left button,
/// bit 1 the right one and bit 2 the middle one. The counters are the
/// system's running counts of presses of each kind, where it keeps them
/// (macOS); elsewhere they stay zero.
#[derive(Clone, Copy, Debug, PartialEq, Eq, Structural)]
pub struct MousePressSnapshot {
    pub buttons_down: u8,
    pub left_press_count: u32,
    pub right_press_count: u32,
    pub other_press_count: u32,
}

/// One look at the mouse: the new snapshot, whether a button is down, and
/// whether a button was pressed since the previous look.
#[derive(Clone, Copy, Debug, PartialEq, Eq, Structural)]
pub struct MousePressPoll {
    pub snapshot: MousePressSnapshot,
    pub is_pressed: bool,
    pub saw_new_press: bool,
}

pub open spec fn empty_snapshot() -> MousePressSnapshot {
    MousePressSnapshot {
        buttons_down: 0,
        left_press_count: 0,
        right_press_count: 0,
        other_press_count: 0,
    }
}

pub open spec fn empty_poll() -> MousePressPoll {
    MousePressPoll { snapshot: empty_snapshot(), is_pressed: false, saw_new_press: false }
}

impl Default for MousePressSnapshot {
    fn default() -> (s: MousePressSnapshot)
        ensures
            s == empty_snapshot(),
    {
        MousePressSnapshot {
            buttons_down: 0,
            left_press_count: 0,
            right_press_count: 0,
            other_press_count: 0,
        }
    }
}

impl Default for MousePressPoll {
    fn default() -> (p: MousePressPoll)
        ensures
            p == empty_poll(),
    {
        MousePressPoll {
            snapshot: MousePressSnapshot::default(),
            is_pressed: false,
            saw_new_press: false,
        }
    }
}

/// The button bit for one state word of `GetAsyncKeyState`: `bit` where the
/// word has `mask` set, else zero.
pub open spec fn state_bit(state: u16, mask: u16, bit: u8) -> u8 {
    if state & mask != 0 {
        bit
    } else {
        0
    }
}

/// The buttons down (high bit of each state word) and the buttons pressed
/// since the last query (low bit), for the left, right and middle buttons'
/// state words, as button bit sets.
pub open spec fn windows_button_bits(states: [u16; 3]) -> (u8, u8) {
    (
        (state_bit(states[0], 0x8000, 1) + state_bit(states[1], 0x8000, 2) + state_bit(
            states[2],
            0x8000,
            4,
        )) as u8,
        (state_bit(states[0], 0x0001, 1) + state_bit(states[1], 0x0001, 2) + state_bit(
            states[2],
            0x0001,
            4,
        )) as u8,
    )
}

/// The buttons down and the buttons pressed since the last query, from the
/// `GetAsyncKeyState` words of the left, right and middle buttons.
pub fn windows_mouse_button_state(states: [u16; 3]) -> (r: (u8, u8))
    ensures
        r == windows_button_bits(states),
{
    let mut buttons_down: u8 = 0;
    let mut pressed_since_last_poll: u8 = 0;
    if states[0] & 0x8000 != 0 {
        buttons_down = buttons_down + 1;
    }
    if states[1] & 0x8000 != 0 {
        buttons_down = buttons_down + 2;
    }
    if states[2] & 0x8000 != 0 {
        buttons_down = buttons_down + 4;
    }
    if states[0] & 0x0001 != 0 {
        pressed_since_last_poll = pressed_since_last_poll + 1;
    }
    if states[1] & 0x0001 != 0 {
        pressed_since_last_poll = pressed_since_last_poll + 2;
    }
    if states[2] & 0x0001 != 0 {
        pressed_since_last_poll = pressed_since_last_poll + 4;
    }
    (buttons_down, pressed_since_last_poll)
}

/// Whether `current` has a button down that `previous` did not.
pub open spec fn new_button_down(current: u8, previous: u8) -> bool {
    current & !previous != 0
}

/// A button is newly down exactly where the buttons down now are not all
/// among those down before: releasing buttons is no new press, and every
/// button that goes down is one.
pub proof fn lemma_new_button_down_means_a_button_went_down(current: u8, previous: u8)
    ensures
        new_button_down(current, previous) <==> (current & previous) != current,
        (current & previous) == current ==> !new_button_down(current, previous),
        forall|b: u8|
            b < 8 && (current >> b) & 1 == 1 && (previous >> b) & 1 == 0 ==> new_button_down(
                current,
                previous,
            ),
{
    assert(((current & !previous) != 0) <==> ((current & previous) != current)) by (bit_vector);
    assert forall|b: u8|
        b < 8 && (current >> b) & 1 == 1 && (previous >> b) & 1 == 0 implies (current
        & !previous) != 0 by {
        assert(b < 8 && (current >> b) & 1 == 1 && (previous >> b) & 1 == 0 ==> (current
            & !previous) != 0) by (bit_vector);
    }
}

/// The snapshot on Windows, which keeps only the buttons down.
pub fn windows_snapshot(buttons_down: u8) -> (s: MousePressSnapshot)
    ensures
        s == (MousePressSnapshot { buttons_down, ..empty_snapshot() }),
{
    MousePressSnapshot {
        buttons_down,
        left_press_count: 0,
        right_press_count: 0,
        other_press_count: 0,
    }
}

/// A look at the mouse on Windows: a press was seen where a button was
/// pressed since the last query or a button is down that was not before.
pub fn poll_windows(previous: MousePressSnapshot, buttons_down: u8, pressed_since_last_poll: u8) -> (p:
    MousePressPoll)
    ensures
        p.snapshot == (MousePressSnapshot { buttons_down, ..empty_snapshot() }),
        p.is_pressed == (buttons_down != 0),
        p.saw_new_press == (pressed_since_last_poll != 0 || new_button_down(
            buttons_down,
            previous.buttons_down,
        )),
        pressed_since_last_poll == 0 && (buttons_down & previous.buttons_down) == buttons_down
            ==> !p.saw_new_press,
        pressed_since_last_poll != 0 ==> p.saw_new_press,
        (buttons_down & previous.buttons_down) != buttons_down ==> p.saw_new_press,
{
    proof {
        lemma_new_button_down_means_a_button_went_down(buttons_down, previous.buttons_down);
    }
    let snapshot = windows_snapshot(buttons_down);
    let saw_new_press = pressed_since_last_poll != 0 || (buttons_down & !previous.buttons_down)
        != 0;
    MousePressPoll { snapshot, is_pressed: buttons_down != 0, saw_new_press }
}

/// The buttons down on macOS, from the left, right and middle button states.
pub fn macos_buttons_down(left: bool, right: bool, center: bool) -> (b: u8)
    ensures
        b == (if left {
            1u8
        } else {
            0u8
        }) + (if right {
            2u8
        } else {
            0u8
        }) + (if center {
            4u8
        } else {
            0u8
        }),
{
    let mut b: u8 = 0;
    if left {
        b = b + 1;
    }
    if right {
        b = b + 2;
    }
    if center {
        b = b + 4;
    }
    b
}

/// A look at the mouse on macOS, given the snapshot just taken: a press was
/// seen where a press counter grew or a button is down that was not before.
pub fn poll_macos(previous: MousePressSnapshot, snapshot: MousePressSnapshot) -> (p:
    MousePressPoll)
    ensures
        p.snapshot == snapshot,
        p.is_pressed == (snapshot.buttons_down != 0),
        p.saw_new_press == (snapshot.left_press_count > previous.left_press_count
            || snapshot.right_press_count > previous.right_press_count
            || snapshot.other_press_count > previous.other_press_count || new_button_down(
            snapshot.buttons_down,
            previous.buttons_down,
        )),
        snapshot.left_press_count <= previous.left_press_count && snapshot.right_press_count
            <= previous.right_press_count && snapshot.other_press_count
            <= previous.other_press_count && (snapshot.buttons_down & previous.buttons_down)
            == snapshot.buttons_down ==> !p.saw_new_press,
        (snapshot.buttons_down & previous.buttons_down) != snapshot.buttons_down
            ==> p.saw_new_press,
{
    proof {
        lemma_new_button_down_means_a_button_went_down(
            snapshot.buttons_down,
            previous.buttons_down,
        );
    }
    let saw_new_press = snapshot.left_press_count > previous.left_press_count
        || snapshot.right_press_count > previous.right_press_count
        || snapshot.other_press_count > previous.other_press_count || (snapshot.buttons_down
        & !previous.buttons_down) != 0;
    MousePressPoll { snapshot, is_pressed: snapshot.buttons_down != 0, saw_new_press }
}

/// The mouse snapshot on a platform that cannot read the mouse: nothing down.
pub fn capture_mouse_press_snapshot() -> (s: MousePressSnapshot)
    ensures
        s == empty_snapshot(),
{
    MousePressSnapshot::default()
}

/// A look at the mouse on a platform that cannot read it: nothing seen.
pub fn poll_mouse_press(_previous: MousePressSnapshot) -> (p: MousePressPoll)
    ensures
        p == empty_poll(),
{
    MousePressPoll::default()
}

/// A window that the window list of macOS reports, with what the picker reads
/// of it. `under_cursor` tells whether its bounds hold the cursor.
#[derive(Clone, Debug)]
pub struct WindowCandidate {
    pub window_id: u32,
    pub owner_pid: i32,
    pub owner_name: String,
    pub window_name: String,
    pub layer: i64,
    pub under_cursor: bool,
}

/// The title of a candidate: its trimmed window name, or where that is empty
/// its trimmed owner name; none where both are empty.
pub open spec fn candidate_title(c: WindowCandidate) -> Option<Seq<char>> {
    let owner = text::trim(c.owner_name@);
    let window = text::trim(c.window_name@);
    if window.len() > 0 {
        Some(window)
    } else if owner.len() > 0 {
        Some(owner)
    } else {
        None
    }
}

/// `w` is the picked-window form of the candidate `c`.
pub open spec fn window_of_candidate(c: WindowCandidate, w: WindowInfo) -> bool {
    &&& candidate_title(c) matches Some(t) && w.title@ == t
    &&& w.class_name@ == text::trim(c.owner_name@)
    &&& w.target == (WindowTarget::MacWindow { window_id: c.window_id, owner_pid: c.owner_pid })
}

/// The picked-window form of a candidate; none where it has no title.
pub fn candidate_to_window_info(c: &WindowCandidate) -> (w: Option<WindowInfo>)
    ensures
        w is None <==> candidate_title(*c) is None,
        w matches Some(info) ==> window_of_candidate(*c, info),
{
    let owner = trim_str(c.owner_name.as_str());
    let window = trim_str(c.window_name.as_str());
    let title = if window.as_str().unicode_len() > 0 {
        window
    } else if owner.as_str().unicode_len() > 0 {
        owner.clone()
    } else {
        return None;
    };
    Some(WindowInfo::macos(c.window_id, c.owner_pid, title, owner))
}

/// The candidate the picker takes: the first normal-layer window that holds
/// the cursor, front to back.
pub open spec fn is_first_hit(cands: Seq<WindowCandidate>, i: int) -> bool {
    &&& 0 <= i < cands.len()
    &&& cands[i].layer == 0 && cands[i].under_cursor
    &&& forall|j: int| 0 <= j < i ==> !(cands[j].layer == 0 && #[trigger] cands[j].under_cursor)
}

/// The window the picker takes from the window list of macOS, front to back:
/// the first normal-layer window under the cursor, where it has a title.
pub fn pick_window_at_cursor(cands: &Vec<WindowCandidate>) -> (w: Option<WindowInfo>)
    ensures
        w is None <==> forall|i: int| !is_first_hit(cands@, i) || candidate_title(
            #[trigger] cands@[i],
        ) is None,
        w matches Some(info) ==> exists|i: int|
            is_first_hit(cands@, i) && window_of_candidate(#[trigger] cands@[i], info),
{
    let mut i: usize = 0;
    while i < cands.len()
        invariant
            i <= cands@.len(),
            forall|j: int| 0 <= j < i ==> !(cands@[j].layer == 0 && #[trigger] cands@[j].under_cursor),
        decreases cands@.len() - i,
    {
        if cands[i].layer == 0 && cands[i].under_cursor {
            let r = candidate_to_window_info(&cands[i]);
            assert(is_first_hit(cands@, i as int));
            assert forall|k: int| is_first_hit(cands@, k) implies k == i by {
                if k < i {
                    assert(!(cands@[k].layer == 0 && cands@[k].under_cursor));
                }
                if k > i {
                    assert(!(cands@[i as int].layer == 0 && cands@[i as int].under_cursor));
                }
            }
            return r;
        }
        i = i + 1;
    }
    assert forall|k: int| !is_first_hit(cands@, k) by {
        if 0 <= k < cands@.len() {
            assert(!(cands@[k].layer == 0 && cands@[k].under_cursor));
        }
    }
    None
}

/// The positions, in order, of the candidates among the first `n` that have a
/// title.
pub open spec fn titled_positions(cands: Seq<WindowCandidate>, n: int) -> Seq<int>
    decreases n,
{
    if n <= 0 {
        seq![]
    } else if candidate_title(cands[n - 1]) is Some {
        titled_positions(cands, n - 1).push(n - 1)
    } else {
        titled_positions(cands, n - 1)
    }
}

/// The visible windows of macOS that have a title, in the order of the
/// window list.
pub fn visible_windows_from(cands: &Vec<WindowCandidate>) -> (ws: Vec<WindowInfo>)
    ensures
        ws@.len() == titled_positions(cands@, cands@.len() as int).len(),
        forall|k: int|
            0 <= k < ws@.len() ==> window_of_candidate(
                cands@[titled_positions(cands@, cands@.len() as int)[k]],
                #[trigger] ws@[k],
            ),
{
    let mut ws: Vec<WindowInfo> = Vec::new();
    let mut i: usize = 0;
    while i < cands.len()
        invariant
            i <= cands@.len(),
            ws@.len() == titled_positions(cands@, i as int).len(),
            forall|k: int|
                0 <= k < ws@.len() ==> window_of_candidate(
                    cands@[titled_positions(cands@, i as int)[k]],
                    #[trigger] ws@[k],
                ),
        decreases cands@.len() - i,
    {
        let ghost before = titled_positions(cands@, i as int);
        match candidate_to_window_info(&cands[i]) {
            Some(info) => {
                ws.push(info);
                assert(titled_positions(cands@, i + 1) == before.push(i as int));
            },
            None => {
                assert(titled_positions(cands@, i + 1) == before);
            },
        }
        i = i + 1;
    }
    ws
}

/// The window under the cursor on a platform that cannot tell: none.
pub fn get_window_under_cursor() -> (w: Option<WindowInfo>)
    ensures
        w is None,
{
    None
}

/// The visible windows on a platform that cannot list them: none.
pub fn list_visible_windows() -> (ws: Vec<WindowInfo>)
    ensures
        ws@.len() == 0,
{
    Vec::new()
}

} // verus!
