//! Keys and key events: the key table with names, the macOS key codes, the
//! characters that Windows receives with a key, and the message sequences
//! that deliver one key press to a target window.
use vstd::prelude::*;
use crate::text;

verus! {

/// How a key press is delivered to the target window on Windows.
#[derive(Clone, Copy, Debug, PartialEq, Eq, Structural)]
pub enum SendMode {
    PostMessage,
    SendMessage,
}

/// The name of a send mode as the interface and the saved configuration show it.
pub open spec fn send_mode_label(m: SendMode) -> Seq<char> {
    match m {
        SendMode::PostMessage => "PostMessage"@,
        SendMode::SendMessage => "SendMessage"@,
    }
}

impl SendMode {
    pub fn label(&self) -> (s: &'static str)
        ensures
            s@ == send_mode_label(*self),
    {
        match self {
            SendMode::PostMessage => "PostMessage",
            SendMode::SendMessage => "SendMessage",
        }
    }

    /// Every send mode, in the order the interface lists them.
    pub fn all() -> (modes: [SendMode; 2])
        ensures
            modes@ == seq![SendMode::PostMessage, SendMode::SendMessage],
    {
        let modes = [SendMode::PostMessage, SendMode::SendMessage];
        assert(modes@ =~= seq![SendMode::PostMessage, SendMode::SendMessage]);
        modes
    }
}

/// A Windows virtual-key code.
#[derive(Clone, Copy, Debug, PartialEq, Eq, Hash, Structural)]
pub struct VirtualKey(pub u16);

/// The number of entries in the key table.
pub const KEY_COUNT: usize = 63;

/// Entry `i` of the table of keys the tool can press: its name and its
/// Windows virtual-key code.
pub open spec fn key_entry(i: int) -> (Seq<char>, u16) {
    if i == 0 {
        ("A"@, 0x41)
    } else if i == 1 {
        ("B"@, 0x42)
    } else if i == 2 {
        ("C"@, 0x43)
    } else if i == 3 {
        ("D"@, 0x44)
    } else if i == 4 {
        ("E"@, 0x45)
    } else if i == 5 {
        ("F"@, 0x46)
    } else if i == 6 {
        ("G"@, 0x47)
    } else if i == 7 {
        ("H"@, 0x48)
    } else if i == 8 {
        ("I"@, 0x49)
    } else if i == 9 {
        ("J"@, 0x4A)
    } else if i == 10 {
        ("K"@, 0x4B)
    } else if i == 11 {
        ("L"@, 0x4C)
    } else if i == 12 {
        ("M"@, 0x4D)
    } else if i == 13 {
        ("N"@, 0x4E)
    } else if i == 14 {
        ("O"@, 0x4F)
    } else if i == 15 {
        ("P"@, 0x50)
    } else if i == 16 {
        ("Q"@, 0x51)
    } else if i == 17 {
        ("R"@, 0x52)
    } else if i == 18 {
        ("S"@, 0x53)
    } else if i == 19 {
        ("T"@, 0x54)
    } else if i == 20 {
        ("U"@, 0x55)
    } else if i == 21 {
        ("V"@, 0x56)
    } else if i == 22 {
        ("W"@, 0x57)
    } else if i == 23 {
        ("X"@, 0x58)
    } else if i == 24 {
        ("Y"@, 0x59)
    } else if i == 25 {
        ("Z"@, 0x5A)
    } else if i == 26 {
        ("0"@, 0x30)
    } else if i == 27 {
        ("1"@, 0x31)
    } else if i == 28 {
        ("2"@, 0x32)
    } else if i == 29 {
        ("3"@, 0x33)
    } else if i == 30 {
        ("4"@, 0x34)
    } else if i == 31 {
        ("5"@, 0x35)
    } else if i == 32 {
        ("6"@, 0x36)
    } else if i == 33 {
        ("7"@, 0x37)
    } else if i == 34 {
        ("8"@, 0x38)
    } else if i == 35 {
        ("9"@, 0x39)
    } else if i == 36 {
        ("F1"@, 0x70)
    } else if i == 37 {
        ("F2"@, 0x71)
    } else if i == 38 {
        ("F3"@, 0x72)
    } else if i == 39 {
        ("F4"@, 0x73)
    } else if i == 40 {
        ("F5"@, 0x74)
    } else if i == 41 {
        ("F6"@, 0x75)
    } else if i == 42 {
        ("F7"@, 0x76)
    } else if i == 43 {
        ("F8"@, 0x77)
    } else if i == 44 {
        ("F9"@, 0x78)
    } else if i == 45 {
        ("F10"@, 0x79)
    } else if i == 46 {
        ("F11"@, 0x7A)
    } else if i == 47 {
        ("F12"@, 0x7B)
    } else if i == 48 {
        ("SPACE"@, 0x20)
    } else if i == 49 {
        ("ENTER"@, 0x0D)
    } else if i == 50 {
        ("TAB"@, 0x09)
    } else if i == 51 {
        ("ESC"@, 0x1B)
    } else if i == 52 {
        ("BACKSPACE"@, 0x08)
    } else if i == 53 {
        ("DELETE"@, 0x2E)
    } else if i == 54 {
        ("INSERT"@, 0x2D)
    } else if i == 55 {
        ("HOME"@, 0x24)
    } else if i == 56 {
        ("END"@, 0x23)
    } else if i == 57 {
        ("PAGEUP"@, 0x21)
    } else if i == 58 {
        ("PAGEDOWN"@, 0x22)
    } else if i == 59 {
        ("UP"@, 0x26)
    } else if i == 60 {
        ("DOWN"@, 0x28)
    } else if i == 61 {
        ("LEFT"@, 0x25)
    } else {
        ("RIGHT"@, 0x27)
    }
}

/// The position in the key table of the entry with code `code`, where there is one.
pub open spec fn key_index(code: u16) -> int {
    if code == 0x41 {
        0
    } else if code == 0x42 {
        1
    } else if code == 0x43 {
        2
    } else if code == 0x44 {
        3
    } else if code == 0x45 {
        4
    } else if code == 0x46 {
        5
    } else if code == 0x47 {
        6
    } else if code == 0x48 {
        7
    } else if code == 0x49 {
        8
    } else if code == 0x4A {
        9
    } else if code == 0x4B {
        10
    } else if code == 0x4C {
        11
    } else if code == 0x4D {
        12
    } else if code == 0x4E {
        13
    } else if code == 0x4F {
        14
    } else if code == 0x50 {
        15
    } else if code == 0x51 {
        16
    } else if code == 0x52 {
        17
    } else if code == 0x53 {
        18
    } else if code == 0x54 {
        19
    } else if code == 0x55 {
        20
    } else if code == 0x56 {
        21
    } else if code == 0x57 {
        22
    } else if code == 0x58 {
        23
    } else if code == 0x59 {
        24
    } else if code == 0x5A {
        25
    } else if code == 0x30 {
        26
    } else if code == 0x31 {
        27
    } else if code == 0x32 {
        28
    } else if code == 0x33 {
        29
    } else if code == 0x34 {
        30
    } else if code == 0x35 {
        31
    } else if code == 0x36 {
        32
    } else if code == 0x37 {
        33
    } else if code == 0x38 {
        34
    } else if code == 0x39 {
        35
    } else if code == 0x70 {
        36
    } else if code == 0x71 {
        37
    } else if code == 0x72 {
        38
    } else if code == 0x73 {
        39
    } else if code == 0x74 {
        40
    } else if code == 0x75 {
        41
    } else if code == 0x76 {
        42
    } else if code == 0x77 {
        43
    } else if code == 0x78 {
        44
    } else if code == 0x79 {
        45
    } else if code == 0x7A {
        46
    } else if code == 0x7B {
        47
    } else if code == 0x20 {
        48
    } else if code == 0x0D {
        49
    } else if code == 0x09 {
        50
    } else if code == 0x1B {
        51
    } else if code == 0x08 {
        52
    } else if code == 0x2E {
        53
    } else if code == 0x2D {
        54
    } else if code == 0x24 {
        55
    } else if code == 0x23 {
        56
    } else if code == 0x21 {
        57
    } else if code == 0x22 {
        58
    } else if code == 0x26 {
        59
    } else if code == 0x28 {
        60
    } else if code == 0x25 {
        61
    } else if code == 0x27 {
        62
    } else {
        -1
    }
}

/// The macOS key code that stands for a Windows virtual-key code, where the
/// tool knows one.
pub open spec fn macos_key_code_of(code: u16) -> Option<u16> {
    if code == 0x41 {
        Some(0x00)
    } else if code == 0x42 {
        Some(0x0B)
    } else if code == 0x43 {
        Some(0x08)
    } else if code == 0x44 {
        Some(0x02)
    } else if code == 0x45 {
        Some(0x0E)
    } else if code == 0x46 {
        Some(0x03)
    } else if code == 0x47 {
        Some(0x05)
    } else if code == 0x48 {
        Some(0x04)
    } else if code == 0x49 {
        Some(0x22)
    } else if code == 0x4A {
        Some(0x26)
    } else if code == 0x4B {
        Some(0x28)
    } else if code == 0x4C {
        Some(0x25)
    } else if code == 0x4D {
        Some(0x2E)
    } else if code == 0x4E {
        Some(0x2D)
    } else if code == 0x4F {
        Some(0x1F)
    } else if code == 0x50 {
        Some(0x23)
    } else if code == 0x51 {
        Some(0x0C)
    } else if code == 0x52 {
        Some(0x0F)
    } else if code == 0x53 {
        Some(0x01)
    } else if code == 0x54 {
        Some(0x11)
    } else if code == 0x55 {
        Some(0x20)
    } else if code == 0x56 {
        Some(0x09)
    } else if code == 0x57 {
        Some(0x0D)
    } else if code == 0x58 {
        Some(0x07)
    } else if code == 0x59 {
        Some(0x10)
    } else if code == 0x5A {
        Some(0x06)
    } else if code == 0x30 {
        Some(0x1D)
    } else if code == 0x31 {
        Some(0x12)
    } else if code == 0x32 {
        Some(0x13)
    } else if code == 0x33 {
        Some(0x14)
    } else if code == 0x34 {
        Some(0x15)
    } else if code == 0x35 {
        Some(0x17)
    } else if code == 0x36 {
        Some(0x16)
    } else if code == 0x37 {
        Some(0x1A)
    } else if code == 0x38 {
        Some(0x1C)
    } else if code == 0x39 {
        Some(0x19)
    } else if code == 0x70 {
        Some(0x7A)
    } else if code == 0x71 {
        Some(0x78)
    } else if code == 0x72 {
        Some(0x63)
    } else if code == 0x73 {
        Some(0x76)
    } else if code == 0x74 {
        Some(0x60)
    } else if code == 0x75 {
        Some(0x61)
    } else if code == 0x76 {
        Some(0x62)
    } else if code == 0x77 {
        Some(0x64)
    } else if code == 0x78 {
        Some(0x65)
    } else if code == 0x79 {
        Some(0x6D)
    } else if code == 0x7A {
        Some(0x67)
    } else if code == 0x7B {
        Some(0x6F)
    } else if code == 0x20 {
        Some(0x31)
    } else if code == 0x0D {
        Some(0x24)
    } else if code == 0x09 {
        Some(0x30)
    } else if code == 0x1B {
        Some(0x35)
    } else if code == 0x08 {
        Some(0x33)
    } else if code == 0x2E {
        Some(0x75)
    } else if code == 0x2D {
        Some(0x72)
    } else if code == 0x24 {
        Some(0x73)
    } else if code == 0x23 {
        Some(0x77)
    } else if code == 0x21 {
        Some(0x74)
    } else if code == 0x22 {
        Some(0x79)
    } else if code == 0x26 {
        Some(0x7E)
    } else if code == 0x28 {
        Some(0x7D)
    } else if code == 0x25 {
        Some(0x7B)
    } else if code == 0x27 {
        Some(0x7C)
    } else {
        None
    }
}

/// Entry `i` of the key table.
pub fn key_entry_at(i: usize) -> (e: (&'static str, VirtualKey))
    requires
        i < KEY_COUNT,
    ensures
        e.0@ == key_entry(i as int).0,
        e.1.0 == key_entry(i as int).1,
{
    match i {
        0 => ("A", VirtualKey(0x41)),
        1 => ("B", VirtualKey(0x42)),
        2 => ("C", VirtualKey(0x43)),
        3 => ("D", VirtualKey(0x44)),
        4 => ("E", VirtualKey(0x45)),
        5 => ("F", VirtualKey(0x46)),
        6 => ("G", VirtualKey(0x47)),
        7 => ("H", VirtualKey(0x48)),
        8 => ("I", VirtualKey(0x49)),
        9 => ("J", VirtualKey(0x4A)),
        10 => ("K", VirtualKey(0x4B)),
        11 => ("L", VirtualKey(0x4C)),
        12 => ("M", VirtualKey(0x4D)),
        13 => ("N", VirtualKey(0x4E)),
        14 => ("O", VirtualKey(0x4F)),
        15 => ("P", VirtualKey(0x50)),
        16 => ("Q", VirtualKey(0x51)),
        17 => ("R", VirtualKey(0x52)),
        18 => ("S", VirtualKey(0x53)),
        19 => ("T", VirtualKey(0x54)),
        20 => ("U", VirtualKey(0x55)),
        21 => ("V", VirtualKey(0x56)),
        22 => ("W", VirtualKey(0x57)),
        23 => ("X", VirtualKey(0x58)),
        24 => ("Y", VirtualKey(0x59)),
        25 => ("Z", VirtualKey(0x5A)),
        26 => ("0", VirtualKey(0x30)),
        27 => ("1", VirtualKey(0x31)),
        28 => ("2", VirtualKey(0x32)),
        29 => ("3", VirtualKey(0x33)),
        30 => ("4", VirtualKey(0x34)),
        31 => ("5", VirtualKey(0x35)),
        32 => ("6", VirtualKey(0x36)),
        33 => ("7", VirtualKey(0x37)),
        34 => ("8", VirtualKey(0x38)),
        35 => ("9", VirtualKey(0x39)),
        36 => ("F1", VirtualKey(0x70)),
        37 => ("F2", VirtualKey(0x71)),
        38 => ("F3", VirtualKey(0x72)),
        39 => ("F4", VirtualKey(0x73)),
        40 => ("F5", VirtualKey(0x74)),
        41 => ("F6", VirtualKey(0x75)),
        42 => ("F7", VirtualKey(0x76)),
        43 => ("F8", VirtualKey(0x77)),
        44 => ("F9", VirtualKey(0x78)),
        45 => ("F10", VirtualKey(0x79)),
        46 => ("F11", VirtualKey(0x7A)),
        47 => ("F12", VirtualKey(0x7B)),
        48 => ("SPACE", VirtualKey(0x20)),
        49 => ("ENTER", VirtualKey(0x0D)),
        50 => ("TAB", VirtualKey(0x09)),
        51 => ("ESC", VirtualKey(0x1B)),
        52 => ("BACKSPACE", VirtualKey(0x08)),
        53 => ("DELETE", VirtualKey(0x2E)),
        54 => ("INSERT", VirtualKey(0x2D)),
        55 => ("HOME", VirtualKey(0x24)),
        56 => ("END", VirtualKey(0x23)),
        57 => ("PAGEUP", VirtualKey(0x21)),
        58 => ("PAGEDOWN", VirtualKey(0x22)),
        59 => ("UP", VirtualKey(0x26)),
        60 => ("DOWN", VirtualKey(0x28)),
        61 => ("LEFT", VirtualKey(0x25)),
        _ => ("RIGHT", VirtualKey(0x27)),
    }
}

/// The macOS key code for `vk`, where the tool knows one.
pub fn macos_key_code(vk: VirtualKey) -> (k: Option<u16>)
    ensures
        k == macos_key_code_of(vk.0),
{
    match vk.0 {
        0x41 => Some(0x00),
        0x42 => Some(0x0B),
        0x43 => Some(0x08),
        0x44 => Some(0x02),
        0x45 => Some(0x0E),
        0x46 => Some(0x03),
        0x47 => Some(0x05),
        0x48 => Some(0x04),
        0x49 => Some(0x22),
        0x4A => Some(0x26),
        0x4B => Some(0x28),
        0x4C => Some(0x25),
        0x4D => Some(0x2E),
        0x4E => Some(0x2D),
        0x4F => Some(0x1F),
        0x50 => Some(0x23),
        0x51 => Some(0x0C),
        0x52 => Some(0x0F),
        0x53 => Some(0x01),
        0x54 => Some(0x11),
        0x55 => Some(0x20),
        0x56 => Some(0x09),
        0x57 => Some(0x0D),
        0x58 => Some(0x07),
        0x59 => Some(0x10),
        0x5A => Some(0x06),
        0x30 => Some(0x1D),
        0x31 => Some(0x12),
        0x32 => Some(0x13),
        0x33 => Some(0x14),
        0x34 => Some(0x15),
        0x35 => Some(0x17),
        0x36 => Some(0x16),
        0x37 => Some(0x1A),
        0x38 => Some(0x1C),
        0x39 => Some(0x19),
        0x70 => Some(0x7A),
        0x71 => Some(0x78),
        0x72 => Some(0x63),
        0x73 => Some(0x76),
        0x74 => Some(0x60),
        0x75 => Some(0x61),
        0x76 => Some(0x62),
        0x77 => Some(0x64),
        0x78 => Some(0x65),
        0x79 => Some(0x6D),
        0x7A => Some(0x67),
        0x7B => Some(0x6F),
        0x20 => Some(0x31),
        0x0D => Some(0x24),
        0x09 => Some(0x30),
        0x1B => Some(0x35),
        0x08 => Some(0x33),
        0x2E => Some(0x75),
        0x2D => Some(0x72),
        0x24 => Some(0x73),
        0x23 => Some(0x77),
        0x21 => Some(0x74),
        0x22 => Some(0x79),
        0x26 => Some(0x7E),
        0x28 => Some(0x7D),
        0x25 => Some(0x7B),
        0x27 => Some(0x7C),
        _ => None,
    }
}

/// The key table as a sequence.
pub open spec fn key_table() -> Seq<(Seq<char>, u16)> {
    Seq::new(KEY_COUNT as nat, |i: int| key_entry(i))
}

/// The name of the first entry at or after `i` in the key table whose code is
/// `code`; `"?"` where there is none.
pub open spec fn key_name_from(code: u16, i: int) -> Seq<char>
    decreases KEY_COUNT - i,
{
    if i < 0 || i >= KEY_COUNT {
        "?"@
    } else if key_entry(i).1 == code {
        key_entry(i).0
    } else {
        key_name_from(code, i + 1)
    }
}

/// The name the interface shows for the key with code `code`: that of the
/// first table entry with the code, or `"?"`.
pub open spec fn key_name(code: u16) -> Seq<char> {
    key_name_from(code, 0)
}

impl VirtualKey {
    /// The name of this key in the key table, or `"?"` for a key the table
    /// does not hold.
    pub fn name(&self) -> (s: &'static str)
        ensures
            s@ == key_name(self.0),
    {
        let mut i: usize = 0;
        while i < KEY_COUNT
            invariant
                i <= KEY_COUNT,
                key_name(self.0) == key_name_from(self.0, i as int),
            decreases KEY_COUNT - i,
        {
            let e = key_entry_at(i);
            if (e.1).0 == self.0 {
                return e.0;
            }
            i = i + 1;
        }
        "?"
    }
}

/// All entries of the key table, in order.
pub fn key_names() -> (v: Vec<(&'static str, VirtualKey)>)
    ensures
        v@.len() == KEY_COUNT,
        forall|i: int|
            0 <= i < KEY_COUNT ==> (#[trigger] v@[i]).0@ == key_entry(i).0 && v@[i].1.0
                == key_entry(i).1,
{
    let mut v: Vec<(&'static str, VirtualKey)> = Vec::new();
    let mut i: usize = 0;
    while i < KEY_COUNT
        invariant
            i <= KEY_COUNT,
            v@.len() == i,
            forall|j: int|
                0 <= j < i ==> (#[trigger] v@[j]).0@ == key_entry(j).0 && v@[j].1.0 == key_entry(
                    j,
                ).1,
        decreases KEY_COUNT - i,
    {
        let e = key_entry_at(i);
        v.push(e);
        i = i + 1;
    }
    v
}

/// Every code in the key table leads back to its own entry.
pub proof fn lemma_key_index_inverts_table(i: int)
    requires
        0 <= i < KEY_COUNT,
    ensures
        key_index(key_entry(i).1) == i,
{
}

/// No two entries of the key table share a code.
pub proof fn lemma_key_codes_distinct(i: int, j: int)
    requires
        0 <= i < KEY_COUNT,
        0 <= j < KEY_COUNT,
        i != j,
    ensures
        key_entry(i).1 != key_entry(j).1,
{
    lemma_key_index_inverts_table(i);
    lemma_key_index_inverts_table(j);
}

proof fn lemma_key_name_from(i: int, j: int)
    requires
        0 <= j <= i < KEY_COUNT,
    ensures
        key_name_from(key_entry(i).1, j) == key_entry(i).0,
    decreases i - j,
{
    if j < i {
        lemma_key_codes_distinct(j, i);
        lemma_key_name_from(i, j + 1);
    }
}

/// The name of every key in the table is the name the table gives it.
pub proof fn lemma_table_key_name(i: int)
    requires
        0 <= i < KEY_COUNT,
    ensures
        key_name(key_entry(i).1) == key_entry(i).0,
{
    lemma_key_name_from(i, 0);
}

/// A code that the table holds leads to an entry with that code.
pub proof fn lemma_key_index_finds_code(code: u16)
    requires
        key_index(code) >= 0,
    ensures
        0 <= key_index(code) < KEY_COUNT,
        key_entry(key_index(code)).1 == code,
{
}

/// Every key in the table has a macOS key code.
pub proof fn lemma_macos_covers_key_table(i: int)
    requires
        0 <= i < KEY_COUNT,
    ensures
        macos_key_code_of(key_entry(i).1) is Some,
{
}

/// The Windows virtual-key code that a macOS key code stands for, where the
/// key table has one.
pub open spec fn vk_of_macos_code(k: u16) -> Option<u16> {
    if k == 0x00 {
        Some(0x41)
    } else if k == 0x0B {
        Some(0x42)
    } else if k == 0x08 {
        Some(0x43)
    } else if k == 0x02 {
        Some(0x44)
    } else if k == 0x0E {
        Some(0x45)
    } else if k == 0x03 {
        Some(0x46)
    } else if k == 0x05 {
        Some(0x47)
    } else if k == 0x04 {
        Some(0x48)
    } else if k == 0x22 {
        Some(0x49)
    } else if k == 0x26 {
        Some(0x4A)
    } else if k == 0x28 {
        Some(0x4B)
    } else if k == 0x25 {
        Some(0x4C)
    } else if k == 0x2E {
        Some(0x4D)
    } else if k == 0x2D {
        Some(0x4E)
    } else if k == 0x1F {
        Some(0x4F)
    } else if k == 0x23 {
        Some(0x50)
    } else if k == 0x0C {
        Some(0x51)
    } else if k == 0x0F {
        Some(0x52)
    } else if k == 0x01 {
        Some(0x53)
    } else if k == 0x11 {
        Some(0x54)
    } else if k == 0x20 {
        Some(0x55)
    } else if k == 0x09 {
        Some(0x56)
    } else if k == 0x0D {
        Some(0x57)
    } else if k == 0x07 {
        Some(0x58)
    } else if k == 0x10 {
        Some(0x59)
    } else if k == 0x06 {
        Some(0x5A)
    } else if k == 0x1D {
        Some(0x30)
    } else if k == 0x12 {
        Some(0x31)
    } else if k == 0x13 {
        Some(0x32)
    } else if k == 0x14 {
        Some(0x33)
    } else if k == 0x15 {
        Some(0x34)
    } else if k == 0x17 {
        Some(0x35)
    } else if k == 0x16 {
        Some(0x36)
    } else if k == 0x1A {
        Some(0x37)
    } else if k == 0x1C {
        Some(0x38)
    } else if k == 0x19 {
        Some(0x39)
    } else if k == 0x7A {
        Some(0x70)
    } else if k == 0x78 {
        Some(0x71)
    } else if k == 0x63 {
        Some(0x72)
    } else if k == 0x76 {
        Some(0x73)
    } else if k == 0x60 {
        Some(0x74)
    } else if k == 0x61 {
        Some(0x75)
    } else if k == 0x62 {
        Some(0x76)
    } else if k == 0x64 {
        Some(0x77)
    } else if k == 0x65 {
        Some(0x78)
    } else if k == 0x6D {
        Some(0x79)
    } else if k == 0x67 {
        Some(0x7A)
    } else if k == 0x6F {
        Some(0x7B)
    } else if k == 0x31 {
        Some(0x20)
    } else if k == 0x24 {
        Some(0x0D)
    } else if k == 0x30 {
        Some(0x09)
    } else if k == 0x35 {
        Some(0x1B)
    } else if k == 0x33 {
        Some(0x08)
    } else if k == 0x75 {
        Some(0x2E)
    } else if k == 0x72 {
        Some(0x2D)
    } else if k == 0x73 {
        Some(0x24)
    } else if k == 0x77 {
        Some(0x23)
    } else if k == 0x74 {
        Some(0x21)
    } else if k == 0x79 {
        Some(0x22)
    } else if k == 0x7E {
        Some(0x26)
    } else if k == 0x7D {
        Some(0x28)
    } else if k == 0x7B {
        Some(0x25)
    } else if k == 0x7C {
        Some(0x27)
    } else {
        None
    }
}

/// A key has a macOS key code exactly when it is in the key table.
pub proof fn lemma_macos_code_exactly_for_table(code: u16)
    ensures
        macos_key_code_of(code) is Some <==> key_index(code) >= 0,
{
}

/// The macOS key code of a key leads back to that key.
pub proof fn lemma_macos_code_inverts(code: u16)
    requires
        macos_key_code_of(code) is Some,
    ensures
        vk_of_macos_code(macos_key_code_of(code).unwrap()) == Some(code),
{
}

/// No two keys share a macOS key code.
pub proof fn lemma_macos_codes_distinct(a: u16, b: u16)
    requires
        macos_key_code_of(a) is Some,
        macos_key_code_of(a) == macos_key_code_of(b),
    ensures
        a == b,
{
    lemma_macos_code_inverts(a);
    lemma_macos_code_inverts(b);
}

/// The character that Windows receives with the key `code`, as a code point:
/// space, carriage return, tab, a digit, or a small letter.
pub open spec fn key_char(code: u16) -> Option<u32> {
    if code == 0x20 {
        Some(0x20)
    } else if code == 0x0D {
        Some(0x0D)
    } else if code == 0x09 {
        Some(0x09)
    } else if 0x30 <= code <= 0x39 {
        Some(code as u32)
    } else if 0x41 <= code <= 0x5A {
        Some((code + 0x20) as u32)
    } else {
        None
    }
}

/// Each digit key types its own digit.
pub proof fn lemma_digit_keys_type_their_digit(c: char)
    requires
        '0' <= c <= '9',
    ensures
        key_char(c as u16) == Some(c as u32),
{
}

/// A key of the table that is named by one character types that character,
/// a letter in its small form; Space, Enter and Tab type a space, a carriage
/// return and a tab.
pub proof fn lemma_table_keys_type_their_names(i: int)
    requires
        0 <= i < KEY_COUNT,
    ensures
        key_entry(i).0.len() == 1 ==> key_char(key_entry(i).1) == Some(
            text::ascii_lower_char(key_entry(i).0[0]) as u32,
        ),
        key_entry(i).0 == "SPACE"@ ==> key_char(key_entry(i).1) == Some(' ' as u32),
        key_entry(i).0 == "ENTER"@ ==> key_char(key_entry(i).1) == Some('\r' as u32),
        key_entry(i).0 == "TAB"@ ==> key_char(key_entry(i).1) == Some('\t' as u32),
{
    reveal_strlit("SPACE");
    reveal_strlit("ENTER");
    reveal_strlit("TAB");
    assert("SPACE"@.len() == 5 && "SPACE"@[0] == 'S');
    assert("ENTER"@.len() == 5 && "ENTER"@[0] == 'E');
    assert("TAB"@.len() == 3 && "TAB"@[0] == 'T');
    if i == 0 {
        reveal_strlit("A");
        assert(key_entry(i).0.len() == 1);
    } else if i == 1 {
        reveal_strlit("B");
        assert(key_entry(i).0.len() == 1);
    } else if i == 2 {
        reveal_strlit("C");
        assert(key_entry(i).0.len() == 1);
    } else if i == 3 {
        reveal_strlit("D");
        assert(key_entry(i).0.len() == 1);
    } else if i == 4 {
        reveal_strlit("E");
        assert(key_entry(i).0.len() == 1);
    } else if i == 5 {
        reveal_strlit("F");
        assert(key_entry(i).0.len() == 1);
    } else if i == 6 {
        reveal_strlit("G");
        assert(key_entry(i).0.len() == 1);
    } else if i == 7 {
        reveal_strlit("H");
        assert(key_entry(i).0.len() == 1);
    } else if i == 8 {
        reveal_strlit("I");
        assert(key_entry(i).0.len() == 1);
    } else if i == 9 {
        reveal_strlit("J");
        assert(key_entry(i).0.len() == 1);
    } else if i == 10 {
        reveal_strlit("K");
        assert(key_entry(i).0.len() == 1);
    } else if i == 11 {
        reveal_strlit("L");
        assert(key_entry(i).0.len() == 1);
    } else if i == 12 {
        reveal_strlit("M");
        assert(key_entry(i).0.len() == 1);
    } else if i == 13 {
        reveal_strlit("N");
        assert(key_entry(i).0.len() == 1);
    } else if i == 14 {
        reveal_strlit("O");
        assert(key_entry(i).0.len() == 1);
    } else if i == 15 {
        reveal_strlit("P");
        assert(key_entry(i).0.len() == 1);
    } else if i == 16 {
        reveal_strlit("Q");
        assert(key_entry(i).0.len() == 1);
    } else if i == 17 {
        reveal_strlit("R");
        assert(key_entry(i).0.len() == 1);
    } else if i == 18 {
        reveal_strlit("S");
        assert(key_entry(i).0.len() == 1);
    } else if i == 19 {
        reveal_strlit("T");
        assert(key_entry(i).0.len() == 1);
    } else if i == 20 {
        reveal_strlit("U");
        assert(key_entry(i).0.len() == 1);
    } else if i == 21 {
        reveal_strlit("V");
        assert(key_entry(i).0.len() == 1);
    } else if i == 22 {
        reveal_strlit("W");
        assert(key_entry(i).0.len() == 1);
    } else if i == 23 {
        reveal_strlit("X");
        assert(key_entry(i).0.len() == 1);
    } else if i == 24 {
        reveal_strlit("Y");
        assert(key_entry(i).0.len() == 1);
    } else if i == 25 {
        reveal_strlit("Z");
        assert(key_entry(i).0.len() == 1);
    } else if i == 26 {
        reveal_strlit("0");
        assert(key_entry(i).0.len() == 1);
    } else if i == 27 {
        reveal_strlit("1");
        assert(key_entry(i).0.len() == 1);
    } else if i == 28 {
        reveal_strlit("2");
        assert(key_entry(i).0.len() == 1);
    } else if i == 29 {
        reveal_strlit("3");
        assert(key_entry(i).0.len() == 1);
    } else if i == 30 {
        reveal_strlit("4");
        assert(key_entry(i).0.len() == 1);
    } else if i == 31 {
        reveal_strlit("5");
        assert(key_entry(i).0.len() == 1);
    } else if i == 32 {
        reveal_strlit("6");
        assert(key_entry(i).0.len() == 1);
    } else if i == 33 {
        reveal_strlit("7");
        assert(key_entry(i).0.len() == 1);
    } else if i == 34 {
        reveal_strlit("8");
        assert(key_entry(i).0.len() == 1);
    } else if i == 35 {
        reveal_strlit("9");
        assert(key_entry(i).0.len() == 1);
    } else if i == 36 {
        reveal_strlit("F1");
        assert(key_entry(i).0.len() == 2);
    } else if i == 37 {
        reveal_strlit("F2");
        assert(key_entry(i).0.len() == 2);
    } else if i == 38 {
        reveal_strlit("F3");
        assert(key_entry(i).0.len() == 2);
    } else if i == 39 {
        reveal_strlit("F4");
        assert(key_entry(i).0.len() == 2);
    } else if i == 40 {
        reveal_strlit("F5");
        assert(key_entry(i).0.len() == 2);
    } else if i == 41 {
        reveal_strlit("F6");
        assert(key_entry(i).0.len() == 2);
    } else if i == 42 {
        reveal_strlit("F7");
        assert(key_entry(i).0.len() == 2);
    } else if i == 43 {
        reveal_strlit("F8");
        assert(key_entry(i).0.len() == 2);
    } else if i == 44 {
        reveal_strlit("F9");
        assert(key_entry(i).0.len() == 2);
    } else if i == 45 {
        reveal_strlit("F10");
        assert(key_entry(i).0.len() == 3);
        assert(key_entry(i).0[0] == 'F');
    } else if i == 46 {
        reveal_strlit("F11");
        assert(key_entry(i).0.len() == 3);
        assert(key_entry(i).0[0] == 'F');
    } else if i == 47 {
        reveal_strlit("F12");
        assert(key_entry(i).0.len() == 3);
        assert(key_entry(i).0[0] == 'F');
    } else if i == 48 {
        assert(key_entry(i).0.len() == 5);
        assert(key_entry(i).0[0] == 'S');
    } else if i == 49 {
        assert(key_entry(i).0.len() == 5);
        assert(key_entry(i).0[0] == 'E');
    } else if i == 50 {
        assert(key_entry(i).0.len() == 3);
        assert(key_entry(i).0[0] == 'T');
    } else if i == 51 {
        reveal_strlit("ESC");
        assert(key_entry(i).0.len() == 3);
        assert(key_entry(i).0[0] == 'E');
    } else if i == 52 {
        reveal_strlit("BACKSPACE");
        assert(key_entry(i).0.len() == 9);
    } else if i == 53 {
        reveal_strlit("DELETE");
        assert(key_entry(i).0.len() == 6);
    } else if i == 54 {
        reveal_strlit("INSERT");
        assert(key_entry(i).0.len() == 6);
    } else if i == 55 {
        reveal_strlit("HOME");
        assert(key_entry(i).0.len() == 4);
    } else if i == 56 {
        reveal_strlit("END");
        assert(key_entry(i).0.len() == 3);
        assert(key_entry(i).0[0] == 'E');
    } else if i == 57 {
        reveal_strlit("PAGEUP");
        assert(key_entry(i).0.len() == 6);
    } else if i == 58 {
        reveal_strlit("PAGEDOWN");
        assert(key_entry(i).0.len() == 8);
    } else if i == 59 {
        reveal_strlit("UP");
        assert(key_entry(i).0.len() == 2);
    } else if i == 60 {
        reveal_strlit("DOWN");
        assert(key_entry(i).0.len() == 4);
    } else if i == 61 {
        reveal_strlit("LEFT");
        assert(key_entry(i).0.len() == 4);
    } else if i == 62 {
        reveal_strlit("RIGHT");
        assert(key_entry(i).0.len() == 5);
        assert(key_entry(i).0[0] == 'R');
    }
}

/// The character that Windows receives with the key `vk`, if any.
pub fn vk_to_char(vk: u16) -> (c: Option<u32>)
    ensures
        c == key_char(vk),
{
    if vk == 0x20 {
        Some(' ' as u32)
    } else if vk == 0x0D {
        Some('\r' as u32)
    } else if vk == 0x09 {
        Some('\t' as u32)
    } else if 0x30 <= vk && vk <= 0x39 {
        Some(vk as u32)
    } else if 0x41 <= vk && vk <= 0x5A {
        Some((vk - 0x41 + ('a' as u16)) as u32)
    } else {
        None
    }
}

/// The window message that announces a key going down.
pub const WM_KEYDOWN: u32 = 0x0100;

/// The window message that announces a key coming up.
pub const WM_KEYUP: u32 = 0x0101;

/// The window message that carries a typed character.
pub const WM_CHAR: u32 = 0x0102;

/// The `lparam` of a key-down or character message: a repeat count of one and
/// the low byte of the scan code in bits 16 to 23.
pub open spec fn key_down_lparam(scan_code: u32) -> u32 {
    (1 + (scan_code % 256) * 65536) as u32
}

/// The `lparam` of a key-up message: that of key-down, with the previous-state
/// and transition bits (30 and 31) set.
pub open spec fn key_up_lparam(scan_code: u32) -> u32 {
    (key_down_lparam(scan_code) + 0xC000_0000) as u32
}

pub fn make_lparam_down(scan_code: u32) -> (l: u32)
    ensures
        l == key_down_lparam(scan_code),
{
    let l = 1 | ((scan_code & 0xFF) << 16);
    assert(1 | ((scan_code & 0xFF) << 16) == 1 + (scan_code % 256) * 65536) by (bit_vector);
    l
}

pub fn make_lparam_up(scan_code: u32) -> (l: u32)
    ensures
        l == key_up_lparam(scan_code),
{
    let l = 1 | ((scan_code & 0xFF) << 16) | (1u32 << 30) | (1u32 << 31);
    assert(1 | ((scan_code & 0xFF) << 16) | (1u32 << 30) | (1u32 << 31) == 1 + (scan_code % 256)
        * 65536 + 0xC000_0000) by (bit_vector);
    l
}

/// One window message: its kind and its two parameters.
#[derive(Clone, Copy, Debug, PartialEq, Eq, Structural)]
pub struct KeyMessage {
    pub msg: u32,
    pub wparam: u32,
    pub lparam: u32,
}

/// The messages that deliver one press of `code` with scan code `scan_code`
/// to a window: key down, the character where the key types one, key up.
pub open spec fn key_press_messages(code: u16, scan_code: u32) -> Seq<KeyMessage> {
    let down = KeyMessage { msg: WM_KEYDOWN, wparam: code as u32, lparam: key_down_lparam(scan_code) };
    let up = KeyMessage { msg: WM_KEYUP, wparam: code as u32, lparam: key_up_lparam(scan_code) };
    match key_char(code) {
        Some(ch) => seq![
            down,
            KeyMessage { msg: WM_CHAR, wparam: ch, lparam: key_down_lparam(scan_code) },
            up,
        ],
        None => seq![down, up],
    }
}

/// The messages, in order, that deliver one press of `vk` to a window on
/// Windows, whichever send mode posts or sends them.
pub fn windows_key_messages(vk: VirtualKey, scan_code: u32) -> (m: Vec<KeyMessage>)
    ensures
        m@ == key_press_messages(vk.0, scan_code),
{
    let down = KeyMessage { msg: WM_KEYDOWN, wparam: vk.0 as u32, lparam: make_lparam_down(scan_code) };
    let up = KeyMessage { msg: WM_KEYUP, wparam: vk.0 as u32, lparam: make_lparam_up(scan_code) };
    let mut m: Vec<KeyMessage> = Vec::new();
    m.push(down);
    match vk_to_char(vk.0) {
        Some(ch) => {
            m.push(KeyMessage { msg: WM_CHAR, wparam: ch, lparam: make_lparam_down(scan_code) });
        },
        None => {},
    }
    m.push(up);
    assert(m@ =~= key_press_messages(vk.0, scan_code));
    m
}

/// The keyboard events, as (macOS key code, key down), that deliver one press
/// of `code` to the process `target_pid`.
pub open spec fn macos_key_press_events(target_pid: isize, code: u16) -> Seq<(u16, bool)> {
    if target_pid <= 0 {
        seq![]
    } else {
        match macos_key_code_of(code) {
            Some(k) => seq![(k, true), (k, false)],
            None => seq![],
        }
    }
}

/// The keyboard events, in order, that deliver one press of `vk` to the
/// process `target_pid` on macOS: none for a process id that is not positive or
/// a key without a macOS code, else key down then key up.
pub fn macos_key_events(target_pid: isize, vk: VirtualKey) -> (ev: Vec<(u16, bool)>)
    ensures
        ev@ == macos_key_press_events(target_pid, vk.0),
{
    let mut ev: Vec<(u16, bool)> = Vec::new();
    if target_pid <= 0 {
        assert(ev@ =~= macos_key_press_events(target_pid, vk.0));
        return ev;
    }
    match macos_key_code(vk) {
        Some(k) => {
            ev.push((k, true));
            ev.push((k, false));
        },
        None => {},
    }
    assert(ev@ =~= macos_key_press_events(target_pid, vk.0));
    ev
}

/// The address that opens the accessibility privacy settings on macOS.
pub const ACCESSIBILITY_SETTINGS_URL: &'static str =
    "x-apple.systempreferences:com.apple.preference.security?Privacy_Accessibility";

/// Whether this process may post keyboard events. Only macOS asks for a
/// permission; on the platforms this function stands for, none is needed.
pub fn accessibility_trusted() -> (b: bool)
    ensures
        b,
{
    true
}

/// Opens the accessibility settings where the platform has them. On the
/// platforms this function stands for there are none, and nothing is opened.
pub fn open_accessibility_settings() -> (opened: bool)
    ensures
        !opened,
{
    false
}

/// Delivers a key press on platforms that have no way to deliver one: nothing
/// happens.
pub fn send_key(_target: isize, _vk: VirtualKey, _mode: SendMode) {
}

} // verus!
