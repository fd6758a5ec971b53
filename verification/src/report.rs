//! Report helpers: the on-screen keyboard, friendly key names, and the
//! ordering of key usage.
use crate::model::{KeyCell, KeyboardLayout};
use crate::table::{entry_view, keys_sorted, CountTable};
use crate::text::{lemma_text_lt_irreflexive, lemma_text_lt_total, lemma_text_lt_transitive};
use crate::text::{text_eq, text_less, text_lt, text_starts_with};
use vstd::prelude::*;
use vstd::utf8::encode_utf8;

verus! {

/// The character view of a keyboard cell: its key id and caption.
pub open spec fn cell_view(c: KeyCell) -> (Seq<char>, Seq<char>) {
    (c.id@, c.label@)
}

/// The cells of the standard keyboard, row by row.
pub open spec fn standard_cells() -> Seq<(Seq<char>, Seq<char>)> {
    seq![
        ("Escape"@, "Esc"@),
        ("F1"@, "F1"@),
        ("F2"@, "F2"@),
        ("F3"@, "F3"@),
        ("F4"@, "F4"@),
        ("F5"@, "F5"@),
        ("F6"@, "F6"@),
        ("F7"@, "F7"@),
        ("F8"@, "F8"@),
        ("F9"@, "F9"@),
        ("F10"@, "F10"@),
        ("F11"@, "F11"@),
        ("F12"@, "F12"@),
        ("BackQuote"@, "`"@),
        ("Num1"@, "1"@),
        ("Num2"@, "2"@),
        ("Num3"@, "3"@),
        ("Num4"@, "4"@),
        ("Num5"@, "5"@),
        ("Num6"@, "6"@),
        ("Num7"@, "7"@),
        ("Num8"@, "8"@),
        ("Num9"@, "9"@),
        ("Num0"@, "0"@),
        ("Minus"@, "-"@),
        ("Equal"@, "="@),
        ("Backspace"@, "Backspace"@),
        ("Tab"@, "Tab"@),
        ("KeyQ"@, "Q"@),
        ("KeyW"@, "W"@),
        ("KeyE"@, "E"@),
        ("KeyR"@, "R"@),
        ("KeyT"@, "T"@),
        ("KeyY"@, "Y"@),
        ("KeyU"@, "U"@),
        ("KeyI"@, "I"@),
        ("KeyO"@, "O"@),
        ("KeyP"@, "P"@),
        ("LeftBracket"@, "["@),
        ("RightBracket"@, "]"@),
        ("BackSlash"@, "\\"@),
        ("CapsLock"@, "Caps"@),
        ("KeyA"@, "A"@),
        ("KeyS"@, "S"@),
        ("KeyD"@, "D"@),
        ("KeyF"@, "F"@),
        ("KeyG"@, "G"@),
        ("KeyH"@, "H"@),
        ("KeyJ"@, "J"@),
        ("KeyK"@, "K"@),
        ("KeyL"@, "L"@),
        ("SemiColon"@, ";"@),
        ("Quote"@, "'"@),
        ("Return"@, "Enter"@),
        ("ShiftLeft"@, "Shift"@),
        ("KeyZ"@, "Z"@),
        ("KeyX"@, "X"@),
        ("KeyC"@, "C"@),
        ("KeyV"@, "V"@),
        ("KeyB"@, "B"@),
        ("KeyN"@, "N"@),
        ("KeyM"@, "M"@),
        ("Comma"@, ","@),
        ("Dot"@, "."@),
        ("Slash"@, "/"@),
        ("ShiftRight"@, "Shift"@),
        ("ControlLeft"@, "Ctrl"@),
        ("MetaLeft"@, "Win"@),
        ("Alt"@, "Alt"@),
        ("Space"@, "Space"@),
        ("AltGr"@, "AltGr"@),
        ("MetaRight"@, "Win"@),
        ("Menu"@, "Menu"@),
        ("ControlRight"@, "Ctrl"@)
    ]
}

/// The cells drawn for a layout; both layouts draw the standard keyboard.
pub fn keyboard_layout(layout: KeyboardLayout) -> (r: Vec<KeyCell>)
    ensures
        r@.map_values(|c: KeyCell| cell_view(c)) == standard_cells(),
{
    match layout {
        KeyboardLayout::Ansi104 | KeyboardLayout::Iso105 => standard_layout(),
    }
}

fn standard_layout() -> (r: Vec<KeyCell>)
    ensures
        r@.map_values(|c: KeyCell| cell_view(c)) == standard_cells(),
{
    let mut keys: Vec<KeyCell> = Vec::new();
    keys.push(KeyCell { id: "Escape", label: "Esc" });
    keys.push(KeyCell { id: "F1", label: "F1" });
    keys.push(KeyCell { id: "F2", label: "F2" });
    keys.push(KeyCell { id: "F3", label: "F3" });
    keys.push(KeyCell { id: "F4", label: "F4" });
    keys.push(KeyCell { id: "F5", label: "F5" });
    keys.push(KeyCell { id: "F6", label: "F6" });
    keys.push(KeyCell { id: "F7", label: "F7" });
    keys.push(KeyCell { id: "F8", label: "F8" });
    keys.push(KeyCell { id: "F9", label: "F9" });
    keys.push(KeyCell { id: "F10", label: "F10" });
    keys.push(KeyCell { id: "F11", label: "F11" });
    keys.push(KeyCell { id: "F12", label: "F12" });
    keys.push(KeyCell { id: "BackQuote", label: "`" });
    keys.push(KeyCell { id: "Num1", label: "1" });
    keys.push(KeyCell { id: "Num2", label: "2" });
    keys.push(KeyCell { id: "Num3", label: "3" });
    keys.push(KeyCell { id: "Num4", label: "4" });
    keys.push(KeyCell { id: "Num5", label: "5" });
    keys.push(KeyCell { id: "Num6", label: "6" });
    keys.push(KeyCell { id: "Num7", label: "7" });
    keys.push(KeyCell { id: "Num8", label: "8" });
    keys.push(KeyCell { id: "Num9", label: "9" });
    keys.push(KeyCell { id: "Num0", label: "0" });
    keys.push(KeyCell { id: "Minus", label: "-" });
    keys.push(KeyCell { id: "Equal", label: "=" });
    keys.push(KeyCell { id: "Backspace", label: "Backspace" });
    keys.push(KeyCell { id: "Tab", label: "Tab" });
    keys.push(KeyCell { id: "KeyQ", label: "Q" });
    keys.push(KeyCell { id: "KeyW", label: "W" });
    keys.push(KeyCell { id: "KeyE", label: "E" });
    keys.push(KeyCell { id: "KeyR", label: "R" });
    keys.push(KeyCell { id: "KeyT", label: "T" });
    keys.push(KeyCell { id: "KeyY", label: "Y" });
    keys.push(KeyCell { id: "KeyU", label: "U" });
    keys.push(KeyCell { id: "KeyI", label: "I" });
    keys.push(KeyCell { id: "KeyO", label: "O" });
    keys.push(KeyCell { id: "KeyP", label: "P" });
    keys.push(KeyCell { id: "LeftBracket", label: "[" });
    keys.push(KeyCell { id: "RightBracket", label: "]" });
    keys.push(KeyCell { id: "BackSlash", label: "\\" });
    keys.push(KeyCell { id: "CapsLock", label: "Caps" });
    keys.push(KeyCell { id: "KeyA", label: "A" });
    keys.push(KeyCell { id: "KeyS", label: "S" });
    keys.push(KeyCell { id: "KeyD", label: "D" });
    keys.push(KeyCell { id: "KeyF", label: "F" });
    keys.push(KeyCell { id: "KeyG", label: "G" });
    keys.push(KeyCell { id: "KeyH", label: "H" });
    keys.push(KeyCell { id: "KeyJ", label: "J" });
    keys.push(KeyCell { id: "KeyK", label: "K" });
    keys.push(KeyCell { id: "KeyL", label: "L" });
    keys.push(KeyCell { id: "SemiColon", label: ";" });
    keys.push(KeyCell { id: "Quote", label: "'" });
    keys.push(KeyCell { id: "Return", label: "Enter" });
    keys.push(KeyCell { id: "ShiftLeft", label: "Shift" });
    keys.push(KeyCell { id: "KeyZ", label: "Z" });
    keys.push(KeyCell { id: "KeyX", label: "X" });
    keys.push(KeyCell { id: "KeyC", label: "C" });
    keys.push(KeyCell { id: "KeyV", label: "V" });
    keys.push(KeyCell { id: "KeyB", label: "B" });
    keys.push(KeyCell { id: "KeyN", label: "N" });
    keys.push(KeyCell { id: "KeyM", label: "M" });
    keys.push(KeyCell { id: "Comma", label: "," });
    keys.push(KeyCell { id: "Dot", label: "." });
    keys.push(KeyCell { id: "Slash", label: "/" });
    keys.push(KeyCell { id: "ShiftRight", label: "Shift" });
    keys.push(KeyCell { id: "ControlLeft", label: "Ctrl" });
    keys.push(KeyCell { id: "MetaLeft", label: "Win" });
    keys.push(KeyCell { id: "Alt", label: "Alt" });
    keys.push(KeyCell { id: "Space", label: "Space" });
    keys.push(KeyCell { id: "AltGr", label: "AltGr" });
    keys.push(KeyCell { id: "MetaRight", label: "Win" });
    keys.push(KeyCell { id: "Menu", label: "Menu" });
    keys.push(KeyCell { id: "ControlRight", label: "Ctrl" });
    assert(keys@.map_values(|c: KeyCell| cell_view(c)) =~= standard_cells());
    keys
}

/// A number that tells the standard keyboard's key ids apart, made of an
/// id's length and its last two characters.
spec fn id_code(id: Seq<char>) -> int {
    id.len() * 0x1_0000 + (id[id.len() - 2] as int) * 0x100 + (id[id.len() - 1] as int)
}

/// Where a key id sits on the standard keyboard, told by its code: the
/// index of the cell with that code, or the number of cells when none has it.
spec fn key_position(id: Seq<char>) -> int {
    let c = id_code(id);
    if c == 0x67065 {
        0
    } else if c == 0x24631 {
        1
    } else if c == 0x24632 {
        2
    } else if c == 0x24633 {
        3
    } else if c == 0x24634 {
        4
    } else if c == 0x24635 {
        5
    } else if c == 0x24636 {
        6
    } else if c == 0x24637 {
        7
    } else if c == 0x24638 {
        8
    } else if c == 0x24639 {
        9
    } else if c == 0x33130 {
        10
    } else if c == 0x33131 {
        11
    } else if c == 0x33132 {
        12
    } else if c == 0x97465 {
        13
    } else if c == 0x46d31 {
        14
    } else if c == 0x46d32 {
        15
    } else if c == 0x46d33 {
        16
    } else if c == 0x46d34 {
        17
    } else if c == 0x46d35 {
        18
    } else if c == 0x46d36 {
        19
    } else if c == 0x46d37 {
        20
    } else if c == 0x46d38 {
        21
    } else if c == 0x46d39 {
        22
    } else if c == 0x46d30 {
        23
    } else if c == 0x57573 {
        24
    } else if c == 0x5616c {
        25
    } else if c == 0x96365 {
        26
    } else if c == 0x36162 {
        27
    } else if c == 0x47951 {
        28
    } else if c == 0x47957 {
        29
    } else if c == 0x47945 {
        30
    } else if c == 0x47952 {
        31
    } else if c == 0x47954 {
        32
    } else if c == 0x47959 {
        33
    } else if c == 0x47955 {
        34
    } else if c == 0x47949 {
        35
    } else if c == 0x4794f {
        36
    } else if c == 0x47950 {
        37
    } else if c == 0xb6574 {
        38
    } else if c == 0xc6574 {
        39
    } else if c == 0x97368 {
        40
    } else if c == 0x8636b {
        41
    } else if c == 0x47941 {
        42
    } else if c == 0x47953 {
        43
    } else if c == 0x47944 {
        44
    } else if c == 0x47946 {
        45
    } else if c == 0x47947 {
        46
    } else if c == 0x47948 {
        47
    } else if c == 0x4794a {
        48
    } else if c == 0x4794b {
        49
    } else if c == 0x4794c {
        50
    } else if c == 0x96f6e {
        51
    } else if c == 0x57465 {
        52
    } else if c == 0x6726e {
        53
    } else if c == 0x96674 {
        54
    } else if c == 0x4795a {
        55
    } else if c == 0x47958 {
        56
    } else if c == 0x47943 {
        57
    } else if c == 0x47956 {
        58
    } else if c == 0x47942 {
        59
    } else if c == 0x4794e {
        60
    } else if c == 0x4794d {
        61
    } else if c == 0x56d61 {
        62
    } else if c == 0x36f74 {
        63
    } else if c == 0x57368 {
        64
    } else if c == 0xa6874 {
        65
    } else if c == 0xb6674 {
        66
    } else if c == 0x86674 {
        67
    } else if c == 0x36c74 {
        68
    } else if c == 0x56365 {
        69
    } else if c == 0x54772 {
        70
    } else if c == 0x96874 {
        71
    } else if c == 0x46e75 {
        72
    } else if c == 0xc6874 {
        73
    } else {
        74
    }
}

/// Each cell's id sits at that cell's index.
proof fn lemma_key_positions()
    ensures
        forall|i: int|
            0 <= i < standard_cells().len() ==> #[trigger] key_position(standard_cells()[i].0) == i,
{
    reveal_strlit("Escape");
    reveal_strlit("F1");
    reveal_strlit("F2");
    reveal_strlit("F3");
    reveal_strlit("F4");
    reveal_strlit("F5");
    reveal_strlit("F6");
    reveal_strlit("F7");
    reveal_strlit("F8");
    reveal_strlit("F9");
    reveal_strlit("F10");
    reveal_strlit("F11");
    reveal_strlit("F12");
    reveal_strlit("BackQuote");
    reveal_strlit("Num1");
    reveal_strlit("Num2");
    reveal_strlit("Num3");
    reveal_strlit("Num4");
    reveal_strlit("Num5");
    reveal_strlit("Num6");
    reveal_strlit("Num7");
    reveal_strlit("Num8");
    reveal_strlit("Num9");
    reveal_strlit("Num0");
    reveal_strlit("Minus");
    reveal_strlit("Equal");
    reveal_strlit("Backspace");
    reveal_strlit("Tab");
    reveal_strlit("KeyQ");
    reveal_strlit("KeyW");
    reveal_strlit("KeyE");
    reveal_strlit("KeyR");
    reveal_strlit("KeyT");
    reveal_strlit("KeyY");
    reveal_strlit("KeyU");
    reveal_strlit("KeyI");
    reveal_strlit("KeyO");
    reveal_strlit("KeyP");
    reveal_strlit("LeftBracket");
    reveal_strlit("RightBracket");
    reveal_strlit("BackSlash");
    reveal_strlit("CapsLock");
    reveal_strlit("KeyA");
    reveal_strlit("KeyS");
    reveal_strlit("KeyD");
    reveal_strlit("KeyF");
    reveal_strlit("KeyG");
    reveal_strlit("KeyH");
    reveal_strlit("KeyJ");
    reveal_strlit("KeyK");
    reveal_strlit("KeyL");
    reveal_strlit("SemiColon");
    reveal_strlit("Quote");
    reveal_strlit("Return");
    reveal_strlit("ShiftLeft");
    reveal_strlit("KeyZ");
    reveal_strlit("KeyX");
    reveal_strlit("KeyC");
    reveal_strlit("KeyV");
    reveal_strlit("KeyB");
    reveal_strlit("KeyN");
    reveal_strlit("KeyM");
    reveal_strlit("Comma");
    reveal_strlit("Dot");
    reveal_strlit("Slash");
    reveal_strlit("ShiftRight");
    reveal_strlit("ControlLeft");
    reveal_strlit("MetaLeft");
    reveal_strlit("Alt");
    reveal_strlit("Space");
    reveal_strlit("AltGr");
    reveal_strlit("MetaRight");
    reveal_strlit("Menu");
    reveal_strlit("ControlRight");
}

/// The standard keyboard names each key once, gives every key a caption, and
/// captions each letter and digit key (`Key?` and `Num?`, four bytes long)
/// with its friendly name.
pub proof fn lemma_standard_cells_consistent()
    ensures
        forall|i: int, j: int|
            0 <= i < j < standard_cells().len() ==> #[trigger] standard_cells()[i].0
                != #[trigger] standard_cells()[j].0,
        forall|i: int| 0 <= i < standard_cells().len() ==> (#[trigger] standard_cells()[i]).1.len() > 0,
        forall|i: int|
            0 <= i < standard_cells().len() && byte_len((#[trigger] standard_cells()[i]).0) == 4 && (
            starts_with(standard_cells()[i].0, "Key"@) || starts_with(standard_cells()[i].0, "Num"@))
                ==> standard_cells()[i].1 == pretty_name(standard_cells()[i].0),
{
    lemma_key_positions();
    assert forall|i: int, j: int| 0 <= i < j < standard_cells().len() implies standard_cells()[i].0
        != standard_cells()[j].0 by {
        assert(key_position(standard_cells()[i].0) == i);
        assert(key_position(standard_cells()[j].0) == j);
    }
    reveal_strlit("Escape");
    reveal_strlit("F1");
    reveal_strlit("F2");
    reveal_strlit("F3");
    reveal_strlit("F4");
    reveal_strlit("F5");
    reveal_strlit("F6");
    reveal_strlit("F7");
    reveal_strlit("F8");
    reveal_strlit("F9");
    reveal_strlit("F10");
    reveal_strlit("F11");
    reveal_strlit("F12");
    reveal_strlit("BackQuote");
    reveal_strlit("Num1");
    reveal_strlit("Num2");
    reveal_strlit("Num3");
    reveal_strlit("Num4");
    reveal_strlit("Num5");
    reveal_strlit("Num6");
    reveal_strlit("Num7");
    reveal_strlit("Num8");
    reveal_strlit("Num9");
    reveal_strlit("Num0");
    reveal_strlit("Minus");
    reveal_strlit("Equal");
    reveal_strlit("Backspace");
    reveal_strlit("Tab");
    reveal_strlit("KeyQ");
    reveal_strlit("KeyW");
    reveal_strlit("KeyE");
    reveal_strlit("KeyR");
    reveal_strlit("KeyT");
    reveal_strlit("KeyY");
    reveal_strlit("KeyU");
    reveal_strlit("KeyI");
    reveal_strlit("KeyO");
    reveal_strlit("KeyP");
    reveal_strlit("LeftBracket");
    reveal_strlit("RightBracket");
    reveal_strlit("BackSlash");
    reveal_strlit("CapsLock");
    reveal_strlit("KeyA");
    reveal_strlit("KeyS");
    reveal_strlit("KeyD");
    reveal_strlit("KeyF");
    reveal_strlit("KeyG");
    reveal_strlit("KeyH");
    reveal_strlit("KeyJ");
    reveal_strlit("KeyK");
    reveal_strlit("KeyL");
    reveal_strlit("SemiColon");
    reveal_strlit("Quote");
    reveal_strlit("Return");
    reveal_strlit("ShiftLeft");
    reveal_strlit("KeyZ");
    reveal_strlit("KeyX");
    reveal_strlit("KeyC");
    reveal_strlit("KeyV");
    reveal_strlit("KeyB");
    reveal_strlit("KeyN");
    reveal_strlit("KeyM");
    reveal_strlit("Comma");
    reveal_strlit("Dot");
    reveal_strlit("Slash");
    reveal_strlit("ShiftRight");
    reveal_strlit("ControlLeft");
    reveal_strlit("MetaLeft");
    reveal_strlit("Alt");
    reveal_strlit("Space");
    reveal_strlit("AltGr");
    reveal_strlit("MetaRight");
    reveal_strlit("Menu");
    reveal_strlit("ControlRight");
    reveal_strlit("Esc");
    reveal_strlit("F1");
    reveal_strlit("F2");
    reveal_strlit("F3");
    reveal_strlit("F4");
    reveal_strlit("F5");
    reveal_strlit("F6");
    reveal_strlit("F7");
    reveal_strlit("F8");
    reveal_strlit("F9");
    reveal_strlit("F10");
    reveal_strlit("F11");
    reveal_strlit("F12");
    reveal_strlit("`");
    reveal_strlit("1");
    reveal_strlit("2");
    reveal_strlit("3");
    reveal_strlit("4");
    reveal_strlit("5");
    reveal_strlit("6");
    reveal_strlit("7");
    reveal_strlit("8");
    reveal_strlit("9");
    reveal_strlit("0");
    reveal_strlit("-");
    reveal_strlit("=");
    reveal_strlit("Backspace");
    reveal_strlit("Tab");
    reveal_strlit("Q");
    reveal_strlit("W");
    reveal_strlit("E");
    reveal_strlit("R");
    reveal_strlit("T");
    reveal_strlit("Y");
    reveal_strlit("U");
    reveal_strlit("I");
    reveal_strlit("O");
    reveal_strlit("P");
    reveal_strlit("[");
    reveal_strlit("]");
    reveal_strlit("\\");
    reveal_strlit("Caps");
    reveal_strlit("A");
    reveal_strlit("S");
    reveal_strlit("D");
    reveal_strlit("F");
    reveal_strlit("G");
    reveal_strlit("H");
    reveal_strlit("J");
    reveal_strlit("K");
    reveal_strlit("L");
    reveal_strlit(";");
    reveal_strlit("'");
    reveal_strlit("Enter");
    reveal_strlit("Shift");
    reveal_strlit("Z");
    reveal_strlit("X");
    reveal_strlit("C");
    reveal_strlit("V");
    reveal_strlit("B");
    reveal_strlit("N");
    reveal_strlit("M");
    reveal_strlit(",");
    reveal_strlit(".");
    reveal_strlit("/");
    reveal_strlit("Ctrl");
    reveal_strlit("Win");
    reveal_strlit("Alt");
    reveal_strlit("Space");
    reveal_strlit("AltGr");
    reveal_strlit("Menu");
    reveal_strlit("Key");
    reveal_strlit("Num");
    assert forall|i: int|
        0 <= i < standard_cells().len() && byte_len(standard_cells()[i].0) == 4 && (starts_with(
            standard_cells()[i].0,
            "Key"@,
        ) || starts_with(standard_cells()[i].0, "Num"@)) implies standard_cells()[i].1 == pretty_name(
        standard_cells()[i].0,
    ) by {
        let id = standard_cells()[i].0;
        assert(id.take(3)[0] == id[0]);
        assert(id.skip(3) =~= standard_cells()[i].1);
    }
}

/// The length in bytes that `str::len` reports for a text.
pub open spec fn byte_len(r: Seq<char>) -> usize {
    encode_utf8(r).len() as usize
}

/// Whether `s` begins with `p`.
pub open spec fn starts_with(s: Seq<char>, p: Seq<char>) -> bool {
    p.len() <= s.len() && s.take(p.len() as int) == p
}

/// The friendly name of a raw key identifier: named keys get their caption;
/// `Key?` and `Num?` (four bytes long) lose their prefix; anything else is
/// shown as it is.
pub open spec fn pretty_name(r: Seq<char>) -> Seq<char> {
    if r == "Return"@ {
        "Enter"@
    } else if r == "Space"@ {
        "Space"@
    } else if r == "Tab"@ {
        "Tab"@
    } else if r == "CapsLock"@ {
        "Caps Lock"@
    } else if r == "ShiftLeft"@ {
        "Left Shift"@
    } else if r == "ShiftRight"@ {
        "Right Shift"@
    } else if r == "ControlLeft"@ {
        "Left Ctrl"@
    } else if r == "ControlRight"@ {
        "Right Ctrl"@
    } else if r == "MetaLeft"@ {
        "Left Win"@
    } else if r == "MetaRight"@ {
        "Right Win"@
    } else if r == "Alt"@ {
        "Alt"@
    } else if r == "AltGr"@ {
        "AltGr"@
    } else if r == "BackQuote"@ {
        "`"@
    } else if r == "Minus"@ {
        "-"@
    } else if r == "Equal"@ {
        "="@
    } else if r == "LeftBracket"@ {
        "["@
    } else if r == "RightBracket"@ {
        "]"@
    } else if r == "BackSlash"@ {
        "\\"@
    } else if r == "SemiColon"@ {
        ";"@
    } else if r == "Quote"@ {
        "'"@
    } else if r == "Comma"@ {
        ","@
    } else if r == "Dot"@ {
        "."@
    } else if r == "Slash"@ {
        "/"@
    } else if starts_with(r, "Key"@) && byte_len(r) == 4 {
        r.skip(3)
    } else if starts_with(r, "Num"@) && byte_len(r) == 4 {
        r.skip(3)
    } else {
        r
    }
}

/// The text after the first three characters of `raw`.
fn tail_after_prefix(raw: &str) -> (r: String)
    requires
        raw@.len() >= 3,
    ensures
        r@ == raw@.skip(3),
{
    let n = raw.unicode_len();
    let t = raw.substring_char(3, n);
    assert(raw@.subrange(3, n as int) =~= raw@.skip(3));
    t.to_owned()
}

/// The friendly name shown for a raw key identifier.
pub fn pretty_key_name(raw: &str) -> (r: String)
    ensures
        r@ == pretty_name(raw@),
{
    if text_eq(raw, "Return") {
        "Enter".to_owned()
    } else if text_eq(raw, "Space") {
        "Space".to_owned()
    } else if text_eq(raw, "Tab") {
        "Tab".to_owned()
    } else if text_eq(raw, "CapsLock") {
        "Caps Lock".to_owned()
    } else if text_eq(raw, "ShiftLeft") {
        "Left Shift".to_owned()
    } else if text_eq(raw, "ShiftRight") {
        "Right Shift".to_owned()
    } else if text_eq(raw, "ControlLeft") {
        "Left Ctrl".to_owned()
    } else if text_eq(raw, "ControlRight") {
        "Right Ctrl".to_owned()
    } else if text_eq(raw, "MetaLeft") {
        "Left Win".to_owned()
    } else if text_eq(raw, "MetaRight") {
        "Right Win".to_owned()
    } else if text_eq(raw, "Alt") {
        "Alt".to_owned()
    } else if text_eq(raw, "AltGr") {
        "AltGr".to_owned()
    } else if text_eq(raw, "BackQuote") {
        "`".to_owned()
    } else if text_eq(raw, "Minus") {
        "-".to_owned()
    } else if text_eq(raw, "Equal") {
        "=".to_owned()
    } else if text_eq(raw, "LeftBracket") {
        "[".to_owned()
    } else if text_eq(raw, "RightBracket") {
        "]".to_owned()
    } else if text_eq(raw, "BackSlash") {
        "\\".to_owned()
    } else if text_eq(raw, "SemiColon") {
        ";".to_owned()
    } else if text_eq(raw, "Quote") {
        "'".to_owned()
    } else if text_eq(raw, "Comma") {
        ",".to_owned()
    } else if text_eq(raw, "Dot") {
        ".".to_owned()
    } else if text_eq(raw, "Slash") {
        "/".to_owned()
    } else if text_starts_with(raw, "Key") && raw.len() == 4 {
        proof {
            reveal_strlit("Key");
        }
        tail_after_prefix(raw)
    } else if text_starts_with(raw, "Num") && raw.len() == 4 {
        proof {
            reveal_strlit("Num");
        }
        tail_after_prefix(raw)
    } else {
        raw.to_owned()
    }
}

/// Key-usage order: higher count first, then key order.
pub open spec fn usage_before(a: (Seq<char>, u64), b: (Seq<char>, u64)) -> bool {
    a.1 > b.1 || (a.1 == b.1 && text_lt(a.0, b.0))
}

proof fn lemma_usage_before_order(a: (Seq<char>, u64), b: (Seq<char>, u64), c: (Seq<char>, u64))
    ensures
        !usage_before(a, a),
        usage_before(a, b) && usage_before(b, c) ==> usage_before(a, c),
        a.0 != b.0 ==> usage_before(a, b) || usage_before(b, a),
{
    lemma_text_lt_irreflexive(a.0);
    lemma_text_lt_total(a.0, b.0);
    if usage_before(a, b) && usage_before(b, c) && a.1 == b.1 && b.1 == c.1 {
        lemma_text_lt_transitive(a.0, b.0, c.0);
    }
}

/// The key-usage list of a table: every entry once, highest count first,
/// ties in key order.
pub fn sorted_key_usage(counts: &CountTable) -> (r: Vec<(String, u64)>)
    requires
        counts.wf(),
    ensures
        r@.len() == counts.entries().len(),
        forall|i: int, j: int|
            0 <= i < j < r@.len() ==> usage_before(
                entry_view(#[trigger] r@[i]),
                entry_view(#[trigger] r@[j]),
            ),
        forall|i: int| 0 <= i < r@.len() ==> counts.entries().contains(entry_view(#[trigger] r@[i])),
        forall|j: int|
            0 <= j < counts.entries().len() ==> r@.map_values(|e: (String, u64)| entry_view(e)).contains(
                #[trigger] counts.entries()[j],
            ),
{
    let ghost es = counts.entries();
    let n = counts.len();
    let mut items: Vec<(String, u64)> = Vec::new();
    let mut i: usize = 0;
    while i < n
        invariant
            n == es.len(),
            es == counts.entries(),
            keys_sorted(es),
            i <= n,
            items@.len() == i,
            forall|a: int, b: int|
                0 <= a < b < items@.len() ==> usage_before(
                    entry_view(#[trigger] items@[a]),
                    entry_view(#[trigger] items@[b]),
                ),
            forall|a: int|
                0 <= a < items@.len() ==> es.take(i as int).contains(entry_view(#[trigger] items@[a])),
            forall|j: int|
                0 <= j < i ==> items@.map_values(|e: (String, u64)| entry_view(e)).contains(#[trigger] es[j]),
        decreases n - i,
    {
        let key = counts.key_at(i);
        let count = counts.count_at(i);
        let ghost e = es[i as int];
        let m = items.len();
        let mut p: usize = 0;
        while p < m
            invariant
                m == items@.len(),
                p <= m,
                key@ == e.0,
                count == e.1,
                forall|q: int| 0 <= q < p ==> usage_before(entry_view(#[trigger] items@[q]), e),
            ensures
                p <= m,
                forall|q: int| 0 <= q < p ==> usage_before(entry_view(#[trigger] items@[q]), e),
                p < m ==> !usage_before(entry_view(items@[p as int]), e),
            decreases m - p,
        {
            let before = items[p].1 > count || (items[p].1 == count && text_less(items[p].0.as_str(), key.as_str()));
            if !before {
                break;
            }
            p = p + 1;
        }
        let ghost old_items = items@;
        proof {
            if p < m {
                let x = entry_view(old_items[p as int]);
                assert(es.take(i as int).contains(x));
                let k = choose|k: int| 0 <= k < es.take(i as int).len() && es.take(i as int)[k] == x;
                assert(es[k] == x);
                assert(text_lt(es[k].0, es[i as int].0));
                lemma_text_lt_irreflexive(x.0);
                lemma_usage_before_order(x, e, x);
            }
        }
        items.insert(p, (key.clone(), count));
        proof {
            assert(entry_view(items@[p as int]) == e);
            assert forall|a: int, b: int| 0 <= a < b < items@.len() implies usage_before(
                entry_view(#[trigger] items@[a]),
                entry_view(#[trigger] items@[b]),
            ) by {
                if b < p {
                    assert(items@[a] == old_items[a] && items@[b] == old_items[b]);
                } else if b == p {
                    assert(items@[a] == old_items[a]);
                } else if a < p {
                    assert(items@[a] == old_items[a] && items@[b] == old_items[b - 1]);
                    assert(usage_before(entry_view(old_items[p as int]), entry_view(old_items[b - 1])) || p == b - 1);
                    if p < b - 1 {
                        lemma_usage_before_order(e, entry_view(old_items[p as int]), entry_view(old_items[b - 1]));
                    }
                    lemma_usage_before_order(entry_view(old_items[a]), e, entry_view(old_items[b - 1]));
                } else if a == p {
                    assert(items@[b] == old_items[b - 1]);
                    if p < b - 1 {
                        lemma_usage_before_order(e, entry_view(old_items[p as int]), entry_view(old_items[b - 1]));
                    }
                } else {
                    assert(items@[a] == old_items[a - 1] && items@[b] == old_items[b - 1]);
                }
            }
            assert forall|a: int| 0 <= a < items@.len() implies es.take(i + 1).contains(entry_view(#[trigger] items@[a])) by {
                if a == p {
                    assert(es.take(i + 1)[i as int] == e);
                } else {
                    let x = entry_view(items@[a]);
                    let oa = if a < p { a } else { a - 1 };
                    assert(items@[a] == old_items[oa]);
                    assert(es.take(i as int).contains(x));
                    let k = choose|k: int| 0 <= k < es.take(i as int).len() && es.take(i as int)[k] == x;
                    assert(es.take(i + 1)[k] == x);
                }
            }
            let ghost nv = items@.map_values(|e: (String, u64)| entry_view(e));
            let ghost ov = old_items.map_values(|e: (String, u64)| entry_view(e));
            assert forall|j: int| 0 <= j < i + 1 implies nv.contains(#[trigger] es[j]) by {
                if j == i {
                    assert(nv[p as int] == e);
                } else {
                    assert(ov.contains(es[j]));
                    let k = choose|k: int| 0 <= k < ov.len() && ov[k] == es[j];
                    if k < p {
                        assert(nv[k] == es[j]);
                    } else {
                        assert(nv[k + 1] == es[j]);
                    }
                }
            }
        }
        i = i + 1;
    }
    proof {
        assert(es.take(n as int) =~= es);
    }
    items
}

/// The friendly names of the standard keyboard's keys, cell by cell.
spec fn friendly_cells() -> Seq<Seq<char>> {
    seq![
        "Escape"@,
        "F1"@,
        "F2"@,
        "F3"@,
        "F4"@,
        "F5"@,
        "F6"@,
        "F7"@,
        "F8"@,
        "F9"@,
        "F10"@,
        "F11"@,
        "F12"@,
        "`"@,
        "1"@,
        "2"@,
        "3"@,
        "4"@,
        "5"@,
        "6"@,
        "7"@,
        "8"@,
        "9"@,
        "0"@,
        "-"@,
        "="@,
        "Backspace"@,
        "Tab"@,
        "Q"@,
        "W"@,
        "E"@,
        "R"@,
        "T"@,
        "Y"@,
        "U"@,
        "I"@,
        "O"@,
        "P"@,
        "["@,
        "]"@,
        "\\"@,
        "Caps Lock"@,
        "A"@,
        "S"@,
        "D"@,
        "F"@,
        "G"@,
        "H"@,
        "J"@,
        "K"@,
        "L"@,
        ";"@,
        "'"@,
        "Enter"@,
        "Left Shift"@,
        "Z"@,
        "X"@,
        "C"@,
        "V"@,
        "B"@,
        "N"@,
        "M"@,
        ","@,
        "."@,
        "/"@,
        "Right Shift"@,
        "Left Ctrl"@,
        "Left Win"@,
        "Alt"@,
        "Space"@,
        "AltGr"@,
        "Right Win"@,
        "Menu"@,
        "Right Ctrl"@
    ]
}

/// A number that tells the friendly names of the standard keyboard apart,
/// made of a name's length and its first and last characters.
spec fn name_code(name: Seq<char>) -> int {
    name.len() * 0x1_0000 + (name[0] as int) * 0x100 + (name[name.len() - 1] as int)
}

/// Where a friendly name sits among the keyboard's cells, told by its code.
spec fn name_position(name: Seq<char>) -> int {
    let c = name_code(name);
    if c == 0x64565 {
        0
    } else if c == 0x24631 {
        1
    } else if c == 0x24632 {
        2
    } else if c == 0x24633 {
        3
    } else if c == 0x24634 {
        4
    } else if c == 0x24635 {
        5
    } else if c == 0x24636 {
        6
    } else if c == 0x24637 {
        7
    } else if c == 0x24638 {
        8
    } else if c == 0x24639 {
        9
    } else if c == 0x34630 {
        10
    } else if c == 0x34631 {
        11
    } else if c == 0x34632 {
        12
    } else if c == 0x16060 {
        13
    } else if c == 0x13131 {
        14
    } else if c == 0x13232 {
        15
    } else if c == 0x13333 {
        16
    } else if c == 0x13434 {
        17
    } else if c == 0x13535 {
        18
    } else if c == 0x13636 {
        19
    } else if c == 0x13737 {
        20
    } else if c == 0x13838 {
        21
    } else if c == 0x13939 {
        22
    } else if c == 0x13030 {
        23
    } else if c == 0x12d2d {
        24
    } else if c == 0x13d3d {
        25
    } else if c == 0x94265 {
        26
    } else if c == 0x35462 {
        27
    } else if c == 0x15151 {
        28
    } else if c == 0x15757 {
        29
    } else if c == 0x14545 {
        30
    } else if c == 0x15252 {
        31
    } else if c == 0x15454 {
        32
    } else if c == 0x15959 {
        33
    } else if c == 0x15555 {
        34
    } else if c == 0x14949 {
        35
    } else if c == 0x14f4f {
        36
    } else if c == 0x15050 {
        37
    } else if c == 0x15b5b {
        38
    } else if c == 0x15d5d {
        39
    } else if c == 0x15c5c {
        40
    } else if c == 0x9436b {
        41
    } else if c == 0x14141 {
        42
    } else if c == 0x15353 {
        43
    } else if c == 0x14444 {
        44
    } else if c == 0x14646 {
        45
    } else if c == 0x14747 {
        46
    } else if c == 0x14848 {
        47
    } else if c == 0x14a4a {
        48
    } else if c == 0x14b4b {
        49
    } else if c == 0x14c4c {
        50
    } else if c == 0x13b3b {
        51
    } else if c == 0x12727 {
        52
    } else if c == 0x54572 {
        53
    } else if c == 0xa4c74 {
        54
    } else if c == 0x15a5a {
        55
    } else if c == 0x15858 {
        56
    } else if c == 0x14343 {
        57
    } else if c == 0x15656 {
        58
    } else if c == 0x14242 {
        59
    } else if c == 0x14e4e {
        60
    } else if c == 0x14d4d {
        61
    } else if c == 0x12c2c {
        62
    } else if c == 0x12e2e {
        63
    } else if c == 0x12f2f {
        64
    } else if c == 0xb5274 {
        65
    } else if c == 0x94c6c {
        66
    } else if c == 0x84c6e {
        67
    } else if c == 0x34174 {
        68
    } else if c == 0x55365 {
        69
    } else if c == 0x54172 {
        70
    } else if c == 0x9526e {
        71
    } else if c == 0x44d75 {
        72
    } else if c == 0xa526c {
        73
    } else {
        74
    }
}

/// Each friendly name of the keyboard sits at its cell's index.
proof fn lemma_name_positions()
    ensures
        forall|i: int|
            0 <= i < friendly_cells().len() ==> #[trigger] name_position(friendly_cells()[i]) == i,
{
    reveal_strlit("Escape");
    reveal_strlit("F1");
    reveal_strlit("F2");
    reveal_strlit("F3");
    reveal_strlit("F4");
    reveal_strlit("F5");
    reveal_strlit("F6");
    reveal_strlit("F7");
    reveal_strlit("F8");
    reveal_strlit("F9");
    reveal_strlit("F10");
    reveal_strlit("F11");
    reveal_strlit("F12");
    reveal_strlit("BackQuote");
    reveal_strlit("Num1");
    reveal_strlit("Num2");
    reveal_strlit("Num3");
    reveal_strlit("Num4");
    reveal_strlit("Num5");
    reveal_strlit("Num6");
    reveal_strlit("Num7");
    reveal_strlit("Num8");
    reveal_strlit("Num9");
    reveal_strlit("Num0");
    reveal_strlit("Minus");
    reveal_strlit("Equal");
    reveal_strlit("Backspace");
    reveal_strlit("Tab");
    reveal_strlit("KeyQ");
    reveal_strlit("KeyW");
    reveal_strlit("KeyE");
    reveal_strlit("KeyR");
    reveal_strlit("KeyT");
    reveal_strlit("KeyY");
    reveal_strlit("KeyU");
    reveal_strlit("KeyI");
    reveal_strlit("KeyO");
    reveal_strlit("KeyP");
    reveal_strlit("LeftBracket");
    reveal_strlit("RightBracket");
    reveal_strlit("BackSlash");
    reveal_strlit("CapsLock");
    reveal_strlit("KeyA");
    reveal_strlit("KeyS");
    reveal_strlit("KeyD");
    reveal_strlit("KeyF");
    reveal_strlit("KeyG");
    reveal_strlit("KeyH");
    reveal_strlit("KeyJ");
    reveal_strlit("KeyK");
    reveal_strlit("KeyL");
    reveal_strlit("SemiColon");
    reveal_strlit("Quote");
    reveal_strlit("Return");
    reveal_strlit("ShiftLeft");
    reveal_strlit("KeyZ");
    reveal_strlit("KeyX");
    reveal_strlit("KeyC");
    reveal_strlit("KeyV");
    reveal_strlit("KeyB");
    reveal_strlit("KeyN");
    reveal_strlit("KeyM");
    reveal_strlit("Comma");
    reveal_strlit("Dot");
    reveal_strlit("Slash");
    reveal_strlit("ShiftRight");
    reveal_strlit("ControlLeft");
    reveal_strlit("MetaLeft");
    reveal_strlit("Alt");
    reveal_strlit("Space");
    reveal_strlit("AltGr");
    reveal_strlit("MetaRight");
    reveal_strlit("Menu");
    reveal_strlit("ControlRight");
    reveal_strlit("Esc");
    reveal_strlit("`");
    reveal_strlit("1");
    reveal_strlit("2");
    reveal_strlit("3");
    reveal_strlit("4");
    reveal_strlit("5");
    reveal_strlit("6");
    reveal_strlit("7");
    reveal_strlit("8");
    reveal_strlit("9");
    reveal_strlit("0");
    reveal_strlit("-");
    reveal_strlit("=");
    reveal_strlit("Q");
    reveal_strlit("W");
    reveal_strlit("E");
    reveal_strlit("R");
    reveal_strlit("T");
    reveal_strlit("Y");
    reveal_strlit("U");
    reveal_strlit("I");
    reveal_strlit("O");
    reveal_strlit("P");
    reveal_strlit("[");
    reveal_strlit("]");
    reveal_strlit("\\");
    reveal_strlit("Caps");
    reveal_strlit("A");
    reveal_strlit("S");
    reveal_strlit("D");
    reveal_strlit("F");
    reveal_strlit("G");
    reveal_strlit("H");
    reveal_strlit("J");
    reveal_strlit("K");
    reveal_strlit("L");
    reveal_strlit(";");
    reveal_strlit("'");
    reveal_strlit("Enter");
    reveal_strlit("Shift");
    reveal_strlit("Z");
    reveal_strlit("X");
    reveal_strlit("C");
    reveal_strlit("V");
    reveal_strlit("B");
    reveal_strlit("N");
    reveal_strlit("M");
    reveal_strlit(",");
    reveal_strlit(".");
    reveal_strlit("/");
    reveal_strlit("Ctrl");
    reveal_strlit("Win");
    reveal_strlit("Caps Lock");
    reveal_strlit("Left Shift");
    reveal_strlit("Right Shift");
    reveal_strlit("Left Ctrl");
    reveal_strlit("Left Win");
    reveal_strlit("Right Win");
    reveal_strlit("Right Ctrl");
    reveal_strlit("Key");
    reveal_strlit("Num");
    reveal_strlit("Left");
    reveal_strlit("Right");
    reveal_strlit("Left ");
    reveal_strlit("Right ");
}

/// Four characters below 128 take four bytes.
proof fn lemma_ascii_byte_len(s: Seq<char>)
    requires
        s.len() == 4,
        '\0' <= s[0] <= '\u{7f}',
        '\0' <= s[1] <= '\u{7f}',
        '\0' <= s[2] <= '\u{7f}',
        '\0' <= s[3] <= '\u{7f}',
    ensures
        byte_len(s) == 4,
{
    assert forall|i: int| 0 <= i < s.len() implies '\0' <= #[trigger] s[i] <= '\u{7f}' by {
        if i == 0 {
        } else if i == 1 {
        } else if i == 2 {
        } else {
        }
    }
    vstd::utf8::is_ascii_chars_encode_utf8(s);
}

/// The friendly name of each key of the standard keyboard.
proof fn lemma_friendly_cells()
    ensures
        friendly_cells().len() == standard_cells().len(),
        forall|i: int|
            0 <= i < standard_cells().len() ==> pretty_name(#[trigger] standard_cells()[i].0)
                == friendly_cells()[i],
{
    reveal_strlit("Escape");
    reveal_strlit("F1");
    reveal_strlit("F2");
    reveal_strlit("F3");
    reveal_strlit("F4");
    reveal_strlit("F5");
    reveal_strlit("F6");
    reveal_strlit("F7");
    reveal_strlit("F8");
    reveal_strlit("F9");
    reveal_strlit("F10");
    reveal_strlit("F11");
    reveal_strlit("F12");
    reveal_strlit("BackQuote");
    reveal_strlit("Num1");
    reveal_strlit("Num2");
    reveal_strlit("Num3");
    reveal_strlit("Num4");
    reveal_strlit("Num5");
    reveal_strlit("Num6");
    reveal_strlit("Num7");
    reveal_strlit("Num8");
    reveal_strlit("Num9");
    reveal_strlit("Num0");
    reveal_strlit("Minus");
    reveal_strlit("Equal");
    reveal_strlit("Backspace");
    reveal_strlit("Tab");
    reveal_strlit("KeyQ");
    reveal_strlit("KeyW");
    reveal_strlit("KeyE");
    reveal_strlit("KeyR");
    reveal_strlit("KeyT");
    reveal_strlit("KeyY");
    reveal_strlit("KeyU");
    reveal_strlit("KeyI");
    reveal_strlit("KeyO");
    reveal_strlit("KeyP");
    reveal_strlit("LeftBracket");
    reveal_strlit("RightBracket");
    reveal_strlit("BackSlash");
    reveal_strlit("CapsLock");
    reveal_strlit("KeyA");
    reveal_strlit("KeyS");
    reveal_strlit("KeyD");
    reveal_strlit("KeyF");
    reveal_strlit("KeyG");
    reveal_strlit("KeyH");
    reveal_strlit("KeyJ");
    reveal_strlit("KeyK");
    reveal_strlit("KeyL");
    reveal_strlit("SemiColon");
    reveal_strlit("Quote");
    reveal_strlit("Return");
    reveal_strlit("ShiftLeft");
    reveal_strlit("KeyZ");
    reveal_strlit("KeyX");
    reveal_strlit("KeyC");
    reveal_strlit("KeyV");
    reveal_strlit("KeyB");
    reveal_strlit("KeyN");
    reveal_strlit("KeyM");
    reveal_strlit("Comma");
    reveal_strlit("Dot");
    reveal_strlit("Slash");
    reveal_strlit("ShiftRight");
    reveal_strlit("ControlLeft");
    reveal_strlit("MetaLeft");
    reveal_strlit("Alt");
    reveal_strlit("Space");
    reveal_strlit("AltGr");
    reveal_strlit("MetaRight");
    reveal_strlit("Menu");
    reveal_strlit("ControlRight");
    reveal_strlit("Esc");
    reveal_strlit("`");
    reveal_strlit("1");
    reveal_strlit("2");
    reveal_strlit("3");
    reveal_strlit("4");
    reveal_strlit("5");
    reveal_strlit("6");
    reveal_strlit("7");
    reveal_strlit("8");
    reveal_strlit("9");
    reveal_strlit("0");
    reveal_strlit("-");
    reveal_strlit("=");
    reveal_strlit("Q");
    reveal_strlit("W");
    reveal_strlit("E");
    reveal_strlit("R");
    reveal_strlit("T");
    reveal_strlit("Y");
    reveal_strlit("U");
    reveal_strlit("I");
    reveal_strlit("O");
    reveal_strlit("P");
    reveal_strlit("[");
    reveal_strlit("]");
    reveal_strlit("\\");
    reveal_strlit("Caps");
    reveal_strlit("A");
    reveal_strlit("S");
    reveal_strlit("D");
    reveal_strlit("F");
    reveal_strlit("G");
    reveal_strlit("H");
    reveal_strlit("J");
    reveal_strlit("K");
    reveal_strlit("L");
    reveal_strlit(";");
    reveal_strlit("'");
    reveal_strlit("Enter");
    reveal_strlit("Shift");
    reveal_strlit("Z");
    reveal_strlit("X");
    reveal_strlit("C");
    reveal_strlit("V");
    reveal_strlit("B");
    reveal_strlit("N");
    reveal_strlit("M");
    reveal_strlit(",");
    reveal_strlit(".");
    reveal_strlit("/");
    reveal_strlit("Ctrl");
    reveal_strlit("Win");
    reveal_strlit("Caps Lock");
    reveal_strlit("Left Shift");
    reveal_strlit("Right Shift");
    reveal_strlit("Left Ctrl");
    reveal_strlit("Left Win");
    reveal_strlit("Right Win");
    reveal_strlit("Right Ctrl");
    reveal_strlit("Key");
    reveal_strlit("Num");
    reveal_strlit("Left");
    reveal_strlit("Right");
    reveal_strlit("Left ");
    reveal_strlit("Right ");
    assert(id_code("Return"@) == 0x6726e);
    assert(id_code("Space"@) == 0x56365);
    assert(id_code("Tab"@) == 0x36162);
    assert(id_code("CapsLock"@) == 0x8636b);
    assert(id_code("ShiftLeft"@) == 0x96674);
    assert(id_code("ShiftRight"@) == 0xa6874);
    assert(id_code("ControlLeft"@) == 0xb6674);
    assert(id_code("ControlRight"@) == 0xc6874);
    assert(id_code("MetaLeft"@) == 0x86674);
    assert(id_code("MetaRight"@) == 0x96874);
    assert(id_code("Alt"@) == 0x36c74);
    assert(id_code("AltGr"@) == 0x54772);
    assert(id_code("BackQuote"@) == 0x97465);
    assert(id_code("Minus"@) == 0x57573);
    assert(id_code("Equal"@) == 0x5616c);
    assert(id_code("LeftBracket"@) == 0xb6574);
    assert(id_code("RightBracket"@) == 0xc6574);
    assert(id_code("BackSlash"@) == 0x97368);
    assert(id_code("SemiColon"@) == 0x96f6e);
    assert(id_code("Quote"@) == 0x57465);
    assert(id_code("Comma"@) == 0x56d61);
    assert(id_code("Dot"@) == 0x36f74);
    assert(id_code("Slash"@) == 0x57368);
    assert forall|i: int| 0 <= i < standard_cells().len() implies pretty_name(standard_cells()[i].0)
        == friendly_cells()[i] by {
        if i == 0 {
            assert(standard_cells()[0].0 == "Escape"@);
            assert(id_code("Escape"@) == 0x67065);
            assert("Escape"@.take(3)[0] == "Escape"@[0]);
        } else if i == 1 {
            assert(standard_cells()[1].0 == "F1"@);
            assert(id_code("F1"@) == 0x24631);
        } else if i == 2 {
            assert(standard_cells()[2].0 == "F2"@);
            assert(id_code("F2"@) == 0x24632);
        } else if i == 3 {
            assert(standard_cells()[3].0 == "F3"@);
            assert(id_code("F3"@) == 0x24633);
        } else if i == 4 {
            assert(standard_cells()[4].0 == "F4"@);
            assert(id_code("F4"@) == 0x24634);
        } else if i == 5 {
            assert(standard_cells()[5].0 == "F5"@);
            assert(id_code("F5"@) == 0x24635);
        } else if i == 6 {
            assert(standard_cells()[6].0 == "F6"@);
            assert(id_code("F6"@) == 0x24636);
        } else if i == 7 {
            assert(standard_cells()[7].0 == "F7"@);
            assert(id_code("F7"@) == 0x24637);
        } else if i == 8 {
            assert(standard_cells()[8].0 == "F8"@);
            assert(id_code("F8"@) == 0x24638);
        } else if i == 9 {
            assert(standard_cells()[9].0 == "F9"@);
            assert(id_code("F9"@) == 0x24639);
        } else if i == 10 {
            assert(standard_cells()[10].0 == "F10"@);
            assert(id_code("F10"@) == 0x33130);
            assert("F10"@.take(3)[0] == "F10"@[0]);
        } else if i == 11 {
            assert(standard_cells()[11].0 == "F11"@);
            assert(id_code("F11"@) == 0x33131);
            assert("F11"@.take(3)[0] == "F11"@[0]);
        } else if i == 12 {
            assert(standard_cells()[12].0 == "F12"@);
            assert(id_code("F12"@) == 0x33132);
            assert("F12"@.take(3)[0] == "F12"@[0]);
        } else if i == 13 {
            assert(standard_cells()[13].0 == "BackQuote"@);
            assert(id_code("BackQuote"@) == 0x97465);
        } else if i == 14 {
            assert(standard_cells()[14].0 == "Num1"@);
            assert(id_code("Num1"@) == 0x46d31);
            assert("Num1"@.take(3)[0] == "Num1"@[0]);
            lemma_ascii_byte_len("Num1"@);
            assert("Num1"@.take(3) =~= "Num"@);
            assert("Num1"@.skip(3) =~= "1"@);
        } else if i == 15 {
            assert(standard_cells()[15].0 == "Num2"@);
            assert(id_code("Num2"@) == 0x46d32);
            assert("Num2"@.take(3)[0] == "Num2"@[0]);
            lemma_ascii_byte_len("Num2"@);
            assert("Num2"@.take(3) =~= "Num"@);
            assert("Num2"@.skip(3) =~= "2"@);
        } else if i == 16 {
            assert(standard_cells()[16].0 == "Num3"@);
            assert(id_code("Num3"@) == 0x46d33);
            assert("Num3"@.take(3)[0] == "Num3"@[0]);
            lemma_ascii_byte_len("Num3"@);
            assert("Num3"@.take(3) =~= "Num"@);
            assert("Num3"@.skip(3) =~= "3"@);
        } else if i == 17 {
            assert(standard_cells()[17].0 == "Num4"@);
            assert(id_code("Num4"@) == 0x46d34);
            assert("Num4"@.take(3)[0] == "Num4"@[0]);
            lemma_ascii_byte_len("Num4"@);
            assert("Num4"@.take(3) =~= "Num"@);
            assert("Num4"@.skip(3) =~= "4"@);
        } else if i == 18 {
            assert(standard_cells()[18].0 == "Num5"@);
            assert(id_code("Num5"@) == 0x46d35);
            assert("Num5"@.take(3)[0] == "Num5"@[0]);
            lemma_ascii_byte_len("Num5"@);
            assert("Num5"@.take(3) =~= "Num"@);
            assert("Num5"@.skip(3) =~= "5"@);
        } else if i == 19 {
            assert(standard_cells()[19].0 == "Num6"@);
            assert(id_code("Num6"@) == 0x46d36);
            assert("Num6"@.take(3)[0] == "Num6"@[0]);
            lemma_ascii_byte_len("Num6"@);
            assert("Num6"@.take(3) =~= "Num"@);
            assert("Num6"@.skip(3) =~= "6"@);
        } else if i == 20 {
            assert(standard_cells()[20].0 == "Num7"@);
            assert(id_code("Num7"@) == 0x46d37);
            assert("Num7"@.take(3)[0] == "Num7"@[0]);
            lemma_ascii_byte_len("Num7"@);
            assert("Num7"@.take(3) =~= "Num"@);
            assert("Num7"@.skip(3) =~= "7"@);
        } else if i == 21 {
            assert(standard_cells()[21].0 == "Num8"@);
            assert(id_code("Num8"@) == 0x46d38);
            assert("Num8"@.take(3)[0] == "Num8"@[0]);
            lemma_ascii_byte_len("Num8"@);
            assert("Num8"@.take(3) =~= "Num"@);
            assert("Num8"@.skip(3) =~= "8"@);
        } else if i == 22 {
            assert(standard_cells()[22].0 == "Num9"@);
            assert(id_code("Num9"@) == 0x46d39);
            assert("Num9"@.take(3)[0] == "Num9"@[0]);
            lemma_ascii_byte_len("Num9"@);
            assert("Num9"@.take(3) =~= "Num"@);
            assert("Num9"@.skip(3) =~= "9"@);
        } else if i == 23 {
            assert(standard_cells()[23].0 == "Num0"@);
            assert(id_code("Num0"@) == 0x46d30);
            assert("Num0"@.take(3)[0] == "Num0"@[0]);
            lemma_ascii_byte_len("Num0"@);
            assert("Num0"@.take(3) =~= "Num"@);
            assert("Num0"@.skip(3) =~= "0"@);
        } else if i == 24 {
            assert(standard_cells()[24].0 == "Minus"@);
            assert(id_code("Minus"@) == 0x57573);
        } else if i == 25 {
            assert(standard_cells()[25].0 == "Equal"@);
            assert(id_code("Equal"@) == 0x5616c);
        } else if i == 26 {
            assert(standard_cells()[26].0 == "Backspace"@);
            assert(id_code("Backspace"@) == 0x96365);
            assert("Backspace"@.take(3)[0] == "Backspace"@[0]);
        } else if i == 27 {
            assert(standard_cells()[27].0 == "Tab"@);
            assert(id_code("Tab"@) == 0x36162);
        } else if i == 28 {
            assert(standard_cells()[28].0 == "KeyQ"@);
            assert(id_code("KeyQ"@) == 0x47951);
            assert("KeyQ"@.take(3)[0] == "KeyQ"@[0]);
            lemma_ascii_byte_len("KeyQ"@);
            assert("KeyQ"@.take(3) =~= "Key"@);
            assert("KeyQ"@.skip(3) =~= "Q"@);
        } else if i == 29 {
            assert(standard_cells()[29].0 == "KeyW"@);
            assert(id_code("KeyW"@) == 0x47957);
            assert("KeyW"@.take(3)[0] == "KeyW"@[0]);
            lemma_ascii_byte_len("KeyW"@);
            assert("KeyW"@.take(3) =~= "Key"@);
            assert("KeyW"@.skip(3) =~= "W"@);
        } else if i == 30 {
            assert(standard_cells()[30].0 == "KeyE"@);
            assert(id_code("KeyE"@) == 0x47945);
            assert("KeyE"@.take(3)[0] == "KeyE"@[0]);
            lemma_ascii_byte_len("KeyE"@);
            assert("KeyE"@.take(3) =~= "Key"@);
            assert("KeyE"@.skip(3) =~= "E"@);
        } else if i == 31 {
            assert(standard_cells()[31].0 == "KeyR"@);
            assert(id_code("KeyR"@) == 0x47952);
            assert("KeyR"@.take(3)[0] == "KeyR"@[0]);
            lemma_ascii_byte_len("KeyR"@);
            assert("KeyR"@.take(3) =~= "Key"@);
            assert("KeyR"@.skip(3) =~= "R"@);
        } else if i == 32 {
            assert(standard_cells()[32].0 == "KeyT"@);
            assert(id_code("KeyT"@) == 0x47954);
            assert("KeyT"@.take(3)[0] == "KeyT"@[0]);
            lemma_ascii_byte_len("KeyT"@);
            assert("KeyT"@.take(3) =~= "Key"@);
            assert("KeyT"@.skip(3) =~= "T"@);
        } else if i == 33 {
            assert(standard_cells()[33].0 == "KeyY"@);
            assert(id_code("KeyY"@) == 0x47959);
            assert("KeyY"@.take(3)[0] == "KeyY"@[0]);
            lemma_ascii_byte_len("KeyY"@);
            assert("KeyY"@.take(3) =~= "Key"@);
            assert("KeyY"@.skip(3) =~= "Y"@);
        } else if i == 34 {
            assert(standard_cells()[34].0 == "KeyU"@);
            assert(id_code("KeyU"@) == 0x47955);
            assert("KeyU"@.take(3)[0] == "KeyU"@[0]);
            lemma_ascii_byte_len("KeyU"@);
            assert("KeyU"@.take(3) =~= "Key"@);
            assert("KeyU"@.skip(3) =~= "U"@);
        } else if i == 35 {
            assert(standard_cells()[35].0 == "KeyI"@);
            assert(id_code("KeyI"@) == 0x47949);
            assert("KeyI"@.take(3)[0] == "KeyI"@[0]);
            lemma_ascii_byte_len("KeyI"@);
            assert("KeyI"@.take(3) =~= "Key"@);
            assert("KeyI"@.skip(3) =~= "I"@);
        } else if i == 36 {
            assert(standard_cells()[36].0 == "KeyO"@);
            assert(id_code("KeyO"@) == 0x4794f);
            assert("KeyO"@.take(3)[0] == "KeyO"@[0]);
            lemma_ascii_byte_len("KeyO"@);
            assert("KeyO"@.take(3) =~= "Key"@);
            assert("KeyO"@.skip(3) =~= "O"@);
        } else if i == 37 {
            assert(standard_cells()[37].0 == "KeyP"@);
            assert(id_code("KeyP"@) == 0x47950);
            assert("KeyP"@.take(3)[0] == "KeyP"@[0]);
            lemma_ascii_byte_len("KeyP"@);
            assert("KeyP"@.take(3) =~= "Key"@);
            assert("KeyP"@.skip(3) =~= "P"@);
        } else if i == 38 {
            assert(standard_cells()[38].0 == "LeftBracket"@);
            assert(id_code("LeftBracket"@) == 0xb6574);
        } else if i == 39 {
            assert(standard_cells()[39].0 == "RightBracket"@);
            assert(id_code("RightBracket"@) == 0xc6574);
        } else if i == 40 {
            assert(standard_cells()[40].0 == "BackSlash"@);
            assert(id_code("BackSlash"@) == 0x97368);
        } else if i == 41 {
            assert(standard_cells()[41].0 == "CapsLock"@);
            assert(id_code("CapsLock"@) == 0x8636b);
        } else if i == 42 {
            assert(standard_cells()[42].0 == "KeyA"@);
            assert(id_code("KeyA"@) == 0x47941);
            assert("KeyA"@.take(3)[0] == "KeyA"@[0]);
            lemma_ascii_byte_len("KeyA"@);
            assert("KeyA"@.take(3) =~= "Key"@);
            assert("KeyA"@.skip(3) =~= "A"@);
        } else if i == 43 {
            assert(standard_cells()[43].0 == "KeyS"@);
            assert(id_code("KeyS"@) == 0x47953);
            assert("KeyS"@.take(3)[0] == "KeyS"@[0]);
            lemma_ascii_byte_len("KeyS"@);
            assert("KeyS"@.take(3) =~= "Key"@);
            assert("KeyS"@.skip(3) =~= "S"@);
        } else if i == 44 {
            assert(standard_cells()[44].0 == "KeyD"@);
            assert(id_code("KeyD"@) == 0x47944);
            assert("KeyD"@.take(3)[0] == "KeyD"@[0]);
            lemma_ascii_byte_len("KeyD"@);
            assert("KeyD"@.take(3) =~= "Key"@);
            assert("KeyD"@.skip(3) =~= "D"@);
        } else if i == 45 {
            assert(standard_cells()[45].0 == "KeyF"@);
            assert(id_code("KeyF"@) == 0x47946);
            assert("KeyF"@.take(3)[0] == "KeyF"@[0]);
            lemma_ascii_byte_len("KeyF"@);
            assert("KeyF"@.take(3) =~= "Key"@);
            assert("KeyF"@.skip(3) =~= "F"@);
        } else if i == 46 {
            assert(standard_cells()[46].0 == "KeyG"@);
            assert(id_code("KeyG"@) == 0x47947);
            assert("KeyG"@.take(3)[0] == "KeyG"@[0]);
            lemma_ascii_byte_len("KeyG"@);
            assert("KeyG"@.take(3) =~= "Key"@);
            assert("KeyG"@.skip(3) =~= "G"@);
        } else if i == 47 {
            assert(standard_cells()[47].0 == "KeyH"@);
            assert(id_code("KeyH"@) == 0x47948);
            assert("KeyH"@.take(3)[0] == "KeyH"@[0]);
            lemma_ascii_byte_len("KeyH"@);
            assert("KeyH"@.take(3) =~= "Key"@);
            assert("KeyH"@.skip(3) =~= "H"@);
        } else if i == 48 {
            assert(standard_cells()[48].0 == "KeyJ"@);
            assert(id_code("KeyJ"@) == 0x4794a);
            assert("KeyJ"@.take(3)[0] == "KeyJ"@[0]);
            lemma_ascii_byte_len("KeyJ"@);
            assert("KeyJ"@.take(3) =~= "Key"@);
            assert("KeyJ"@.skip(3) =~= "J"@);
        } else if i == 49 {
            assert(standard_cells()[49].0 == "KeyK"@);
            assert(id_code("KeyK"@) == 0x4794b);
            assert("KeyK"@.take(3)[0] == "KeyK"@[0]);
            lemma_ascii_byte_len("KeyK"@);
            assert("KeyK"@.take(3) =~= "Key"@);
            assert("KeyK"@.skip(3) =~= "K"@);
        } else if i == 50 {
            assert(standard_cells()[50].0 == "KeyL"@);
            assert(id_code("KeyL"@) == 0x4794c);
            assert("KeyL"@.take(3)[0] == "KeyL"@[0]);
            lemma_ascii_byte_len("KeyL"@);
            assert("KeyL"@.take(3) =~= "Key"@);
            assert("KeyL"@.skip(3) =~= "L"@);
        } else if i == 51 {
            assert(standard_cells()[51].0 == "SemiColon"@);
            assert(id_code("SemiColon"@) == 0x96f6e);
        } else if i == 52 {
            assert(standard_cells()[52].0 == "Quote"@);
            assert(id_code("Quote"@) == 0x57465);
        } else if i == 53 {
            assert(standard_cells()[53].0 == "Return"@);
            assert(id_code("Return"@) == 0x6726e);
        } else if i == 54 {
            assert(standard_cells()[54].0 == "ShiftLeft"@);
            assert(id_code("ShiftLeft"@) == 0x96674);
        } else if i == 55 {
            assert(standard_cells()[55].0 == "KeyZ"@);
            assert(id_code("KeyZ"@) == 0x4795a);
            assert("KeyZ"@.take(3)[0] == "KeyZ"@[0]);
            lemma_ascii_byte_len("KeyZ"@);
            assert("KeyZ"@.take(3) =~= "Key"@);
            assert("KeyZ"@.skip(3) =~= "Z"@);
        } else if i == 56 {
            assert(standard_cells()[56].0 == "KeyX"@);
            assert(id_code("KeyX"@) == 0x47958);
            assert("KeyX"@.take(3)[0] == "KeyX"@[0]);
            lemma_ascii_byte_len("KeyX"@);
            assert("KeyX"@.take(3) =~= "Key"@);
            assert("KeyX"@.skip(3) =~= "X"@);
        } else if i == 57 {
            assert(standard_cells()[57].0 == "KeyC"@);
            assert(id_code("KeyC"@) == 0x47943);
            assert("KeyC"@.take(3)[0] == "KeyC"@[0]);
            lemma_ascii_byte_len("KeyC"@);
            assert("KeyC"@.take(3) =~= "Key"@);
            assert("KeyC"@.skip(3) =~= "C"@);
        } else if i == 58 {
            assert(standard_cells()[58].0 == "KeyV"@);
            assert(id_code("KeyV"@) == 0x47956);
            assert("KeyV"@.take(3)[0] == "KeyV"@[0]);
            lemma_ascii_byte_len("KeyV"@);
            assert("KeyV"@.take(3) =~= "Key"@);
            assert("KeyV"@.skip(3) =~= "V"@);
        } else if i == 59 {
            assert(standard_cells()[59].0 == "KeyB"@);
            assert(id_code("KeyB"@) == 0x47942);
            assert("KeyB"@.take(3)[0] == "KeyB"@[0]);
            lemma_ascii_byte_len("KeyB"@);
            assert("KeyB"@.take(3) =~= "Key"@);
            assert("KeyB"@.skip(3) =~= "B"@);
        } else if i == 60 {
            assert(standard_cells()[60].0 == "KeyN"@);
            assert(id_code("KeyN"@) == 0x4794e);
            assert("KeyN"@.take(3)[0] == "KeyN"@[0]);
            lemma_ascii_byte_len("KeyN"@);
            assert("KeyN"@.take(3) =~= "Key"@);
            assert("KeyN"@.skip(3) =~= "N"@);
        } else if i == 61 {
            assert(standard_cells()[61].0 == "KeyM"@);
            assert(id_code("KeyM"@) == 0x4794d);
            assert("KeyM"@.take(3)[0] == "KeyM"@[0]);
            lemma_ascii_byte_len("KeyM"@);
            assert("KeyM"@.take(3) =~= "Key"@);
            assert("KeyM"@.skip(3) =~= "M"@);
        } else if i == 62 {
            assert(standard_cells()[62].0 == "Comma"@);
            assert(id_code("Comma"@) == 0x56d61);
        } else if i == 63 {
            assert(standard_cells()[63].0 == "Dot"@);
            assert(id_code("Dot"@) == 0x36f74);
        } else if i == 64 {
            assert(standard_cells()[64].0 == "Slash"@);
            assert(id_code("Slash"@) == 0x57368);
        } else if i == 65 {
            assert(standard_cells()[65].0 == "ShiftRight"@);
            assert(id_code("ShiftRight"@) == 0xa6874);
        } else if i == 66 {
            assert(standard_cells()[66].0 == "ControlLeft"@);
            assert(id_code("ControlLeft"@) == 0xb6674);
        } else if i == 67 {
            assert(standard_cells()[67].0 == "MetaLeft"@);
            assert(id_code("MetaLeft"@) == 0x86674);
        } else if i == 68 {
            assert(standard_cells()[68].0 == "Alt"@);
            assert(id_code("Alt"@) == 0x36c74);
        } else if i == 69 {
            assert(standard_cells()[69].0 == "Space"@);
            assert(id_code("Space"@) == 0x56365);
        } else if i == 70 {
            assert(standard_cells()[70].0 == "AltGr"@);
            assert(id_code("AltGr"@) == 0x54772);
        } else if i == 71 {
            assert(standard_cells()[71].0 == "MetaRight"@);
            assert(id_code("MetaRight"@) == 0x96874);
        } else if i == 72 {
            assert(standard_cells()[72].0 == "Menu"@);
            assert(id_code("Menu"@) == 0x46e75);
            assert("Menu"@.take(3)[0] == "Menu"@[0]);
        } else if i == 73 {
            assert(standard_cells()[73].0 == "ControlRight"@);
            assert(id_code("ControlRight"@) == 0xc6874);
        }
    }
}

/// Whether `s` ends with `p`.
pub open spec fn ends_with(s: Seq<char>, p: Seq<char>) -> bool {
    p.len() <= s.len() && s.skip(s.len() - p.len()) == p
}

/// The key-usage list tells the keys of the standard keyboard apart: no two
/// keys get the same friendly name; each friendly name shows the key's
/// caption, at its start or at its end; and a key whose id ends in `Left` or
/// `Right` is named with that side first.
pub proof fn lemma_friendly_names_tell_keys_apart()
    ensures
        forall|i: int, j: int|
            0 <= i < j < standard_cells().len() ==> pretty_name(#[trigger] standard_cells()[i].0)
                != pretty_name(#[trigger] standard_cells()[j].0),
        forall|i: int|
            0 <= i < standard_cells().len() ==> starts_with(
                pretty_name(#[trigger] standard_cells()[i].0),
                standard_cells()[i].1,
            ) || ends_with(pretty_name(standard_cells()[i].0), standard_cells()[i].1),
        forall|i: int|
            0 <= i < standard_cells().len() && ends_with(#[trigger] standard_cells()[i].0, "Left"@)
                ==> starts_with(pretty_name(standard_cells()[i].0), "Left "@),
        forall|i: int|
            0 <= i < standard_cells().len() && ends_with(#[trigger] standard_cells()[i].0, "Right"@)
                ==> starts_with(pretty_name(standard_cells()[i].0), "Right "@),
{
    lemma_friendly_cells();
    lemma_name_positions();
    assert forall|i: int, j: int| 0 <= i < j < standard_cells().len() implies pretty_name(
        standard_cells()[i].0,
    ) != pretty_name(standard_cells()[j].0) by {
        assert(name_position(friendly_cells()[i]) == i);
        assert(name_position(friendly_cells()[j]) == j);
    }
    reveal_strlit("Escape");
    reveal_strlit("F1");
    reveal_strlit("F2");
    reveal_strlit("F3");
    reveal_strlit("F4");
    reveal_strlit("F5");
    reveal_strlit("F6");
    reveal_strlit("F7");
    reveal_strlit("F8");
    reveal_strlit("F9");
    reveal_strlit("F10");
    reveal_strlit("F11");
    reveal_strlit("F12");
    reveal_strlit("BackQuote");
    reveal_strlit("Num1");
    reveal_strlit("Num2");
    reveal_strlit("Num3");
    reveal_strlit("Num4");
    reveal_strlit("Num5");
    reveal_strlit("Num6");
    reveal_strlit("Num7");
    reveal_strlit("Num8");
    reveal_strlit("Num9");
    reveal_strlit("Num0");
    reveal_strlit("Minus");
    reveal_strlit("Equal");
    reveal_strlit("Backspace");
    reveal_strlit("Tab");
    reveal_strlit("KeyQ");
    reveal_strlit("KeyW");
    reveal_strlit("KeyE");
    reveal_strlit("KeyR");
    reveal_strlit("KeyT");
    reveal_strlit("KeyY");
    reveal_strlit("KeyU");
    reveal_strlit("KeyI");
    reveal_strlit("KeyO");
    reveal_strlit("KeyP");
    reveal_strlit("LeftBracket");
    reveal_strlit("RightBracket");
    reveal_strlit("BackSlash");
    reveal_strlit("CapsLock");
    reveal_strlit("KeyA");
    reveal_strlit("KeyS");
    reveal_strlit("KeyD");
    reveal_strlit("KeyF");
    reveal_strlit("KeyG");
    reveal_strlit("KeyH");
    reveal_strlit("KeyJ");
    reveal_strlit("KeyK");
    reveal_strlit("KeyL");
    reveal_strlit("SemiColon");
    reveal_strlit("Quote");
    reveal_strlit("Return");
    reveal_strlit("ShiftLeft");
    reveal_strlit("KeyZ");
    reveal_strlit("KeyX");
    reveal_strlit("KeyC");
    reveal_strlit("KeyV");
    reveal_strlit("KeyB");
    reveal_strlit("KeyN");
    reveal_strlit("KeyM");
    reveal_strlit("Comma");
    reveal_strlit("Dot");
    reveal_strlit("Slash");
    reveal_strlit("ShiftRight");
    reveal_strlit("ControlLeft");
    reveal_strlit("MetaLeft");
    reveal_strlit("Alt");
    reveal_strlit("Space");
    reveal_strlit("AltGr");
    reveal_strlit("MetaRight");
    reveal_strlit("Menu");
    reveal_strlit("ControlRight");
    reveal_strlit("Esc");
    reveal_strlit("`");
    reveal_strlit("1");
    reveal_strlit("2");
    reveal_strlit("3");
    reveal_strlit("4");
    reveal_strlit("5");
    reveal_strlit("6");
    reveal_strlit("7");
    reveal_strlit("8");
    reveal_strlit("9");
    reveal_strlit("0");
    reveal_strlit("-");
    reveal_strlit("=");
    reveal_strlit("Q");
    reveal_strlit("W");
    reveal_strlit("E");
    reveal_strlit("R");
    reveal_strlit("T");
    reveal_strlit("Y");
    reveal_strlit("U");
    reveal_strlit("I");
    reveal_strlit("O");
    reveal_strlit("P");
    reveal_strlit("[");
    reveal_strlit("]");
    reveal_strlit("\\");
    reveal_strlit("Caps");
    reveal_strlit("A");
    reveal_strlit("S");
    reveal_strlit("D");
    reveal_strlit("F");
    reveal_strlit("G");
    reveal_strlit("H");
    reveal_strlit("J");
    reveal_strlit("K");
    reveal_strlit("L");
    reveal_strlit(";");
    reveal_strlit("'");
    reveal_strlit("Enter");
    reveal_strlit("Shift");
    reveal_strlit("Z");
    reveal_strlit("X");
    reveal_strlit("C");
    reveal_strlit("V");
    reveal_strlit("B");
    reveal_strlit("N");
    reveal_strlit("M");
    reveal_strlit(",");
    reveal_strlit(".");
    reveal_strlit("/");
    reveal_strlit("Ctrl");
    reveal_strlit("Win");
    reveal_strlit("Caps Lock");
    reveal_strlit("Left Shift");
    reveal_strlit("Right Shift");
    reveal_strlit("Left Ctrl");
    reveal_strlit("Left Win");
    reveal_strlit("Right Win");
    reveal_strlit("Right Ctrl");
    reveal_strlit("Key");
    reveal_strlit("Num");
    reveal_strlit("Left");
    reveal_strlit("Right");
    reveal_strlit("Left ");
    reveal_strlit("Right ");
    assert forall|i: int| 0 <= i < standard_cells().len() implies {
        &&& starts_with(pretty_name(standard_cells()[i].0), standard_cells()[i].1) || ends_with(
            pretty_name(standard_cells()[i].0),
            standard_cells()[i].1,
        )
        &&& ends_with(standard_cells()[i].0, "Left"@) ==> starts_with(
            pretty_name(standard_cells()[i].0),
            "Left "@,
        )
        &&& ends_with(standard_cells()[i].0, "Right"@) ==> starts_with(
            pretty_name(standard_cells()[i].0),
            "Right "@,
        )
    } by {
        if i == 0 {
            assert(standard_cells()[0] == ("Escape"@, "Esc"@));
            assert("Escape"@.take(3) =~= "Esc"@);
            assert("Escape"@.skip(2)[3] == "Escape"@[5]);
            assert("Escape"@.skip(1)[4] == "Escape"@[5]);
        } else if i == 1 {
            assert(standard_cells()[1] == ("F1"@, "F1"@));
            assert("F1"@.take(2) =~= "F1"@);
        } else if i == 2 {
            assert(standard_cells()[2] == ("F2"@, "F2"@));
            assert("F2"@.take(2) =~= "F2"@);
        } else if i == 3 {
            assert(standard_cells()[3] == ("F3"@, "F3"@));
            assert("F3"@.take(2) =~= "F3"@);
        } else if i == 4 {
            assert(standard_cells()[4] == ("F4"@, "F4"@));
            assert("F4"@.take(2) =~= "F4"@);
        } else if i == 5 {
            assert(standard_cells()[5] == ("F5"@, "F5"@));
            assert("F5"@.take(2) =~= "F5"@);
        } else if i == 6 {
            assert(standard_cells()[6] == ("F6"@, "F6"@));
            assert("F6"@.take(2) =~= "F6"@);
        } else if i == 7 {
            assert(standard_cells()[7] == ("F7"@, "F7"@));
            assert("F7"@.take(2) =~= "F7"@);
        } else if i == 8 {
            assert(standard_cells()[8] == ("F8"@, "F8"@));
            assert("F8"@.take(2) =~= "F8"@);
        } else if i == 9 {
            assert(standard_cells()[9] == ("F9"@, "F9"@));
            assert("F9"@.take(2) =~= "F9"@);
        } else if i == 10 {
            assert(standard_cells()[10] == ("F10"@, "F10"@));
            assert("F10"@.take(3) =~= "F10"@);
        } else if i == 11 {
            assert(standard_cells()[11] == ("F11"@, "F11"@));
            assert("F11"@.take(3) =~= "F11"@);
        } else if i == 12 {
            assert(standard_cells()[12] == ("F12"@, "F12"@));
            assert("F12"@.take(3) =~= "F12"@);
        } else if i == 13 {
            assert(standard_cells()[13] == ("BackQuote"@, "`"@));
            assert("`"@.take(1) =~= "`"@);
            assert("BackQuote"@.skip(5)[3] == "BackQuote"@[8]);
            assert("BackQuote"@.skip(4)[4] == "BackQuote"@[8]);
        } else if i == 14 {
            assert(standard_cells()[14] == ("Num1"@, "1"@));
            assert("1"@.take(1) =~= "1"@);
            assert("Num1"@.skip(0)[3] == "Num1"@[3]);
        } else if i == 15 {
            assert(standard_cells()[15] == ("Num2"@, "2"@));
            assert("2"@.take(1) =~= "2"@);
            assert("Num2"@.skip(0)[3] == "Num2"@[3]);
        } else if i == 16 {
            assert(standard_cells()[16] == ("Num3"@, "3"@));
            assert("3"@.take(1) =~= "3"@);
            assert("Num3"@.skip(0)[3] == "Num3"@[3]);
        } else if i == 17 {
            assert(standard_cells()[17] == ("Num4"@, "4"@));
            assert("4"@.take(1) =~= "4"@);
            assert("Num4"@.skip(0)[3] == "Num4"@[3]);
        } else if i == 18 {
            assert(standard_cells()[18] == ("Num5"@, "5"@));
            assert("5"@.take(1) =~= "5"@);
            assert("Num5"@.skip(0)[3] == "Num5"@[3]);
        } else if i == 19 {
            assert(standard_cells()[19] == ("Num6"@, "6"@));
            assert("6"@.take(1) =~= "6"@);
            assert("Num6"@.skip(0)[3] == "Num6"@[3]);
        } else if i == 20 {
            assert(standard_cells()[20] == ("Num7"@, "7"@));
            assert("7"@.take(1) =~= "7"@);
            assert("Num7"@.skip(0)[3] == "Num7"@[3]);
        } else if i == 21 {
            assert(standard_cells()[21] == ("Num8"@, "8"@));
            assert("8"@.take(1) =~= "8"@);
            assert("Num8"@.skip(0)[3] == "Num8"@[3]);
        } else if i == 22 {
            assert(standard_cells()[22] == ("Num9"@, "9"@));
            assert("9"@.take(1) =~= "9"@);
            assert("Num9"@.skip(0)[3] == "Num9"@[3]);
        } else if i == 23 {
            assert(standard_cells()[23] == ("Num0"@, "0"@));
            assert("0"@.take(1) =~= "0"@);
            assert("Num0"@.skip(0)[3] == "Num0"@[3]);
        } else if i == 24 {
            assert(standard_cells()[24] == ("Minus"@, "-"@));
            assert("-"@.take(1) =~= "-"@);
            assert("Minus"@.skip(1)[3] == "Minus"@[4]);
            assert("Minus"@.skip(0)[4] == "Minus"@[4]);
        } else if i == 25 {
            assert(standard_cells()[25] == ("Equal"@, "="@));
            assert("="@.take(1) =~= "="@);
            assert("Equal"@.skip(1)[3] == "Equal"@[4]);
            assert("Equal"@.skip(0)[4] == "Equal"@[4]);
        } else if i == 26 {
            assert(standard_cells()[26] == ("Backspace"@, "Backspace"@));
            assert("Backspace"@.take(9) =~= "Backspace"@);
            assert("Backspace"@.skip(5)[3] == "Backspace"@[8]);
            assert("Backspace"@.skip(4)[4] == "Backspace"@[8]);
        } else if i == 27 {
            assert(standard_cells()[27] == ("Tab"@, "Tab"@));
            assert("Tab"@.take(3) =~= "Tab"@);
        } else if i == 28 {
            assert(standard_cells()[28] == ("KeyQ"@, "Q"@));
            assert("Q"@.take(1) =~= "Q"@);
            assert("KeyQ"@.skip(0)[3] == "KeyQ"@[3]);
        } else if i == 29 {
            assert(standard_cells()[29] == ("KeyW"@, "W"@));
            assert("W"@.take(1) =~= "W"@);
            assert("KeyW"@.skip(0)[3] == "KeyW"@[3]);
        } else if i == 30 {
            assert(standard_cells()[30] == ("KeyE"@, "E"@));
            assert("E"@.take(1) =~= "E"@);
            assert("KeyE"@.skip(0)[3] == "KeyE"@[3]);
        } else if i == 31 {
            assert(standard_cells()[31] == ("KeyR"@, "R"@));
            assert("R"@.take(1) =~= "R"@);
            assert("KeyR"@.skip(0)[3] == "KeyR"@[3]);
        } else if i == 32 {
            assert(standard_cells()[32] == ("KeyT"@, "T"@));
            assert("T"@.take(1) =~= "T"@);
            assert("KeyT"@.skip(0)[3] == "KeyT"@[3]);
        } else if i == 33 {
            assert(standard_cells()[33] == ("KeyY"@, "Y"@));
            assert("Y"@.take(1) =~= "Y"@);
            assert("KeyY"@.skip(0)[3] == "KeyY"@[3]);
        } else if i == 34 {
            assert(standard_cells()[34] == ("KeyU"@, "U"@));
            assert("U"@.take(1) =~= "U"@);
            assert("KeyU"@.skip(0)[3] == "KeyU"@[3]);
        } else if i == 35 {
            assert(standard_cells()[35] == ("KeyI"@, "I"@));
            assert("I"@.take(1) =~= "I"@);
            assert("KeyI"@.skip(0)[3] == "KeyI"@[3]);
        } else if i == 36 {
            assert(standard_cells()[36] == ("KeyO"@, "O"@));
            assert("O"@.take(1) =~= "O"@);
            assert("KeyO"@.skip(0)[3] == "KeyO"@[3]);
        } else if i == 37 {
            assert(standard_cells()[37] == ("KeyP"@, "P"@));
            assert("P"@.take(1) =~= "P"@);
            assert("KeyP"@.skip(0)[3] == "KeyP"@[3]);
        } else if i == 38 {
            assert(standard_cells()[38] == ("LeftBracket"@, "["@));
            assert("["@.take(1) =~= "["@);
            assert("LeftBracket"@.skip(7)[2] == "LeftBracket"@[9]);
            assert("LeftBracket"@.skip(6)[3] == "LeftBracket"@[9]);
        } else if i == 39 {
            assert(standard_cells()[39] == ("RightBracket"@, "]"@));
            assert("]"@.take(1) =~= "]"@);
            assert("RightBracket"@.skip(8)[2] == "RightBracket"@[10]);
            assert("RightBracket"@.skip(7)[3] == "RightBracket"@[10]);
        } else if i == 40 {
            assert(standard_cells()[40] == ("BackSlash"@, "\\"@));
            assert("\\"@.take(1) =~= "\\"@);
            assert("BackSlash"@.skip(5)[3] == "BackSlash"@[8]);
            assert("BackSlash"@.skip(4)[4] == "BackSlash"@[8]);
        } else if i == 41 {
            assert(standard_cells()[41] == ("CapsLock"@, "Caps"@));
            assert("Caps Lock"@.take(4) =~= "Caps"@);
            assert("CapsLock"@.skip(4)[3] == "CapsLock"@[7]);
            assert("CapsLock"@.skip(3)[4] == "CapsLock"@[7]);
        } else if i == 42 {
            assert(standard_cells()[42] == ("KeyA"@, "A"@));
            assert("A"@.take(1) =~= "A"@);
            assert("KeyA"@.skip(0)[3] == "KeyA"@[3]);
        } else if i == 43 {
            assert(standard_cells()[43] == ("KeyS"@, "S"@));
            assert("S"@.take(1) =~= "S"@);
            assert("KeyS"@.skip(0)[3] == "KeyS"@[3]);
        } else if i == 44 {
            assert(standard_cells()[44] == ("KeyD"@, "D"@));
            assert("D"@.take(1) =~= "D"@);
            assert("KeyD"@.skip(0)[3] == "KeyD"@[3]);
        } else if i == 45 {
            assert(standard_cells()[45] == ("KeyF"@, "F"@));
            assert("F"@.take(1) =~= "F"@);
            assert("KeyF"@.skip(0)[3] == "KeyF"@[3]);
        } else if i == 46 {
            assert(standard_cells()[46] == ("KeyG"@, "G"@));
            assert("G"@.take(1) =~= "G"@);
            assert("KeyG"@.skip(0)[3] == "KeyG"@[3]);
        } else if i == 47 {
            assert(standard_cells()[47] == ("KeyH"@, "H"@));
            assert("H"@.take(1) =~= "H"@);
            assert("KeyH"@.skip(0)[3] == "KeyH"@[3]);
        } else if i == 48 {
            assert(standard_cells()[48] == ("KeyJ"@, "J"@));
            assert("J"@.take(1) =~= "J"@);
            assert("KeyJ"@.skip(0)[3] == "KeyJ"@[3]);
        } else if i == 49 {
            assert(standard_cells()[49] == ("KeyK"@, "K"@));
            assert("K"@.take(1) =~= "K"@);
            assert("KeyK"@.skip(0)[3] == "KeyK"@[3]);
        } else if i == 50 {
            assert(standard_cells()[50] == ("KeyL"@, "L"@));
            assert("L"@.take(1) =~= "L"@);
            assert("KeyL"@.skip(0)[3] == "KeyL"@[3]);
        } else if i == 51 {
            assert(standard_cells()[51] == ("SemiColon"@, ";"@));
            assert(";"@.take(1) =~= ";"@);
            assert("SemiColon"@.skip(5)[3] == "SemiColon"@[8]);
            assert("SemiColon"@.skip(4)[4] == "SemiColon"@[8]);
        } else if i == 52 {
            assert(standard_cells()[52] == ("Quote"@, "'"@));
            assert("'"@.take(1) =~= "'"@);
            assert("Quote"@.skip(1)[3] == "Quote"@[4]);
            assert("Quote"@.skip(0)[4] == "Quote"@[4]);
        } else if i == 53 {
            assert(standard_cells()[53] == ("Return"@, "Enter"@));
            assert("Enter"@.take(5) =~= "Enter"@);
            assert("Return"@.skip(2)[3] == "Return"@[5]);
            assert("Return"@.skip(1)[4] == "Return"@[5]);
        } else if i == 54 {
            assert(standard_cells()[54] == ("ShiftLeft"@, "Shift"@));
            assert("Left Shift"@.skip(5) =~= "Shift"@);
            assert("ShiftLeft"@.skip(5) =~= "Left"@);
            assert("Left Shift"@.take(5) =~= "Left "@);
            assert("ShiftLeft"@.skip(4)[3] == "ShiftLeft"@[7]);
        } else if i == 55 {
            assert(standard_cells()[55] == ("KeyZ"@, "Z"@));
            assert("Z"@.take(1) =~= "Z"@);
            assert("KeyZ"@.skip(0)[3] == "KeyZ"@[3]);
        } else if i == 56 {
            assert(standard_cells()[56] == ("KeyX"@, "X"@));
            assert("X"@.take(1) =~= "X"@);
            assert("KeyX"@.skip(0)[3] == "KeyX"@[3]);
        } else if i == 57 {
            assert(standard_cells()[57] == ("KeyC"@, "C"@));
            assert("C"@.take(1) =~= "C"@);
            assert("KeyC"@.skip(0)[3] == "KeyC"@[3]);
        } else if i == 58 {
            assert(standard_cells()[58] == ("KeyV"@, "V"@));
            assert("V"@.take(1) =~= "V"@);
            assert("KeyV"@.skip(0)[3] == "KeyV"@[3]);
        } else if i == 59 {
            assert(standard_cells()[59] == ("KeyB"@, "B"@));
            assert("B"@.take(1) =~= "B"@);
            assert("KeyB"@.skip(0)[3] == "KeyB"@[3]);
        } else if i == 60 {
            assert(standard_cells()[60] == ("KeyN"@, "N"@));
            assert("N"@.take(1) =~= "N"@);
            assert("KeyN"@.skip(0)[3] == "KeyN"@[3]);
        } else if i == 61 {
            assert(standard_cells()[61] == ("KeyM"@, "M"@));
            assert("M"@.take(1) =~= "M"@);
            assert("KeyM"@.skip(0)[3] == "KeyM"@[3]);
        } else if i == 62 {
            assert(standard_cells()[62] == ("Comma"@, ","@));
            assert(","@.take(1) =~= ","@);
            assert("Comma"@.skip(1)[3] == "Comma"@[4]);
            assert("Comma"@.skip(0)[4] == "Comma"@[4]);
        } else if i == 63 {
            assert(standard_cells()[63] == ("Dot"@, "."@));
            assert("."@.take(1) =~= "."@);
        } else if i == 64 {
            assert(standard_cells()[64] == ("Slash"@, "/"@));
            assert("/"@.take(1) =~= "/"@);
            assert("Slash"@.skip(1)[3] == "Slash"@[4]);
            assert("Slash"@.skip(0)[4] == "Slash"@[4]);
        } else if i == 65 {
            assert(standard_cells()[65] == ("ShiftRight"@, "Shift"@));
            assert("Right Shift"@.skip(6) =~= "Shift"@);
            assert("ShiftRight"@.skip(6)[2] == "ShiftRight"@[8]);
            assert("ShiftRight"@.skip(5) =~= "Right"@);
            assert("Right Shift"@.take(6) =~= "Right "@);
        } else if i == 66 {
            assert(standard_cells()[66] == ("ControlLeft"@, "Ctrl"@));
            assert("Left Ctrl"@.skip(5) =~= "Ctrl"@);
            assert("ControlLeft"@.skip(7) =~= "Left"@);
            assert("Left Ctrl"@.take(5) =~= "Left "@);
            assert("ControlLeft"@.skip(6)[3] == "ControlLeft"@[9]);
        } else if i == 67 {
            assert(standard_cells()[67] == ("MetaLeft"@, "Win"@));
            assert("Left Win"@.skip(5) =~= "Win"@);
            assert("MetaLeft"@.skip(4) =~= "Left"@);
            assert("Left Win"@.take(5) =~= "Left "@);
            assert("MetaLeft"@.skip(3)[3] == "MetaLeft"@[6]);
        } else if i == 68 {
            assert(standard_cells()[68] == ("Alt"@, "Alt"@));
            assert("Alt"@.take(3) =~= "Alt"@);
        } else if i == 69 {
            assert(standard_cells()[69] == ("Space"@, "Space"@));
            assert("Space"@.take(5) =~= "Space"@);
            assert("Space"@.skip(1)[3] == "Space"@[4]);
            assert("Space"@.skip(0)[4] == "Space"@[4]);
        } else if i == 70 {
            assert(standard_cells()[70] == ("AltGr"@, "AltGr"@));
            assert("AltGr"@.take(5) =~= "AltGr"@);
            assert("AltGr"@.skip(1)[3] == "AltGr"@[4]);
            assert("AltGr"@.skip(0)[4] == "AltGr"@[4]);
        } else if i == 71 {
            assert(standard_cells()[71] == ("MetaRight"@, "Win"@));
            assert("Right Win"@.skip(6) =~= "Win"@);
            assert("MetaRight"@.skip(5)[2] == "MetaRight"@[7]);
            assert("MetaRight"@.skip(4) =~= "Right"@);
            assert("Right Win"@.take(6) =~= "Right "@);
        } else if i == 72 {
            assert(standard_cells()[72] == ("Menu"@, "Menu"@));
            assert("Menu"@.take(4) =~= "Menu"@);
            assert("Menu"@.skip(0)[3] == "Menu"@[3]);
        } else if i == 73 {
            assert(standard_cells()[73] == ("ControlRight"@, "Ctrl"@));
            assert("Right Ctrl"@.skip(6) =~= "Ctrl"@);
            assert("ControlRight"@.skip(8)[2] == "ControlRight"@[10]);
            assert("ControlRight"@.skip(7) =~= "Right"@);
            assert("Right Ctrl"@.take(6) =~= "Right "@);
        }
    }
}

} // verus!
