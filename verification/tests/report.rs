use keystroke_visualizer::model::KeyboardLayout;
use keystroke_visualizer::report::{keyboard_layout, pretty_key_name, sorted_key_usage};
use keystroke_visualizer::table::CountTable;

#[test]
fn pretty_names_of_named_keys() {
    assert_eq!(pretty_key_name("Return"), "Enter");
    assert_eq!(pretty_key_name("CapsLock"), "Caps Lock");
    assert_eq!(pretty_key_name("ShiftLeft"), "Left Shift");
    assert_eq!(pretty_key_name("ControlRight"), "Right Ctrl");
    assert_eq!(pretty_key_name("MetaLeft"), "Left Win");
    assert_eq!(pretty_key_name("BackQuote"), "`");
    assert_eq!(pretty_key_name("BackSlash"), "\\");
    assert_eq!(pretty_key_name("SemiColon"), ";");
    assert_eq!(pretty_key_name("Quote"), "'");
    assert_eq!(pretty_key_name("Slash"), "/");
    assert_eq!(pretty_key_name("Space"), "Space");
}

#[test]
fn pretty_names_strip_short_prefixes() {
    assert_eq!(pretty_key_name("KeyA"), "A");
    assert_eq!(pretty_key_name("Num5"), "5");
    assert_eq!(pretty_key_name("Key"), "Key");
    assert_eq!(pretty_key_name("KeyAB"), "KeyAB");
    // Four characters but five bytes: left as it is.
    assert_eq!(pretty_key_name("Keyé"), "Keyé");
    assert_eq!(pretty_key_name("F5"), "F5");
    assert_eq!(pretty_key_name("Unknown(42)"), "Unknown(42)");
}

#[test]
fn key_usage_sorted_by_count_then_key() {
    let mut counts = CountTable::new();
    counts.set("KeyB", 3);
    counts.set("KeyA", 3);
    counts.set("Space", 10);
    counts.set("KeyC", 1);
    let usage = sorted_key_usage(&counts);
    let expected: Vec<(String, u64)> = vec![
        ("Space".to_string(), 10),
        ("KeyA".to_string(), 3),
        ("KeyB".to_string(), 3),
        ("KeyC".to_string(), 1),
    ];
    assert_eq!(usage, expected);
    assert!(sorted_key_usage(&CountTable::new()).is_empty());
}

#[test]
fn both_layouts_draw_the_standard_keyboard() {
    let ansi = keyboard_layout(KeyboardLayout::Ansi104);
    let iso = keyboard_layout(KeyboardLayout::Iso105);
    assert_eq!(ansi.len(), 74);
    assert_eq!(iso.len(), 74);
    assert_eq!((ansi[0].id, ansi[0].label), ("Escape", "Esc"));
    assert_eq!((ansi[13].id, ansi[13].label), ("BackQuote", "`"));
    assert_eq!((ansi[73].id, ansi[73].label), ("ControlRight", "Ctrl"));
    let enter = ansi.iter().find(|c| c.id == "Return").unwrap();
    assert_eq!(enter.label, "Enter");
    for (a, b) in ansi.iter().zip(iso.iter()) {
        assert_eq!(a.id, b.id);
        assert_eq!(a.label, b.label);
    }
}

#[test]
fn standard_keyboard_names_each_key_once_with_a_caption() {
    for layout in [KeyboardLayout::Ansi104, KeyboardLayout::Iso105] {
        let cells = keyboard_layout(layout);
        assert_eq!(cells.len(), 74);
        for (i, a) in cells.iter().enumerate() {
            assert!(!a.label.is_empty());
            for b in &cells[i + 1..] {
                assert_ne!(a.id, b.id);
            }
            if a.id.len() == 4 && (a.id.starts_with("Key") || a.id.starts_with("Num")) {
                assert_eq!(a.label, pretty_key_name(a.id));
            }
        }
    }
}
