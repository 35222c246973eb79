use vietflux::shortcut::{Shortcut, ShortcutTable, MAX_REPLACEMENT_LEN};

#[test]
fn test_shortcut_creation() {
    let s = Shortcut::new("vn", "Việt Nam");
    assert_eq!(s.trigger, "vn");
    assert_eq!(s.replacement, "Việt Nam");
    assert!(s.enabled);
}

#[test]
fn test_shortcut_table_add_remove() {
    let mut table = ShortcutTable::new();
    table.enable();

    table.add(Shortcut::new("vn", "Việt Nam"));
    assert_eq!(table.len(), 1);

    let removed = table.remove("vn");
    assert!(removed.is_some());
    assert_eq!(table.len(), 0);
}

#[test]
fn test_shortcut_table_disabled() {
    let mut table = ShortcutTable::new();
    table.add(Shortcut::new("vn", "Việt Nam"));
    assert!(!table.is_enabled());

    let result = table.try_match("vn", Some(' '), true);
    assert!(result.is_none());
}

#[test]
fn test_shortcut_table_enabled() {
    let mut table = ShortcutTable::new();
    table.enable();
    table.add(Shortcut::new("vn", "Việt Nam"));

    let result = table.try_match("vn", Some(' '), true);
    assert!(result.is_some());
    let m = result.unwrap();
    assert_eq!(m.replacement, "Việt Nam ");
    assert_eq!(m.backspace_count, 2);
}

#[test]
fn test_shortcut_individual_disable() {
    let mut table = ShortcutTable::new();
    table.enable();
    table.add(Shortcut::new("vn", "Việt Nam"));

    table.disable_shortcut("vn");

    let result = table.try_match("vn", Some(' '), true);
    assert!(result.is_none());

    table.enable_shortcut("vn");
    let result = table.try_match("vn", Some(' '), true);
    assert!(result.is_some());
}

#[test]
fn test_shortcut_with_defaults() {
    let table = ShortcutTable::with_defaults();
    assert!(table.is_enabled());
    assert!(table.len() >= 5);

    let result = table.try_match("dc", None, false);
    assert!(result.is_some());
    let m = result.unwrap();
    assert_eq!(m.replacement, "được");
}

#[test]
fn test_longest_match_first() {
    let mut table = ShortcutTable::new();
    table.enable();
    table.add(Shortcut::new("h", "họ"));
    table.add(Shortcut::new("hcm", "Hồ Chí Minh"));

    let result = table.try_match("hcm", Some(' '), true);
    assert!(result.is_some());
    let m = result.unwrap();
    assert!(m.replacement.contains("Hồ Chí Minh"));
}

#[test]
fn test_immediate_trigger() {
    let mut table = ShortcutTable::new();
    table.enable();
    table.add(Shortcut::immediate(";;", "→"));

    let result = table.try_match(";;", None, false);
    assert!(result.is_some());
    let m = result.unwrap();
    assert_eq!(m.replacement, "→");
    assert!(!m.include_trigger_key);
}

#[test]
fn test_replacement_validation() {
    let long_text = "a".repeat(100);
    let s = Shortcut::new("test", &long_text);
    assert!(s.replacement.len() <= MAX_REPLACEMENT_LEN);
}
