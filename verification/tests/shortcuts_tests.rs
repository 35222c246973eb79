use vietflux::shortcuts::ShortcutTable;

#[test]
fn test_shortcut_match() {
    let mut table = ShortcutTable::new();
    table.add("ko", "không");
    table.add("dc", "được");

    let result = table.find_match("ko");
    assert!(result.is_some());
    assert_eq!(result.unwrap().expansion, "không");
}

#[test]
fn test_longest_match() {
    let mut table = ShortcutTable::new();
    table.add("n", "này");
    table.add("ng", "người");
    table.add("ngu", "ngủ");

    let result = table.find_match("xyzng");
    assert!(result.is_some());
    assert_eq!(result.unwrap().expansion, "người");
}

#[test]
fn test_no_match() {
    let table = ShortcutTable::new();
    assert!(table.find_match("abc").is_none());
}
