use cosmic_caffeine::autostart::autostart_entry;

#[test]
fn plain_path() {
    assert_eq!(
        autostart_entry("/home/u/.local/bin/cosmic-caffeine"),
        "[Desktop Entry]\nType=Application\nName=cosmic-caffeine\nExec=\"/home/u/.local/bin/cosmic-caffeine\"\nX-GNOME-Autostart-enabled=true\n"
    );
}

#[test]
fn spaces_stay_inside_the_quotes() {
    assert!(autostart_entry("/opt/my apps/cosmic-caffeine").contains("Exec=\"/opt/my apps/cosmic-caffeine\"\n"));
}

#[test]
fn reserved_characters_are_escaped() {
    assert!(autostart_entry("/a\"b").contains("Exec=\"/a\\\\\"b\"\n"));
    assert!(autostart_entry("/a$b").contains("Exec=\"/a\\\\$b\"\n"));
    assert!(autostart_entry("/a`b").contains("Exec=\"/a\\\\`b\"\n"));
    assert!(autostart_entry("/a\\b").contains("Exec=\"/a\\\\\\\\b\"\n"));
    assert!(autostart_entry("/a\nb").contains("Exec=\"/a\\nb\"\n"));
    assert!(autostart_entry("/a\tb\rc").contains("Exec=\"/a\\tb\\rc\"\n"));
}

#[test]
fn non_ascii_path() {
    assert!(autostart_entry("/home/zoë/bin/cc").contains("Exec=\"/home/zoë/bin/cc\"\n"));
}
