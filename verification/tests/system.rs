use swift_run::startup::{defers_to_running_instance, launch_mode, LaunchMode};
use swift_run::system::executor::{
    alias_of, apply_alias, expand_aliases_and_env, expanded_len, fixed_target, is_url,
    launch_succeeded, needs_env_expansion, split_command, Alias, AliasUse, CommandLine,
};
use swift_run::system::explorer::{exe_name_len, process_is_named};
use swift_run::system::registry::{
    disable_hotkey, enable_hotkey, installed_exe_path, strip_quotes, value_units, HotkeyEdit,
};
use swift_run::text::{
    chars_of, eq_ignore_ascii_case, find, find_char, matches_at, starts_with, text_is,
    to_ascii_lower, trim,
};

fn line(file: &str, params: &str) -> CommandLine {
    CommandLine { file: file.to_string(), params: params.to_string() }
}

fn args(items: &[&str]) -> Vec<String> {
    items.iter().map(|s| s.to_string()).collect()
}

#[test]
fn addresses_are_recognized() {
    assert!(is_url("http://example.com"));
    assert!(is_url("https://example.com"));
    assert!(is_url("httpfoo"));
    assert!(is_url("www.example.com"));
    assert!(is_url("ftp://host/file"));
    assert!(is_url("a://"));
    assert!(!is_url("notepad"));
    assert!(!is_url("C:\\www\\http"));
    assert!(!is_url("htt"));
    assert!(!is_url(""));
    assert!(!is_url(":/ /"));
}

#[test]
fn commands_are_cut_at_the_first_space() {
    assert_eq!(split_command("notepad file.txt", false), line("notepad", "file.txt"));
    assert_eq!(split_command("ping -n 4 host", false), line("ping", "-n 4 host"));
    assert_eq!(split_command("notepad", false), line("notepad", ""));
    assert_eq!(split_command("", false), line("", ""));
    assert_eq!(split_command(" x", false), line("", "x"));
    assert_eq!(split_command("a  b", false), line("a", " b"));
}

#[test]
fn a_trailing_space_leaves_the_file_bare() {
    assert_eq!(split_command("notepad ", false), line("notepad", ""));
}

#[test]
fn existing_paths_and_addresses_are_launched_whole() {
    assert_eq!(
        split_command("C:\\Program Files\\app.exe", true),
        line("\"C:\\Program Files\\app.exe\"", "")
    );
    assert_eq!(split_command("C:\\tools\\app.exe", true), line("C:\\tools\\app.exe", ""));
    assert_eq!(
        split_command("\"C:\\Program Files\\app.exe\"", true),
        line("\"C:\\Program Files\\app.exe\"", "")
    );
    assert_eq!(
        split_command("http://example.com/a b", false),
        line("\"http://example.com/a b\"", "")
    );
    assert_eq!(split_command("www.example.com", false), line("www.example.com", ""));
}

#[test]
fn aliases_by_name() {
    assert_eq!(alias_of("docs"), Some(Alias::Documents));
    assert_eq!(alias_of("documents"), Some(Alias::Documents));
    assert_eq!(alias_of("pictures"), Some(Alias::Pictures));
    assert_eq!(alias_of("pics"), Some(Alias::Pictures));
    assert_eq!(alias_of("videos"), Some(Alias::Videos));
    assert_eq!(alias_of("vids"), Some(Alias::Videos));
    assert_eq!(alias_of("music"), Some(Alias::Music));
    assert_eq!(alias_of("downloads"), Some(Alias::Downloads));
    assert_eq!(alias_of("desktop"), Some(Alias::Desktop));
    assert_eq!(alias_of("terminal"), Some(Alias::Terminal));
    assert_eq!(alias_of("term"), Some(Alias::Terminal));
    assert_eq!(alias_of("Docs"), None);
    assert_eq!(alias_of("doc"), None);
    assert_eq!(alias_of("docss"), None);
    assert_eq!(alias_of(""), None);
}

#[test]
fn the_first_word_names_the_alias_whatever_its_case() {
    assert_eq!(
        expand_aliases_and_env("DOCS report.txt"),
        AliasUse { alias: Some(Alias::Documents), rest: Some("report.txt".to_string()) }
    );
    assert_eq!(
        expand_aliases_and_env("Term"),
        AliasUse { alias: Some(Alias::Terminal), rest: None }
    );
    assert_eq!(
        expand_aliases_and_env("notepad a b"),
        AliasUse { alias: None, rest: Some("a b".to_string()) }
    );
    assert_eq!(
        expand_aliases_and_env("music "),
        AliasUse { alias: Some(Alias::Music), rest: Some(String::new()) }
    );
    assert_eq!(expand_aliases_and_env(""), AliasUse { alias: None, rest: None });
    // The Kelvin sign has the small letter k for its lower case.
    assert_eq!(
        expand_aliases_and_env("DES\u{212A}TOP"),
        AliasUse { alias: Some(Alias::Desktop), rest: None }
    );
}

#[test]
fn an_alias_is_replaced_by_its_target() {
    assert_eq!(fixed_target(Alias::Terminal), Some("wt".to_string()));
    assert_eq!(fixed_target(Alias::Music), None);
    assert_eq!(apply_alias("C:\\Users\\me\\Documents", &Some("a.txt".to_string())), "C:\\Users\\me\\Documents a.txt");
    assert_eq!(apply_alias("wt", &None), "wt");
    assert_eq!(apply_alias("wt", &Some(String::new())), "wt ");
}

#[test]
fn launcher_codes_and_expansion_counts() {
    assert!(launch_succeeded(33));
    assert!(launch_succeeded(42));
    assert!(!launch_succeeded(32));
    assert!(!launch_succeeded(2));
    assert!(!launch_succeeded(-1));
    assert!(needs_env_expansion("%appdata%"));
    assert!(needs_env_expansion("100%"));
    assert!(!needs_env_expansion("notepad"));
    assert_eq!(expanded_len(0, 32768), None);
    assert_eq!(expanded_len(1, 32768), Some(0));
    assert_eq!(expanded_len(32768, 32768), Some(32767));
    assert_eq!(expanded_len(32769, 32768), None);
}

#[test]
fn the_letter_r_goes_on_the_list_once() {
    assert_eq!(disable_hotkey(""), HotkeyEdit::Store("R".to_string()));
    assert_eq!(disable_hotkey("XY"), HotkeyEdit::Store("XYR".to_string()));
    assert_eq!(disable_hotkey("R"), HotkeyEdit::Keep);
    assert_eq!(disable_hotkey("XRY"), HotkeyEdit::Keep);
    assert_eq!(disable_hotkey("r"), HotkeyEdit::Store("rR".to_string()));
}

#[test]
fn the_letter_r_comes_off_the_list_wholly() {
    assert_eq!(enable_hotkey(""), HotkeyEdit::Keep);
    assert_eq!(enable_hotkey("XY"), HotkeyEdit::Keep);
    assert_eq!(enable_hotkey("R"), HotkeyEdit::Delete);
    assert_eq!(enable_hotkey("RRR"), HotkeyEdit::Delete);
    assert_eq!(enable_hotkey("XRY"), HotkeyEdit::Store("XY".to_string()));
    assert_eq!(enable_hotkey("RXRrR"), HotkeyEdit::Store("Xr".to_string()));
    assert_eq!(enable_hotkey("\u{e9}R\u{1F600}"), HotkeyEdit::Store("\u{e9}\u{1F600}".to_string()));
}

#[test]
fn registry_values_count_their_final_zero() {
    assert_eq!(value_units(0), 0);
    assert_eq!(value_units(1), 0);
    assert_eq!(value_units(2), 0);
    assert_eq!(value_units(4), 1);
    assert_eq!(value_units(5), 1);
    assert_eq!(value_units(256), 127);
    assert_eq!(value_units(u32::MAX), 0x7FFF_FFFE);
}

#[test]
fn the_executable_is_found_in_a_start_up_entry() {
    assert_eq!(
        installed_exe_path("\"C:\\Apps\\swift_run.exe\" --background"),
        "C:\\Apps\\swift_run.exe"
    );
    assert_eq!(installed_exe_path("C:\\Apps\\swift_run.exe"), "C:\\Apps\\swift_run.exe");
    assert_eq!(installed_exe_path("\"C:\\Apps\\run\""), "C:\\Apps\\run");
    assert_eq!(installed_exe_path("a.exe.exe"), "a.exe");
    assert_eq!(installed_exe_path(""), "");
    assert_eq!(strip_quotes("\"\"a\"b\"\""), "a\"b");
    assert_eq!(strip_quotes("\"\"\""), "");
    assert_eq!(strip_quotes("a"), "a");
}

#[test]
fn executable_names_end_at_the_first_zero() {
    assert_eq!(exe_name_len(&[0x61, 0x62, 0, 0x63]), 2);
    assert_eq!(exe_name_len(&[0, 0x61]), 0);
    assert_eq!(exe_name_len(&[0x61, 0x62]), 2);
    assert_eq!(exe_name_len(&[]), 0);
    assert!(process_is_named("Explorer.EXE", "explorer.exe"));
    assert!(process_is_named("swift_run.exe", "swift_run.exe"));
    assert!(!process_is_named("swift_run.exe", "swift-run.exe"));
    assert!(!process_is_named("swift_run.exe ", "swift_run.exe"));
}

#[test]
fn texts_compare_ignoring_ascii_case_only() {
    for (a, b) in [("", ""), ("a", "A"), ("Az", "aZ"), ("a", "b"), ("\u{e9}", "\u{c9}"), ("k", "\u{212A}"), ("@", "`"), ("[", "{"), ("ab", "a")] {
        assert_eq!(eq_ignore_ascii_case(a, b), a.eq_ignore_ascii_case(b), "{:?} {:?}", a, b);
    }
    for v in 0..=0x250u32 {
        let c = char::from_u32(v).unwrap();
        assert_eq!(to_ascii_lower(c), c.to_ascii_lowercase());
    }
}

#[test]
fn text_helpers() {
    let s = chars_of("a://b\u{1F600}");
    assert_eq!(s, vec!['a', ':', '/', '/', 'b', '\u{1F600}']);
    assert_eq!(find(&s, &chars_of("://")), Some(1));
    assert_eq!(find(&s, &chars_of("/")), Some(2));
    assert_eq!(find(&s, &chars_of("x")), None);
    assert_eq!(find(&s, &chars_of("")), Some(0));
    assert_eq!(find(&chars_of(""), &chars_of("")), Some(0));
    assert_eq!(find(&s, &chars_of("\u{1F600}")), Some(5));
    assert!(matches_at(&s, &chars_of("//"), 2));
    assert!(!matches_at(&s, &chars_of("//"), 3));
    assert!(!matches_at(&s, &chars_of("//"), usize::MAX));
    assert!(matches_at(&s, &chars_of(""), 6));
    assert!(!matches_at(&s, &chars_of(""), 7));
    assert!(starts_with(&s, &chars_of("a:")));
    assert!(!starts_with(&s, &chars_of(":")));
    assert_eq!(find_char(&s, '/'), Some(2));
    assert_eq!(find_char(&s, 'z'), None);
    assert!(text_is(&s, "a://b\u{1F600}"));
    assert!(!text_is(&s, "a://b"));
    assert!(!text_is(&s, "a://b\u{1F600}!"));
}

#[test]
fn trimming_agrees_with_the_standard_library() {
    for s in ["", " ", "a", "  a b  ", "\t\u{3000}x\u{a0}\n", " \u{200b} ", "x ", " x", "\u{85}\u{1680}"] {
        assert_eq!(trim(s), s.trim(), "{:?}", s);
    }
}

#[test]
fn launch_modes() {
    assert_eq!(launch_mode(&args(&["app"])), LaunchMode::Show);
    assert_eq!(launch_mode(&args(&["app", "--show"])), LaunchMode::Show);
    assert_eq!(launch_mode(&args(&["app", "--install"])), LaunchMode::Install);
    assert_eq!(launch_mode(&args(&["app", "--uninstall", "x"])), LaunchMode::Uninstall);
    assert_eq!(launch_mode(&args(&["app", "--background"])), LaunchMode::Background);
    assert_eq!(launch_mode(&args(&["app", "--SHOW"])), LaunchMode::Background);
    assert_eq!(launch_mode(&args(&[])), LaunchMode::Background);
    assert!(defers_to_running_instance(&args(&["app"])));
    assert!(defers_to_running_instance(&args(&["app", "--show"])));
    assert!(!defers_to_running_instance(&args(&["app", "--install"])));
    assert!(!defers_to_running_instance(&args(&["app", "--other"])));
}
