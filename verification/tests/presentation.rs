use luma::present::colored_text;
use luma::present::frame_lines;
use luma::present::table_text;
use luma::present::LumaColor;
use luma::text::format_i32;

#[test]
fn format_small_numbers() {
    assert_eq!(format_i32(0), "0");
    assert_eq!(format_i32(7), "7");
    assert_eq!(format_i32(42), "42");
    assert_eq!(format_i32(-1), "-1");
}

#[test]
fn format_large_numbers() {
    assert_eq!(format_i32(123456789), "123456789");
    assert_eq!(format_i32(i32::MAX), "2147483647");
    assert_eq!(format_i32(i32::MIN), "-2147483648");
}

#[test]
fn frame_without_title() {
    let content = vec![String::from("ab"), String::from("c")];
    let lines = frame_lines(&content, None);
    assert_eq!(lines, vec!["┌────┐", "│ ab │", "│ c  │", "└────┘"]);
}

#[test]
fn frame_with_title() {
    let content = vec![String::from("ab"), String::from("c")];
    let title = String::from("T");
    let lines = frame_lines(&content, Some(&title));
    assert_eq!(lines, vec!["┌T ──┐", "│ ab │", "│ c  │", "└────┘"]);
}

#[test]
fn frame_of_empty_content() {
    let content: Vec<String> = Vec::new();
    let lines = frame_lines(&content, None);
    assert_eq!(lines, vec!["┌──┐", "└──┘"]);
}

#[test]
fn colored_text_styles_and_keeps_the_text() {
    colored::control::set_override(true);
    // With styling forced on, the result is exactly the text between the
    // colors' style prefix and the reset suffix.
    let r = colored_text("hello", LumaColor::Red, None);
    assert_eq!(r, "\u{1b}[31mhello\u{1b}[0m");
    let rb = colored_text("hello", LumaColor::Red, Some(LumaColor::Black));
    assert_eq!(rb, "\u{1b}[40;31mhello\u{1b}[0m");
    let rg = colored_text("hi", LumaColor::Green, Some(LumaColor::Yellow));
    assert_eq!(rg, "\u{1b}[43;32mhi\u{1b}[0m");
    // With styling forced off, the text comes back unchanged.
    colored::control::set_override(false);
    let plain = colored_text("hello", LumaColor::Red, None);
    assert_eq!(plain, "hello");
    colored::control::unset_override();
}

#[test]
fn progress_template_exact() {
    assert_eq!(
        luma::present::progress_template(LumaColor::Cyan),
        "{msg} [{bar:40.cyan/black}] {pos}/{len}"
    );
    assert_eq!(
        luma::present::progress_template(LumaColor::White),
        "{msg} [{bar:40.white/black}] {pos}/{len}"
    );
}

#[test]
fn table_contains_every_cell() {
    let headers = vec![String::from("name"), String::from("qty")];
    let rows = vec![
        vec![String::from("carrot"), String::from("3")],
        vec![String::from("celery"), String::from("1")],
    ];
    let t = table_text(&headers, &rows);
    assert!(t.contains("name"));
    assert!(t.contains("qty"));
    assert!(t.contains("carrot"));
    assert!(t.contains("celery"));
    // It is laid out over several lines, not handed back as the input.
    assert!(t.contains('\n'));
    assert_ne!(t, "name");
}
