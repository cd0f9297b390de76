use manga_tui::agent::user_agent;
use manga_tui::page::{page_endpoint, PageType};
use manga_tui::text::decimal_text;

#[test]
fn numbers_are_written_in_decimal() {
    assert_eq!(decimal_text(0), "0");
    assert_eq!(decimal_text(9), "9");
    assert_eq!(decimal_text(10), "10");
    assert_eq!(decimal_text(1234567890), "1234567890");
    assert_eq!(decimal_text(u32::MAX), "4294967295");
}

#[test]
fn numbers_read_back_from_their_decimal_text() {
    for n in [0, 7, 42, 100, 65535, u32::MAX] {
        assert_eq!(decimal_text(n).parse::<u32>(), Ok(n));
    }
}

#[test]
fn an_endpoint_joins_its_parts_with_slashes() {
    assert_eq!(
        page_endpoint("https://host", PageType::HighQuality, "id", "1.png"),
        "https://host/data/id/1.png"
    );
    assert_eq!(page_endpoint("", PageType::LowQuality, "", ""), "/data-saver//");
}

#[test]
fn the_user_agent_names_the_machine() {
    assert_eq!(
        user_agent("unix", "linux", "x86_64"),
        "manga-tui/0.beta-testing1.0 (unix/linux/x86_64)"
    );
}
