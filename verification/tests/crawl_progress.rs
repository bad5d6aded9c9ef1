use overview_status::crawl::CrawlingStatus;
use overview_status::decimal::{append_decimal, decimal_string};

#[test]
fn finished_when_nothing_remains() {
    let status = CrawlingStatus::Crawling { remaining: 0, collected: 10 };
    assert_eq!(status.progress_label(), "Finished");
}

#[test]
fn fraction_while_items_remain() {
    let status = CrawlingStatus::Crawling { remaining: 3, collected: 7 };
    assert_eq!(status.progress_label(), "7/10");
}

#[test]
fn waiting_and_restoring() {
    assert_eq!(CrawlingStatus::Waiting.progress_label(), "Waiting");
    assert_eq!(CrawlingStatus::Restoring.progress_label(), "Restoring");
}

#[test]
fn failed_crawl_is_error_whatever_the_cause() {
    for cause in ["", "connection reset", "Finished", "7/10"] {
        let status = CrawlingStatus::CrawlingFailed(cause.to_string());
        assert_eq!(status.progress_label(), "Error");
    }
}

#[test]
fn empty_crawl_is_finished() {
    let status = CrawlingStatus::Crawling { remaining: 0, collected: 0 };
    assert_eq!(status.progress_label(), "Finished");
}

#[test]
fn fraction_before_anything_is_collected() {
    let status = CrawlingStatus::Crawling { remaining: 250, collected: 0 };
    assert_eq!(status.progress_label(), "0/250");
}

#[test]
fn fraction_with_one_item_left() {
    let status = CrawlingStatus::Crawling { remaining: 1, collected: 99_999 };
    assert_eq!(status.progress_label(), "99999/100000");
}

#[test]
fn total_beyond_the_machine_word() {
    let status = CrawlingStatus::Crawling { remaining: usize::MAX, collected: usize::MAX };
    let collected = usize::MAX as u128;
    assert_eq!(status.progress_label(), format!("{}/{}", collected, collected * 2));
    let one_more = CrawlingStatus::Crawling { remaining: 1, collected: usize::MAX };
    assert_eq!(one_more.progress_label(), format!("{}/{}", collected, collected + 1));
}

#[test]
fn progress_is_recomputed_from_the_counts_alone() {
    let status = CrawlingStatus::Crawling { remaining: 3, collected: 7 };
    assert_eq!(status.progress_label(), status.progress_label());
    let later = CrawlingStatus::Crawling { remaining: 2, collected: 8 };
    assert_eq!(later.progress_label(), "8/10");
}

#[test]
fn decimal_of_small_numbers() {
    assert_eq!(decimal_string(0), "0");
    assert_eq!(decimal_string(7), "7");
    assert_eq!(decimal_string(9), "9");
    assert_eq!(decimal_string(10), "10");
    assert_eq!(decimal_string(101), "101");
    assert_eq!(decimal_string(1_234_567_890), "1234567890");
}

#[test]
fn decimal_agrees_with_the_standard_formatter() {
    for n in [0u128, 1, 9, 10, 11, 99, 100, 1_000, 65_535, 4_294_967_296, u64::MAX as u128, u128::MAX] {
        assert_eq!(decimal_string(n), n.to_string());
    }
}

#[test]
fn decimal_is_appended_after_what_is_there() {
    let mut text = String::from("n=");
    append_decimal(&mut text, 42);
    assert_eq!(text, "n=42");
    append_decimal(&mut text, 0);
    assert_eq!(text, "n=420");
}
