use musicbot::listing::{
    build_queue, next_page, page_button, page_count, PageButton, QueueEntry,
};

fn entry(title: &str, secs: u64) -> QueueEntry {
    QueueEntry { title: Some(title.to_string()), duration_secs: Some(secs) }
}

fn line(number: usize, title: &str, duration: &str) -> String {
    format!("{:>2}) {:<36} {:>}\n", number, title, duration)
}

#[test]
fn listing_of_two_tracks() {
    let tracks = vec![entry("Song A", 200), entry("Song B", 3725)];
    let expected = format!("```ml\n{}{}```", line(1, "Song A", "3:20"), line(2, "Song B", "1:02:05"));
    assert_eq!(build_queue(&tracks, 0), expected);
}

#[test]
fn listing_of_empty_queue() {
    let tracks: Vec<QueueEntry> = Vec::new();
    assert_eq!(build_queue(&tracks, 0), "```ml\n```");
}

#[test]
fn listing_cuts_long_titles() {
    let long = "abcdefghijklmnopqrstuvwxyz0123456789ABCDEFG";
    let tracks = vec![entry(long, 61)];
    let expected = format!("```ml\n{}```", line(1, &long[..36], "1:01"));
    assert_eq!(build_queue(&tracks, 0), expected);
}

#[test]
fn listing_cuts_by_bytes_and_pads_by_chars() {
    let title = "é".repeat(20);
    let tracks = vec![entry(&title, 5)];
    let expected = format!("```ml\n{}```", line(1, &title[..36], "0:05"));
    assert_eq!(build_queue(&tracks, 0), expected);
    assert!(expected.contains(&format!("{}{}", "é".repeat(18), " ".repeat(18))));
}

#[test]
fn listing_second_page() {
    let tracks: Vec<QueueEntry> = (0..12).map(|i| entry(&format!("T{}", i), 60 * i)).collect();
    let expected = format!(
        "```ml\n{}{}```",
        line(11, "T10", "10:00"),
        line(12, "T11", "11:00")
    );
    assert_eq!(build_queue(&tracks, 1), expected);
    assert_eq!(build_queue(&tracks, 2), "```ml\n```");
}

#[test]
fn listing_first_page_has_ten() {
    let tracks: Vec<QueueEntry> = (0..15).map(|i| entry(&format!("T{}", i), i)).collect();
    let listing = build_queue(&tracks, 0);
    assert_eq!(listing.lines().count(), 12);
    assert!(listing.contains(&line(10, "T9", "0:09")));
    assert!(!listing.contains("T10"));
}

#[test]
fn page_counts() {
    assert_eq!(page_count(0), 1);
    assert_eq!(page_count(1), 1);
    assert_eq!(page_count(2), 1);
    assert_eq!(page_count(11), 1);
    assert_eq!(page_count(12), 2);
    assert_eq!(page_count(21), 2);
    assert_eq!(page_count(22), 3);
    assert_eq!(page_count(usize::MAX), (usize::MAX - 2) / 10 + 1);
}

#[test]
fn page_counts_match_float_formula() {
    for len in 0usize..500 {
        let num_pages = ((len as f64 - 1.0) / 10.0).ceil() as usize;
        assert_eq!(page_count(len), std::cmp::max(1, num_pages));
    }
}

#[test]
fn tracks_before_last_are_on_a_reachable_page() {
    for len in 1usize..45 {
        let tracks: Vec<QueueEntry> = (0..len).map(|i| entry(&format!("T{}", i), i as u64)).collect();
        let pages = page_count(len);
        let mut page = 0;
        let mut seen = build_queue(&tracks, page);
        while page + 1 < pages {
            page = next_page(page, pages, PageButton::Next);
            seen.push_str(&build_queue(&tracks, page));
        }
        assert_eq!(next_page(0, pages, PageButton::Last), pages - 1);
        for i in 0..len - 1 {
            assert!(seen.contains(&line(i + 1, &format!("T{}", i), &musicbot::timestamp::get_human_readable_timestamp(i as u64))));
        }
        assert!(build_queue(&tracks, pages - 1).lines().count() > 2);
        let last = line(len, &format!("T{}", len - 1), &musicbot::timestamp::get_human_readable_timestamp(len as u64 - 1));
        assert_eq!(seen.contains(&last), len % 10 != 1 || len == 1);
    }
}

#[test]
fn buttons() {
    assert_eq!(page_button("first"), Some(PageButton::First));
    assert_eq!(page_button("back"), Some(PageButton::Back));
    assert_eq!(page_button("next"), Some(PageButton::Next));
    assert_eq!(page_button("last"), Some(PageButton::Last));
    assert_eq!(page_button("other"), None);
    assert_eq!(page_button("First"), None);
}

#[test]
fn paging_moves() {
    assert_eq!(next_page(2, 4, PageButton::First), 0);
    assert_eq!(next_page(2, 4, PageButton::Back), 1);
    assert_eq!(next_page(0, 4, PageButton::Back), 0);
    assert_eq!(next_page(2, 4, PageButton::Next), 3);
    assert_eq!(next_page(3, 4, PageButton::Next), 3);
    assert_eq!(next_page(1, 4, PageButton::Last), 3);
    assert_eq!(next_page(0, 1, PageButton::Next), 0);
}

#[test]
fn paging_stays_in_listing() {
    for pages in 1usize..6 {
        for page in 0..pages {
            for b in [PageButton::First, PageButton::Back, PageButton::Next, PageButton::Last] {
                assert!(next_page(page, pages, b) < pages);
            }
        }
    }
}

#[test]
fn times_line_up_in_one_column() {
    let titles = ["a", "é", "abcdefghijklmnopqrstuvwxyz0123456789ABCDEFG", "日本語のタイトル"];
    let tracks: Vec<QueueEntry> =
        titles.iter().enumerate().map(|(i, t)| entry(t, 100 * i as u64)).collect();
    let listing = build_queue(&tracks, 0);
    for (i, l) in listing.lines().skip(1).take(titles.len()).enumerate() {
        let chars: Vec<char> = l.chars().collect();
        let time: String = chars[41..].iter().collect();
        assert_eq!(time, musicbot::timestamp::get_human_readable_timestamp(100 * i as u64));
    }
}
