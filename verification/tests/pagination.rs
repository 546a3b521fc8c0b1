use skyfeed::pagination::{decode_cursor, encode_cursor, paginate};
use skyfeed::Uri;

fn uris(count: usize) -> Vec<Uri> {
    (0..count).map(|i| Uri(format!("at://did:plc:x/app.bsky.feed.post/{}", i))).collect()
}

fn texts(page: &[Uri]) -> Vec<String> {
    page.iter().map(|u| u.0.clone()).collect()
}

#[test]
fn cursor_is_written_in_decimal() {
    assert_eq!(encode_cursor(0), "0");
    assert_eq!(encode_cursor(7), "7");
    assert_eq!(encode_cursor(10), "10");
    assert_eq!(encode_cursor(12345), "12345");
    assert_eq!(encode_cursor(usize::MAX), usize::MAX.to_string());
}

#[test]
fn cursor_is_read_back() {
    assert_eq!(decode_cursor("0"), Some(0));
    assert_eq!(decode_cursor("5"), Some(5));
    assert_eq!(decode_cursor("007"), Some(7));
    assert_eq!(decode_cursor("12345"), Some(12345));
    assert_eq!(decode_cursor(&usize::MAX.to_string()), Some(usize::MAX));
    for position in [0usize, 1, 9, 10, 99, 100, 4096, usize::MAX - 1] {
        assert_eq!(decode_cursor(&encode_cursor(position)), Some(position));
    }
}

#[test]
fn cursor_that_is_no_number_is_refused() {
    assert_eq!(decode_cursor(""), None);
    assert_eq!(decode_cursor("abc"), None);
    assert_eq!(decode_cursor("+5"), None);
    assert_eq!(decode_cursor("-1"), None);
    assert_eq!(decode_cursor("5 "), None);
    assert_eq!(decode_cursor("1.5"), None);
    assert_eq!(decode_cursor("٥"), None);
    assert_eq!(decode_cursor("18446744073709551616"), None);
    assert_eq!(decode_cursor("99999999999999999999999999"), None);
}

#[test]
fn first_page_starts_at_the_first_item() {
    let items = uris(12);
    let page = paginate(&items, &None, 5);
    assert_eq!(texts(&page.feed), texts(&items[0..5]));
    assert_eq!(page.cursor, Some("5".to_string()));
}

#[test]
fn last_page_has_no_cursor() {
    let items = uris(12);
    let page = paginate(&items, &Some("10".to_string()), 5);
    assert_eq!(texts(&page.feed), texts(&items[10..12]));
    assert_eq!(page.cursor, None);
    let exact = paginate(&uris(10), &Some("5".to_string()), 5);
    assert_eq!(exact.feed.len(), 5);
    assert_eq!(exact.cursor, None);
}

#[test]
fn page_past_the_end_is_empty() {
    let items = uris(3);
    let page = paginate(&items, &Some("3".to_string()), 5);
    assert!(page.feed.is_empty());
    assert_eq!(page.cursor, None);
    let far = paginate(&items, &Some(usize::MAX.to_string()), 100);
    assert!(far.feed.is_empty());
    assert_eq!(far.cursor, None);
}

#[test]
fn unreadable_cursor_starts_from_the_first_item() {
    let items = uris(7);
    let page = paginate(&items, &Some("not a cursor".to_string()), 5);
    assert_eq!(texts(&page.feed), texts(&items[0..5]));
    assert_eq!(page.cursor, Some("5".to_string()));
}

#[test]
fn empty_list_gives_one_empty_page() {
    let page = paginate(&Vec::new(), &None, 5);
    assert!(page.feed.is_empty());
    assert_eq!(page.cursor, None);
}

#[test]
fn chained_pages_give_every_item_once() {
    for count in [0usize, 1, 4, 5, 6, 10, 12, 23] {
        for size in [1usize, 2, 5, 100] {
            let items = uris(count);
            let mut seen: Vec<String> = Vec::new();
            let mut cursor: Option<String> = None;
            let mut requests = 0;
            loop {
                let page = paginate(&items, &cursor, size);
                requests += 1;
                seen.extend(texts(&page.feed));
                cursor = page.cursor;
                if cursor.is_none() {
                    break;
                }
                assert!(requests <= count + 1);
            }
            assert_eq!(seen, texts(&items));
        }
    }
}
