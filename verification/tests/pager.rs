use discord_xiv_emotes::session::pager::{
    current_page_number, page, page_count, page_move, page_next, page_prev, PageMove, PAGE_SIZE,
};

fn catalog(n: usize) -> Vec<String> {
    (0..n).map(|i| format!("item{}", i)).collect()
}

#[test]
fn page_size_is_twenty_five() {
    assert_eq!(PAGE_SIZE, 25);
}

#[test]
fn thirty_items_first_page() {
    let items = catalog(30);
    let p = page(&items, None);
    assert_eq!(p.items, &items[0..25]);
    assert!(!p.has_prev);
    assert!(p.has_next);
    assert_eq!(current_page_number(None), 1);
    assert_eq!(page_count(30), 2);
}

#[test]
fn thirty_items_next_then_prev() {
    let items = catalog(30);
    let second = page_next(None, items.len());
    assert_eq!(second, Some(25));
    let p = page(&items, second);
    assert_eq!(p.items, &items[25..30]);
    assert!(p.has_prev);
    assert!(!p.has_next);
    assert_eq!(current_page_number(second), 2);
    let first = page_prev(second);
    assert_eq!(first, None);
    assert_eq!(page(&items, first).items, &items[0..25]);
}

#[test]
fn page_holds_min_of_page_size_and_rest() {
    for n in [0usize, 1, 24, 25, 26, 49, 50, 51, 100] {
        let items = catalog(n);
        let mut offset = 0;
        loop {
            let given = if offset == 0 { None } else { Some(offset) };
            let p = page(&items, given);
            let expected = if n >= offset { (n - offset).min(25) } else { 0 };
            assert_eq!(p.items.len(), expected);
            assert_eq!(p.has_prev, offset > 0);
            assert_eq!(p.has_next, offset + 25 < n);
            offset += 25;
            if offset >= n {
                break;
            }
        }
    }
}

#[test]
fn some_zero_is_the_first_page() {
    let items = catalog(30);
    let p = page(&items, Some(0));
    assert_eq!(p.items, &items[0..25]);
    assert!(!p.has_prev);
    assert!(p.has_next);
    assert_eq!(page_prev(Some(0)), None);
}

#[test]
fn offset_beyond_the_catalog_shows_nothing() {
    let items = catalog(10);
    let p = page(&items, Some(50));
    assert!(p.items.is_empty());
    assert!(p.has_prev);
    assert!(!p.has_next);
}

#[test]
fn prev_at_first_page_changes_nothing() {
    assert_eq!(page_prev(None), None);
}

#[test]
fn prev_from_second_page_is_first_page() {
    assert_eq!(page_prev(Some(25)), None);
    assert_eq!(page_prev(Some(10)), None);
}

#[test]
fn prev_from_later_page_steps_back() {
    assert_eq!(page_prev(Some(50)), Some(25));
    assert_eq!(page_prev(Some(75)), Some(50));
}

#[test]
fn next_on_short_catalog_stays_on_first_page() {
    assert_eq!(page_next(None, 0), None);
    assert_eq!(page_next(None, 25), None);
    assert_eq!(page_next(None, 26), Some(25));
}

#[test]
fn next_at_last_page_changes_nothing() {
    assert_eq!(page_next(Some(25), 30), Some(25));
    assert_eq!(page_next(Some(25), 50), Some(25));
    assert_eq!(page_next(Some(25), 51), Some(50));
    assert_eq!(page_next(Some(usize::MAX - 3), usize::MAX), Some(usize::MAX - 3));
}

#[test]
fn moves_never_leave_the_catalog() {
    let len = 130;
    let mut offset = None;
    let moves = [
        PageMove::Next, PageMove::Next, PageMove::Prev, PageMove::Next, PageMove::Next,
        PageMove::Next, PageMove::Next, PageMove::Next, PageMove::Next, PageMove::Prev,
        PageMove::Prev, PageMove::Prev, PageMove::Prev, PageMove::Prev, PageMove::Prev,
        PageMove::Prev, PageMove::Next,
    ];
    for step in moves {
        offset = page_move(offset, len, step);
        if let Some(o) = offset {
            assert_eq!(o % 25, 0);
            assert!(o < len);
        }
    }
    assert_eq!(offset, Some(25));
}

#[test]
fn page_count_rounds_up() {
    assert_eq!(page_count(0), 0);
    assert_eq!(page_count(1), 1);
    assert_eq!(page_count(25), 1);
    assert_eq!(page_count(26), 2);
    assert_eq!(page_count(50), 2);
    assert_eq!(page_count(51), 3);
    assert_eq!(page_count(usize::MAX), usize::MAX / 25 + 1);
}

#[test]
fn page_numbers_count_from_one() {
    assert_eq!(current_page_number(None), 1);
    assert_eq!(current_page_number(Some(0)), 1);
    assert_eq!(current_page_number(Some(25)), 2);
    assert_eq!(current_page_number(Some(100)), 5);
}
