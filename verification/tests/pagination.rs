use desk_core::common::pages::count_pages;
use desk_core::common::{PaginatedResponse, PaginationParams};

fn as_a_double_computes(total: u64, page_size: u32) -> u32 {
    ((total as f64) / (page_size as f64)).ceil() as u32
}

#[test]
fn page_count_of_small_lists() {
    assert_eq!(count_pages(0, 20), 0);
    assert_eq!(count_pages(1, 20), 1);
    assert_eq!(count_pages(20, 20), 1);
    assert_eq!(count_pages(21, 20), 2);
    assert_eq!(count_pages(95, 10), 10);
    assert_eq!(count_pages(100, 10), 10);
    assert_eq!(count_pages(101, 10), 11);
}

#[test]
fn page_count_with_a_page_size_of_zero() {
    assert_eq!(count_pages(0, 0), 0);
    assert_eq!(count_pages(1, 0), u32::MAX);
    assert_eq!(count_pages(u64::MAX, 0), u32::MAX);
    assert_eq!(count_pages(0, 0), as_a_double_computes(0, 0));
    assert_eq!(count_pages(7, 0), as_a_double_computes(7, 0));
}

#[test]
fn page_count_is_held_within_u32() {
    assert_eq!(count_pages(u64::MAX, 1), u32::MAX);
    assert_eq!(count_pages(u64::MAX, u32::MAX), as_a_double_computes(u64::MAX, u32::MAX));
    assert_eq!(count_pages(4_294_967_295, 1), u32::MAX);
    assert_eq!(count_pages(4_294_967_296, 1), u32::MAX);
    assert_eq!(count_pages(4_294_967_294, 1), 4_294_967_294);
}

#[test]
fn page_count_agrees_with_doubles_on_a_grid() {
    for total in 0..400u64 {
        for page_size in 0..50u32 {
            assert_eq!(
                count_pages(total, page_size),
                as_a_double_computes(total, page_size),
                "total {} page_size {}",
                total,
                page_size
            );
        }
    }
}

#[test]
fn page_count_agrees_with_doubles_around_the_exact_limit() {
    let limit: u64 = 1 << 53;
    let sizes: [u32; 12] = [
        1,
        2,
        3,
        1 << 21,
        (1 << 21) + 1,
        (1 << 22) - 1,
        1 << 22,
        (1 << 22) + 1,
        (1 << 31) - 1,
        1 << 31,
        u32::MAX - 1,
        u32::MAX,
    ];
    for shift in 50..64u32 {
        let base: u64 = 1u64 << shift;
        for delta in 0..40u64 {
            for total in [base - delta, base + delta, base + (base >> 1) + delta, limit + delta * 7] {
                for page_size in sizes {
                    assert_eq!(
                        count_pages(total, page_size),
                        as_a_double_computes(total, page_size),
                        "total {} page_size {}",
                        total,
                        page_size
                    );
                }
            }
        }
    }
}

#[test]
fn page_count_agrees_with_doubles_on_scattered_values() {
    let mut state: u64 = 0x9E37_79B9_7F4A_7C15;
    let mut checked: u32 = 0;
    while checked < 200_000 {
        state = state.wrapping_mul(6364136223846793005).wrapping_add(1442695040888963407);
        let total = state >> (state % 13);
        state = state.wrapping_mul(6364136223846793005).wrapping_add(1442695040888963407);
        let page_size = ((state >> 32) as u32) >> (state % 11);
        assert_eq!(
            count_pages(total, page_size),
            as_a_double_computes(total, page_size),
            "total {} page_size {}",
            total,
            page_size
        );
        checked += 1;
    }
}

#[test]
fn page_count_agrees_with_doubles_where_the_quotient_rounds_to_a_whole_number() {
    // Quotients a hair above a whole number: the rest is one, the page size large.
    for full in [1u64 << 22, (1 << 22) + 1, (1 << 25) + 3, (1 << 30) + 12345, (1 << 31) + 1, (1 << 32) - 2] {
        for page_size in [1u32 << 22, (1 << 23) + 1, (1 << 30) + 7, u32::MAX - 5, u32::MAX] {
            for rest in 0..6u64 {
                let total = full * (page_size as u64) + rest;
                assert_eq!(
                    count_pages(total, page_size),
                    as_a_double_computes(total, page_size),
                    "total {} page_size {}",
                    total,
                    page_size
                );
            }
        }
    }
}

#[test]
fn paginated_response_marks_next_and_previous() {
    let first = PaginatedResponse::new(vec![1, 2, 3], 7, 1, 3);
    assert_eq!(first.data, vec![1, 2, 3]);
    assert_eq!(first.total, 7);
    assert_eq!(first.page, 1);
    assert_eq!(first.page_size, 3);
    assert_eq!(first.total_pages, 3);
    assert!(first.has_next);
    assert!(!first.has_previous);
    let last = PaginatedResponse::new(vec![7], 7, 3, 3);
    assert!(!last.has_next);
    assert!(last.has_previous);
    let middle = PaginatedResponse::new(vec![4, 5, 6], 7, 2, 3);
    assert!(middle.has_next);
    assert!(middle.has_previous);
    let empty: PaginatedResponse<u8> = PaginatedResponse::new(vec![], 0, 1, 20);
    assert_eq!(empty.total_pages, 0);
    assert!(!empty.has_next);
    assert!(!empty.has_previous);
}

#[test]
fn pagination_params_default_to_the_first_page_of_twenty() {
    let params = PaginationParams::default();
    assert_eq!(params.page, Some(1));
    assert_eq!(params.page_size, Some(20));
    assert_eq!(params.sort_by, None);
    assert_eq!(params.sort_order, None);
}
