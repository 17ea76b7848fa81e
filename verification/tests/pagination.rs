use lotr_api::Pagination;

#[test]
fn all_three_fields_are_written_in_order() {
    assert_eq!(Pagination::new(10, 2, 1).get_url(), "limit=10&offset=2&page=1");
}

#[test]
fn zero_fields_are_left_out() {
    assert_eq!(Pagination::new(0, 0, 0).get_url(), "");
    assert_eq!(Pagination::new(7, 0, 0).get_url(), "limit=7");
    assert_eq!(Pagination::new(0, 7, 0).get_url(), "offset=7");
    assert_eq!(Pagination::new(0, 0, 7).get_url(), "page=7");
    assert_eq!(Pagination::new(1, 0, 3).get_url(), "limit=1&page=3");
    assert_eq!(Pagination::new(0, 20, 3).get_url(), "offset=20&page=3");
    assert_eq!(Pagination::new(100, 20, 0).get_url(), "limit=100&offset=20");
}

#[test]
fn largest_values_are_written_in_full() {
    assert_eq!(
        Pagination::new(u32::MAX, 4294967295, 1000000000).get_url(),
        "limit=4294967295&offset=4294967295&page=1000000000"
    );
}

#[test]
fn new_keeps_the_fields() {
    let pagination = Pagination::new(3, 4, 5);
    assert_eq!(pagination.limit, 3);
    assert_eq!(pagination.offset, 4);
    assert_eq!(pagination.page, 5);
    assert_eq!(pagination, Pagination { limit: 3, offset: 4, page: 5 });
}
