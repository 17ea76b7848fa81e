use lotr_api::attribute::{Attribute, BookAttribute, CharacterAttribute, QuoteAttribute};
use lotr_api::filter::{Filter, Operator};
use lotr_api::request::GetUrl;
use lotr_api::sort::{Sort, SortOrder};
use lotr_api::{Error, ItemType, Pagination, Request, RequestBuilder};

#[test]
fn test_simple_request_url() {
    let request = RequestBuilder::new(ItemType::Book).build().unwrap();
    assert_eq!(request.get_url(), "book");
}

#[test]
fn test_request_with_id_url() {
    let request = RequestBuilder::new(ItemType::Book)
        .id("123".to_string())
        .build()
        .unwrap();
    assert_eq!(request.get_url(), "book/123");
}

#[test]
fn test_request_with_secondary_item_type_url() {
    let request = RequestBuilder::new(ItemType::Book)
        .secondary_item_type(ItemType::Chapter)
        .build();
    assert!(request.is_err());

    let request = RequestBuilder::new(ItemType::Character)
        .id("123".to_string())
        .secondary_item_type(ItemType::Quote)
        .build()
        .unwrap();

    assert_eq!(request.get_url(), "character/123/quote");
}

#[test]
fn test_request_with_sort_url() {
    let request = RequestBuilder::new(ItemType::Book)
        .sort(Sort::new(
            SortOrder::Ascending,
            Attribute::Book(BookAttribute::Name),
        ))
        .build()
        .unwrap();

    assert_eq!(request.get_url(), "book?sort=name:asc");
}

#[test]
fn test_request_with_filter_url() {
    let request = RequestBuilder::new(ItemType::Book)
        .filter(Filter::new_match(
            Attribute::Book(BookAttribute::Name),
            Operator::Eq,
            vec!["The Fellowship of the Ring".to_string()],
        ).unwrap())
        .build()
        .unwrap();

    assert_eq!(request.get_url(), "book?name=The Fellowship of the Ring");
}

#[test]
fn test_request_with_pagination_url() {
    let request = RequestBuilder::new(ItemType::Book)
        .pagination(Pagination::new(10, 10, 2))
        .build()
        .unwrap();

    assert_eq!(request.get_url(), "book?limit=10&offset=10&page=2");
}

#[test]
fn test_full_request_url() {
    let request = RequestBuilder::new(ItemType::Character)
        .id("123".to_string())
        .secondary_item_type(ItemType::Quote)
        .sort(Sort::new(
            SortOrder::Ascending,
            Attribute::Quote(QuoteAttribute::Dialog),
        ))
        .filter(Filter::new_match(
            Attribute::Quote(QuoteAttribute::Dialog),
            Operator::Eq,
            vec!["Deagol!".to_string()],
        ).unwrap())
        .pagination(Pagination::new(10, 10, 2))
        .build()
        .unwrap();

    assert_eq!(
        request.get_url(),
        "character/123/quote?sort=dialog:asc&dialog=Deagol!&limit=10&offset=10&page=2"
    );
}

fn error_of(built: Result<Request, Error>) -> Error {
    match built {
        Ok(request) => panic!("built a request for {}", request.get_url()),
        Err(error) => error,
    }
}

#[test]
fn secondary_item_type_without_id_is_missing_id() {
    let built = RequestBuilder::new(ItemType::Character)
        .secondary_item_type(ItemType::Quote)
        .build();
    assert_eq!(error_of(built), Error::MissingId);
}

#[test]
fn sort_by_attribute_of_another_type_is_sort_type_mismatch() {
    let built = RequestBuilder::new(ItemType::Character)
        .id("x".to_string())
        .secondary_item_type(ItemType::Quote)
        .sort(Sort::new(
            SortOrder::Ascending,
            Attribute::Book(BookAttribute::Name),
        ))
        .build();
    assert_eq!(error_of(built), Error::SortTypeMismatch);
}

#[test]
fn filter_on_attribute_of_another_type_is_filter_type_mismatch() {
    let built = RequestBuilder::new(ItemType::Character)
        .id("123".to_string())
        .secondary_item_type(ItemType::Quote)
        .filter(Filter::new_match(
            Attribute::Book(BookAttribute::Name),
            Operator::Eq,
            vec!["The Fellowship of the Ring".to_string()],
        ).unwrap())
        .build();
    assert_eq!(error_of(built), Error::FilterTypeMismatch);
}

#[test]
fn sort_must_fit_the_secondary_type_not_the_primary() {
    let built = RequestBuilder::new(ItemType::Character)
        .id("123".to_string())
        .secondary_item_type(ItemType::Quote)
        .sort(Sort::new(
            SortOrder::Descending,
            Attribute::Character(CharacterAttribute::Name),
        ))
        .build();
    assert_eq!(error_of(built), Error::SortTypeMismatch);
}

#[test]
fn missing_id_is_reported_before_a_mismatch() {
    let built = RequestBuilder::new(ItemType::Character)
        .secondary_item_type(ItemType::Quote)
        .sort(Sort::new(
            SortOrder::Ascending,
            Attribute::Book(BookAttribute::Name),
        ))
        .filter(Filter::Exists(Attribute::Book(BookAttribute::Name), true))
        .build();
    assert_eq!(error_of(built), Error::MissingId);
}

#[test]
fn sort_mismatch_is_reported_before_filter_mismatch() {
    let built = RequestBuilder::new(ItemType::Movie)
        .filter(Filter::Exists(Attribute::Book(BookAttribute::Name), true))
        .sort(Sort::new(
            SortOrder::Ascending,
            Attribute::Book(BookAttribute::Name),
        ))
        .build();
    assert_eq!(error_of(built), Error::SortTypeMismatch);
}

#[test]
fn url_does_not_depend_on_the_order_of_the_builder_calls() {
    let forward = RequestBuilder::new(ItemType::Character)
        .id("123".to_string())
        .secondary_item_type(ItemType::Quote)
        .sort(Sort::new(
            SortOrder::Descending,
            Attribute::Quote(QuoteAttribute::Movie),
        ))
        .filter(Filter::Exists(Attribute::Quote(QuoteAttribute::Dialog), false))
        .pagination(Pagination::new(5, 0, 3))
        .build()
        .unwrap();
    let backward = RequestBuilder::new(ItemType::Character)
        .pagination(Pagination::new(5, 0, 3))
        .filter(Filter::Exists(Attribute::Quote(QuoteAttribute::Dialog), false))
        .sort(Sort::new(
            SortOrder::Descending,
            Attribute::Quote(QuoteAttribute::Movie),
        ))
        .secondary_item_type(ItemType::Quote)
        .id("123".to_string())
        .build()
        .unwrap();
    assert_eq!(
        forward.get_url(),
        "character/123/quote?sort=movie:desc&!dialog&limit=5&page=3"
    );
    assert_eq!(forward.get_url(), backward.get_url());
    assert_eq!(forward.get_url(), forward.get_url());
}

#[test]
fn request_without_optional_parts_is_the_segment_of_its_type() {
    for item_type in [
        ItemType::Book,
        ItemType::Movie,
        ItemType::Quote,
        ItemType::Character,
        ItemType::Chapter,
    ] {
        let request = RequestBuilder::new(item_type).build().unwrap();
        assert_eq!(request.get_url(), item_type.get_url());
        assert_eq!(Request::new(item_type).get_url(), item_type.get_url());
    }
}

#[test]
fn pagination_of_zeros_adds_no_query() {
    let request = RequestBuilder::new(ItemType::Movie)
        .pagination(Pagination::new(0, 0, 0))
        .build()
        .unwrap();
    assert_eq!(request.get_url(), "movie");
}

#[test]
fn later_call_of_a_builder_method_replaces_the_earlier() {
    let request = RequestBuilder::new(ItemType::Book)
        .id("1".to_string())
        .id("2".to_string())
        .pagination(Pagination::new(1, 1, 1))
        .pagination(Pagination::new(0, 7, 0))
        .build()
        .unwrap();
    assert_eq!(request.get_url(), "book/2?offset=7");
}

#[test]
fn item_type_of_a_request_is_the_secondary_where_there_is_one() {
    let plain = RequestBuilder::new(ItemType::Movie).build().unwrap();
    assert_eq!(plain.get_item_type(), ItemType::Movie);
    let by_id = RequestBuilder::new(ItemType::Movie)
        .id("5cd95395de30eff6ebccde5b".to_string())
        .build()
        .unwrap();
    assert_eq!(by_id.get_item_type(), ItemType::Movie);
    let related = RequestBuilder::new(ItemType::Movie)
        .id("5cd95395de30eff6ebccde5b".to_string())
        .secondary_item_type(ItemType::Quote)
        .build()
        .unwrap();
    assert_eq!(related.get_item_type(), ItemType::Quote);
    assert_eq!(related.get_url(), "movie/5cd95395de30eff6ebccde5b/quote");
}

#[test]
fn id_is_written_as_it_is() {
    let request = RequestBuilder::new(ItemType::Chapter)
        .id("a b/c?d".to_string())
        .build()
        .unwrap();
    assert_eq!(request.get_url(), "chapter/a b/c?d");
    let empty = RequestBuilder::new(ItemType::Chapter)
        .id(String::new())
        .build()
        .unwrap();
    assert_eq!(empty.get_url(), "chapter/");
}

#[test]
fn copy_of_a_request_has_the_same_address() {
    let builder = RequestBuilder::new(ItemType::Character)
        .id("123".to_string())
        .filter(Filter::new_match(
            Attribute::Character(CharacterAttribute::Realm),
            Operator::Eq,
            vec!["Gondor".to_string(), "Rohan".to_string()],
        ).unwrap())
        .pagination(Pagination::new(0, 3, 0));
    let first = builder.clone().build().unwrap();
    let second = builder.build().unwrap();
    let copy = first.clone();
    assert_eq!(first, second);
    assert_eq!(copy, first);
    assert_eq!(copy.get_url(), "character/123?realm=Gondor,Rohan&offset=3");
    assert_eq!(copy.get_url(), second.get_url());
    assert_eq!(copy.get_item_type(), ItemType::Character);
}

#[test]
fn filter_that_tests_for_an_attribute_is_written_bare() {
    let present = RequestBuilder::new(ItemType::Character)
        .filter(Filter::Exists(Attribute::Character(CharacterAttribute::Spouse), true))
        .build()
        .unwrap();
    assert_eq!(present.get_url(), "character?spouse");
    let missing = RequestBuilder::new(ItemType::Character)
        .filter(Filter::Exists(Attribute::Character(CharacterAttribute::Spouse), false))
        .sort(Sort::new(
            SortOrder::Descending,
            Attribute::Character(CharacterAttribute::Name),
        ))
        .build()
        .unwrap();
    assert_eq!(missing.get_url(), "character?sort=name:desc&!spouse");
}
