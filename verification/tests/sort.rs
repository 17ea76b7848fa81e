use lotr_api::attribute::{Attribute, BookAttribute, CharacterAttribute, MovieAttribute};
use lotr_api::request::GetUrl;
use lotr_api::sort::{Sort, SortOrder};
use lotr_api::ItemType;

#[test]
fn sort_is_written_with_name_and_direction() {
    let sort = Sort::new(SortOrder::Ascending, Attribute::Book(BookAttribute::Name));
    assert_eq!(sort.get_url(), "sort=name:asc");
    let sort = Sort::new(
        SortOrder::Descending,
        Attribute::Movie(MovieAttribute::RottenTomatoesScore),
    );
    assert_eq!(sort.get_url(), "sort=rottenTomatoesScore:desc");
}

#[test]
fn directions_have_their_names() {
    assert_eq!(SortOrder::Ascending.get_url(), "asc");
    assert_eq!(SortOrder::Descending.get_url(), "desc");
}

#[test]
fn sort_belongs_to_the_type_of_its_attribute() {
    let sort = Sort::new(
        SortOrder::Ascending,
        Attribute::Character(CharacterAttribute::Hair),
    );
    assert_eq!(sort.get_item_type(), ItemType::Character);
    assert_eq!(sort.sort_type, SortOrder::Ascending);
    assert_eq!(sort.sort_by, Attribute::Character(CharacterAttribute::Hair));
}
