//! The wire names of item types and attributes.

use crate::item::attribute::{
    Attribute, BookAttribute, ChapterAttribute, CharacterAttribute, MovieAttribute,
    QuoteAttribute,
};
use crate::item::ItemType;
use crate::request::GetUrl;
use vstd::prelude::*;
use vstd::string::*;

verus! {

/// Whether the two texts are the same.
fn same_text(first: &str, second: &str) -> (same: bool)
    ensures
        same == (first@ == second@),
{
    first.to_owned() == second.to_owned()
}

impl ItemType {
    /// No two item types share a segment.
    pub proof fn lemma_url_injective(self, other: ItemType)
        ensures
            self.url() == other.url() <==> self == other,
    {
        reveal_strlit("book");
        reveal_strlit("movie");
        reveal_strlit("quote");
        reveal_strlit("character");
        reveal_strlit("chapter");
        if self.url() == other.url() {
            assert(self.url().len() == other.url().len());
            assert(self.url()[0] == other.url()[0]);
        }
    }

    /// The item type whose segment is `value`, if there is one.
    pub fn from_url(value: &str) -> (item_type: Option<ItemType>)
        ensures
            forall|other: ItemType| item_type == Some(other) <==> other.url() == value@,
    {
        let item_type = if same_text(value, "book") {
            Some(ItemType::Book)
        } else if same_text(value, "movie") {
            Some(ItemType::Movie)
        } else if same_text(value, "quote") {
            Some(ItemType::Quote)
        } else if same_text(value, "character") {
            Some(ItemType::Character)
        } else if same_text(value, "chapter") {
            Some(ItemType::Chapter)
        } else {
            None
        };
        proof {
            assert forall|other: ItemType| item_type == Some(other) <==> other.url()
                == value@ by {
                if let Some(found) = item_type {
                    found.lemma_url_injective(other);
                }
            }
        }
        item_type
    }
}

impl GetUrl for ItemType {
    /// The path segment of the collection.
    open spec fn url(&self) -> Seq<char> {
        match self {
            ItemType::Book => "book"@,
            ItemType::Movie => "movie"@,
            ItemType::Quote => "quote"@,
            ItemType::Character => "character"@,
            ItemType::Chapter => "chapter"@,
        }
    }

    fn get_url(&self) -> (text: String) {
        match self {
            ItemType::Book => "book",
            ItemType::Movie => "movie",
            ItemType::Quote => "quote",
            ItemType::Character => "character",
            ItemType::Chapter => "chapter",
        }.to_owned()
    }
}

impl GetUrl for Attribute {
    /// The name of the field, as the type that has it names it.
    open spec fn url(&self) -> Seq<char> {
        match self {
            Attribute::Book(attribute) => attribute.url(),
            Attribute::Movie(attribute) => attribute.url(),
            Attribute::Quote(attribute) => attribute.url(),
            Attribute::Character(attribute) => attribute.url(),
            Attribute::Chapter(attribute) => attribute.url(),
        }
    }

    fn get_url(&self) -> (text: String) {
        match self {
            Attribute::Book(attribute) => attribute.get_url(),
            Attribute::Movie(attribute) => attribute.get_url(),
            Attribute::Quote(attribute) => attribute.get_url(),
            Attribute::Character(attribute) => attribute.get_url(),
            Attribute::Chapter(attribute) => attribute.get_url(),
        }
    }
}

impl Attribute {
    /// Every attribute has a name.
    pub proof fn lemma_url_not_empty(self)
        ensures
            self.url().len() > 0,
    {
        reveal_strlit("_id");
        reveal_strlit("name");
        reveal_strlit("runtimeInMinutes");
        reveal_strlit("budgetInMillions");
        reveal_strlit("boxOfficeRevenueInMillions");
        reveal_strlit("academyAwardNominations");
        reveal_strlit("academyAwardWins");
        reveal_strlit("rottenTomatoesScore");
        reveal_strlit("dialog");
        reveal_strlit("movie");
        reveal_strlit("character");
        reveal_strlit("height");
        reveal_strlit("gender");
        reveal_strlit("birth");
        reveal_strlit("spouse");
        reveal_strlit("death");
        reveal_strlit("realm");
        reveal_strlit("hair");
        reveal_strlit("wikiUrl");
        reveal_strlit("chapterName");
        reveal_strlit("book");
    }
}

impl GetUrl for BookAttribute {
    open spec fn url(&self) -> Seq<char> {
        match self {
            BookAttribute::Id => "_id"@,
            BookAttribute::Name => "name"@,
        }
    }

    fn get_url(&self) -> (text: String) {
        match self {
            BookAttribute::Id => "_id",
            BookAttribute::Name => "name",
        }.to_owned()
    }
}

impl GetUrl for MovieAttribute {
    open spec fn url(&self) -> Seq<char> {
        match self {
            MovieAttribute::Id => "_id"@,
            MovieAttribute::Name => "name"@,
            MovieAttribute::RuntimeInMinutes => "runtimeInMinutes"@,
            MovieAttribute::BudgetInMillions => "budgetInMillions"@,
            MovieAttribute::BoxOfficeRevenueInMillions => "boxOfficeRevenueInMillions"@,
            MovieAttribute::AcademyAwardNominations => "academyAwardNominations"@,
            MovieAttribute::AcademyAwardWins => "academyAwardWins"@,
            MovieAttribute::RottenTomatoesScore => "rottenTomatoesScore"@,
        }
    }

    fn get_url(&self) -> (text: String) {
        match self {
            MovieAttribute::Id => "_id",
            MovieAttribute::Name => "name",
            MovieAttribute::RuntimeInMinutes => "runtimeInMinutes",
            MovieAttribute::BudgetInMillions => "budgetInMillions",
            MovieAttribute::BoxOfficeRevenueInMillions => "boxOfficeRevenueInMillions",
            MovieAttribute::AcademyAwardNominations => "academyAwardNominations",
            MovieAttribute::AcademyAwardWins => "academyAwardWins",
            MovieAttribute::RottenTomatoesScore => "rottenTomatoesScore",
        }.to_owned()
    }
}

impl GetUrl for QuoteAttribute {
    open spec fn url(&self) -> Seq<char> {
        match self {
            QuoteAttribute::Id => "_id"@,
            QuoteAttribute::Dialog => "dialog"@,
            QuoteAttribute::Movie => "movie"@,
            QuoteAttribute::Character => "character"@,
        }
    }

    fn get_url(&self) -> (text: String) {
        match self {
            QuoteAttribute::Id => "_id",
            QuoteAttribute::Dialog => "dialog",
            QuoteAttribute::Movie => "movie",
            QuoteAttribute::Character => "character",
        }.to_owned()
    }
}

impl GetUrl for CharacterAttribute {
    open spec fn url(&self) -> Seq<char> {
        match self {
            CharacterAttribute::Id => "_id"@,
            CharacterAttribute::Height => "height"@,
            CharacterAttribute::Gender => "gender"@,
            CharacterAttribute::Birth => "birth"@,
            CharacterAttribute::Spouse => "spouse"@,
            CharacterAttribute::Death => "death"@,
            CharacterAttribute::Realm => "realm"@,
            CharacterAttribute::Hair => "hair"@,
            CharacterAttribute::Name => "name"@,
            CharacterAttribute::WikiUrl => "wikiUrl"@,
        }
    }

    fn get_url(&self) -> (text: String) {
        match self {
            CharacterAttribute::Id => "_id",
            CharacterAttribute::Height => "height",
            CharacterAttribute::Gender => "gender",
            CharacterAttribute::Birth => "birth",
            CharacterAttribute::Spouse => "spouse",
            CharacterAttribute::Death => "death",
            CharacterAttribute::Realm => "realm",
            CharacterAttribute::Hair => "hair",
            CharacterAttribute::Name => "name",
            CharacterAttribute::WikiUrl => "wikiUrl",
        }.to_owned()
    }
}

impl GetUrl for ChapterAttribute {
    open spec fn url(&self) -> Seq<char> {
        match self {
            ChapterAttribute::Id => "_id"@,
            ChapterAttribute::ChapterName => "chapterName"@,
            ChapterAttribute::Book => "book"@,
        }
    }

    fn get_url(&self) -> (text: String) {
        match self {
            ChapterAttribute::Id => "_id",
            ChapterAttribute::ChapterName => "chapterName",
            ChapterAttribute::Book => "book",
        }.to_owned()
    }
}

} // verus!
