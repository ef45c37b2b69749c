//! Book value types. Books are referenced by the other entities through the
//! embedded shape `BookEmbed`; identifiers and timestamps are carried as
//! plain strings and epoch milliseconds.

use vstd::prelude::*;
use crate::catalog::{GenreEmbed, PublisherEmbed, SourceEmbed};
use crate::authors::AuthorEmbed;

verus! {

#[derive(Debug, Clone)]
pub struct BookImageSource {
    pub url: String,
    pub source: SourceEmbed,
}

#[derive(Debug, Clone)]
pub struct BookPreviewSource {
    pub url: String,
    pub source: SourceEmbed,
}

#[derive(Debug, Clone)]
pub enum BookFormat {
    Paperback,
    Hardcover,
    EBook,
    Audiobook,
}

#[derive(Debug, Clone)]
pub struct Book {
    pub id: Option<String>,
    pub isbn: String,
    pub isbn13: String,
    pub title: String,
    pub subtitle: Option<String>,
    pub description: Option<String>,
    pub num_pages: Option<i32>,
    pub published_date: Option<i64>,
    pub format: BookFormat,
    pub images: Vec<BookImageSource>,
    pub preview: Vec<BookPreviewSource>,
    pub genres: Vec<GenreEmbed>,
    pub authors: Vec<AuthorEmbed>,
    pub publishers: Vec<PublisherEmbed>,
    pub languages: Vec<String>,
    pub reviews: Vec<String>,
}

#[derive(Debug, Clone)]
pub struct BookEmbed {
    pub book_id: String,
    pub title: String,
    pub description: Option<String>,
    pub image: Option<String>,
}

pub struct BookEmbedV {
    pub book_id: Seq<char>,
    pub title: Seq<char>,
    pub description: Option<Seq<char>>,
    pub image: Option<Seq<char>>,
}

impl View for BookEmbed {
    type V = BookEmbedV;

    open spec fn view(&self) -> BookEmbedV {
        BookEmbedV {
            book_id: self.book_id@,
            title: self.title@,
            description: self.description.deep_view(),
            image: self.image.deep_view(),
        }
    }
}

impl DeepView for BookEmbed {
    type V = BookEmbedV;

    open spec fn deep_view(&self) -> BookEmbedV {
        self.view()
    }
}

impl BookEmbed {
    pub fn duplicate(&self) -> (r: Self)
        ensures
            r@ == self@,
    {
        BookEmbed {
            book_id: self.book_id.clone(),
            title: self.title.clone(),
            description: crate::util::clone_opt_string(&self.description),
            image: crate::util::clone_opt_string(&self.image),
        }
    }

    /// Compares two embedded books by value.
    pub fn same_as(&self, other: &BookEmbed) -> (r: bool)
        ensures
            r == (self@ == other@),
    {
        let eq = self.book_id.eq(&other.book_id) && self.title.eq(&other.title)
            && crate::util::opt_string_eq(&self.description, &other.description)
            && crate::util::opt_string_eq(&self.image, &other.image);
        eq
    }

    pub fn from_book(book: &Book) -> (r: Self)
        requires
            book.id is Some,
        ensures
            r.book_id@ == book.id->0@,
            r.title@ == book.title@,
            r.description.deep_view() == book.description.deep_view(),
            r.image.deep_view() == (if book.images@.len() > 0 {
                Some(book.images@.first().url@)
            } else {
                None::<Seq<char>>
            }),
    {
        let image: Option<String> = if book.images.len() > 0 {
            Some(book.images[0].url.clone())
        } else {
            None
        };
        BookEmbed {
            book_id: match &book.id {
                Some(id) => id.clone(),
                None => unreached(),
            },
            title: book.title.clone(),
            description: crate::util::clone_opt_string(&book.description),
            image,
        }
    }
}

#[derive(Debug, Clone)]
pub struct BookNode {
    pub book_id: String,
    pub title: String,
}

impl BookNode {
    pub fn from_book(book: &Book) -> (r: Self)
        requires
            book.id is Some,
        ensures
            r.book_id@ == book.id->0@,
            r.title@ == book.title@,
    {
        BookNode {
            book_id: match &book.id {
                Some(id) => id.clone(),
                None => unreached(),
            },
            title: book.title.clone(),
        }
    }
}

#[derive(Debug, Clone)]
pub enum BookReadStatus {
    Read,
    Unread,
    InProgress,
}

#[derive(Debug, Clone)]
pub struct AddedToShelf {
    pub status: String,
    pub ts: i64,
}

} // verus!
