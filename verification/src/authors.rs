//! Author records: the document shape, the embedded shape, and the graph
//! node mirrored for authors. Store identifiers are carried as plain hex
//! strings and timestamps as epoch milliseconds.

use vstd::prelude::*;
use crate::external::{ExternalId, ExternalIdV};

verus! {

#[derive(Debug, Clone)]
pub struct Author {
    pub id: Option<String>,
    pub name: String,
    pub image_url: String,
    pub description: String,
    pub books: Vec<crate::books::BookEmbed>,
    pub external_id: Option<ExternalId>,
    pub created_at: i64,
    pub updated_at: i64,
}

pub struct AuthorV {
    pub id: Option<Seq<char>>,
    pub name: Seq<char>,
    pub image_url: Seq<char>,
    pub description: Seq<char>,
    pub books: Seq<crate::books::BookEmbedV>,
    pub external_id: Option<ExternalIdV>,
    pub created_at: i64,
    pub updated_at: i64,
}

impl View for Author {
    type V = AuthorV;

    open spec fn view(&self) -> AuthorV {
        AuthorV {
            id: self.id.deep_view(),
            name: self.name@,
            image_url: self.image_url@,
            description: self.description@,
            books: self.books.deep_view(),
            external_id: match self.external_id {
                Some(e) => Some(e@),
                None => None,
            },
            created_at: self.created_at,
            updated_at: self.updated_at,
        }
    }
}

impl DeepView for Author {
    type V = AuthorV;

    open spec fn deep_view(&self) -> AuthorV {
        self.view()
    }
}

impl Author {
    pub fn duplicate(&self) -> (r: Self)
        ensures
            r@ == self@,
    {
        let mut books: Vec<crate::books::BookEmbed> = Vec::new();
        let mut i: usize = 0;
        while i < self.books.len()
            invariant
                i <= self.books.len(),
                books.deep_view() =~= self.books.deep_view().take(i as int),
            decreases self.books.len() - i,
        {
            proof {
                assert(books.deep_view().len() == i as int);
                assert(books@.len() == i as int);
            }
            books.push(self.books[i].duplicate());
            proof {
                assert forall|j: int| 0 <= j < i + 1 implies books.deep_view()[j]
                    == self.books.deep_view().take(i as int + 1)[j] by {
                    assert(books.deep_view()[j] == books@[j].deep_view());
                    assert(self.books.deep_view().take(i as int + 1)[j]
                        == self.books@[j].deep_view());
                }
                assert(books.deep_view() =~= self.books.deep_view().take(i as int + 1));
            }
            i = i + 1;
        }
        proof {
            assert(books.deep_view() =~= self.books.deep_view());
        }
        Author {
            id: crate::util::clone_opt_string(&self.id),
            name: self.name.clone(),
            image_url: self.image_url.clone(),
            description: self.description.clone(),
            books,
            external_id: match &self.external_id {
                Some(e) => Some(e.duplicate()),
                None => None,
            },
            created_at: self.created_at,
            updated_at: self.updated_at,
        }
    }
}

#[derive(Debug, Clone)]
pub struct AuthorEmbed {
    pub id: String,
    pub name: String,
    pub image_url: String,
}

impl AuthorEmbed {
    pub fn from_author(author: &Author) -> (r: Self)
        requires
            author.id is Some,
        ensures
            r.id@ == author.id->0@,
            r.name@ == author.name@,
            r.image_url@ == author.image_url@,
    {
        Self {
            id: match &author.id {
                Some(id) => id.clone(),
                None => unreached(),
            },
            name: author.name.clone(),
            image_url: author.image_url.clone(),
        }
    }
}

#[derive(Debug, Clone)]
pub struct AuthorNode {
    pub id: Option<String>,
    pub author_id: String,
    pub name: String,
}

impl AuthorNode {
    pub fn from_author(author: &Author) -> (r: Self)
        requires
            author.id is Some,
        ensures
            r.id is None,
            r.author_id@ == author.id->0@,
            r.name@ == author.name@,
    {
        Self {
            id: None,
            author_id: match &author.id {
                Some(id) => id.clone(),
                None => unreached(),
            },
            name: author.name.clone(),
        }
    }
}

} // verus!
