//! User records: roles, preferences, the document shape, the embedded
//! shape, and the graph node mirrored for readers.

use vstd::prelude::*;
use crate::books::{BookEmbed, BookEmbedV};

verus! {

#[derive(Debug, Clone)]
pub enum UserRole {
    Admin,
    Reader,
}

impl UserRole {
    pub fn kind(&self) -> (r: &'static str)
        ensures
            self is Admin ==> r@ == "admin"@,
            self is Reader ==> r@ == "reader"@,
    {
        match self {
            Self::Admin => "admin",
            Self::Reader => "reader",
        }
    }

    pub fn is_admin(&self) -> (r: bool)
        ensures
            r == (self is Admin),
    {
        matches!(self, Self::Admin)
    }

    /// Per-kind graph participation policy: readers are mirrored as graph
    /// nodes, administrators are not.
    pub fn save_in_noe4j(&self) -> (r: bool)
        ensures
            r == (self is Reader),
    {
        matches!(self, Self::Reader)
    }
}

impl Default for UserRole {
    fn default() -> (r: Self)
        ensures
            r is Reader,
    {
        Self::Reader
    }
}

#[derive(Debug, Clone)]
pub struct UserPreference {
    pub authors: Vec<String>,
    pub genres: Vec<String>,
    pub languages: Vec<String>,
}

pub struct UserPreferenceV {
    pub authors: Seq<Seq<char>>,
    pub genres: Seq<Seq<char>>,
    pub languages: Seq<Seq<char>>,
}

impl View for UserPreference {
    type V = UserPreferenceV;

    open spec fn view(&self) -> UserPreferenceV {
        UserPreferenceV {
            authors: self.authors.deep_view(),
            genres: self.genres.deep_view(),
            languages: self.languages.deep_view(),
        }
    }
}

impl UserPreference {
    /// Compares two preferences by value.
    pub fn same_as(&self, other: &UserPreference) -> (r: bool)
        ensures
            r == (self@ == other@),
    {
        let eq = crate::util::strings_eq(&self.authors, &other.authors)
            && crate::util::strings_eq(&self.genres, &other.genres)
            && crate::util::strings_eq(&self.languages, &other.languages);
        eq
    }

    pub fn duplicate(&self) -> (r: Self)
        ensures
            r@ == self@,
    {
        UserPreference {
            authors: crate::util::clone_strings(&self.authors),
            genres: crate::util::clone_strings(&self.genres),
            languages: crate::util::clone_strings(&self.languages),
        }
    }
}

#[derive(Debug, Clone)]
pub struct User {
    pub id: Option<String>,
    pub username: String,
    pub password_hash: String,
    pub name: String,
    pub image: Option<String>,
    pub role: UserRole,
    pub preference: Option<UserPreference>,
    pub shelf: Option<Vec<BookEmbed>>,
    pub last_reviews: Option<Vec<String>>,
    pub created_at: i64,
    pub updated_at: i64,
}

pub struct UserV {
    pub id: Option<Seq<char>>,
    pub username: Seq<char>,
    pub password_hash: Seq<char>,
    pub name: Seq<char>,
    pub image: Option<Seq<char>>,
    pub role: UserRole,
    pub preference: Option<UserPreferenceV>,
    pub shelf: Option<Seq<BookEmbedV>>,
    pub last_reviews: Option<Seq<Seq<char>>>,
    pub created_at: i64,
    pub updated_at: i64,
}

impl View for User {
    type V = UserV;

    open spec fn view(&self) -> UserV {
        UserV {
            id: self.id.deep_view(),
            username: self.username@,
            password_hash: self.password_hash@,
            name: self.name@,
            image: self.image.deep_view(),
            role: self.role,
            preference: match self.preference {
                Some(p) => Some(p@),
                None => None,
            },
            shelf: match self.shelf {
                Some(s) => Some(s.deep_view()),
                None => None,
            },
            last_reviews: self.last_reviews.deep_view(),
            created_at: self.created_at,
            updated_at: self.updated_at,
        }
    }
}

impl DeepView for User {
    type V = UserV;

    open spec fn deep_view(&self) -> UserV {
        self.view()
    }
}

/// Compares two shelves by value.
pub fn shelf_eq(a: &Vec<BookEmbed>, b: &Vec<BookEmbed>) -> (r: bool)
    ensures
        r == (a.deep_view() == b.deep_view()),
{
    if a.len() != b.len() {
        proof {
            assert(a.deep_view().len() != b.deep_view().len());
        }
        return false;
    }
    let mut i: usize = 0;
    while i < a.len()
        invariant
            a@.len() == b@.len(),
            i <= a@.len(),
            forall|j: int| 0 <= j < i ==> a.deep_view()[j] == b.deep_view()[j],
        decreases a@.len() - i,
    {
        if !a[i].same_as(&b[i]) {
            proof {
                assert(a.deep_view()[i as int] != b.deep_view()[i as int]);
            }
            return false;
        }
        i = i + 1;
    }
    proof {
        assert(a.deep_view() =~= b.deep_view());
    }
    true
}

pub fn clone_shelf(v: &Vec<BookEmbed>) -> (r: Vec<BookEmbed>)
    ensures
        r.deep_view() == v.deep_view(),
{
    let mut r: Vec<BookEmbed> = Vec::new();
    let mut i: usize = 0;
    while i < v.len()
        invariant
            i <= v.len(),
            r.deep_view() =~= v.deep_view().take(i as int),
        decreases v.len() - i,
    {
        proof {
            assert(r.deep_view().len() == i as int);
            assert(r@.len() == i as int);
        }
        r.push(v[i].duplicate());
        proof {
            assert forall|j: int| 0 <= j < i + 1 implies r.deep_view()[j] == v.deep_view().take(
                i as int + 1,
            )[j] by {
                assert(r.deep_view()[j] == r@[j].deep_view());
                assert(v.deep_view().take(i as int + 1)[j] == v@[j].deep_view());
            }
            assert(r.deep_view() =~= v.deep_view().take(i as int + 1));
        }
        i = i + 1;
    }
    proof {
        assert(r.deep_view() =~= v.deep_view());
    }
    r
}

impl User {
    pub fn duplicate(&self) -> (r: Self)
        ensures
            r@ == self@,
    {
        User {
            id: crate::util::clone_opt_string(&self.id),
            username: self.username.clone(),
            password_hash: self.password_hash.clone(),
            name: self.name.clone(),
            image: crate::util::clone_opt_string(&self.image),
            role: match self.role {
                UserRole::Admin => UserRole::Admin,
                UserRole::Reader => UserRole::Reader,
            },
            preference: match &self.preference {
                Some(p) => Some(p.duplicate()),
                None => None,
            },
            shelf: match &self.shelf {
                Some(s) => Some(clone_shelf(s)),
                None => None,
            },
            last_reviews: crate::util::clone_opt_strings(&self.last_reviews),
            created_at: self.created_at,
            updated_at: self.updated_at,
        }
    }
}

#[derive(Debug, Clone)]
pub struct ReaderNode {
    pub id: Option<String>,
    pub user_id: String,
    pub name: String,
}

impl ReaderNode {
    pub fn new(user_id: String, name: String) -> (r: Self)
        ensures
            r.id is None,
            r.user_id@ == user_id@,
            r.name@ == name@,
    {
        Self { id: None, user_id, name }
    }

    pub fn from_user(user: &User) -> (r: Self)
        requires
            user.id is Some,
        ensures
            r.id is None,
            r.user_id@ == user.id->0@,
            r.name@ == user.name@,
    {
        Self::new(
            match &user.id {
                Some(id) => id.clone(),
                None => unreached(),
            },
            user.name.clone(),
        )
    }
}

/// A review as the write protocol carries it: identifiers as plain
/// strings, the score in its decimal store representation — the protocol
/// passes it through without interpreting it — and the timestamp as epoch
/// milliseconds.
#[derive(Debug, Clone)]
pub struct Review {
    pub id: Option<String>,
    pub book_id: String,
    pub user: UserEmbed,
    pub content: String,
    pub score: String,
    pub date_added: Option<i64>,
}

#[derive(Debug, Clone)]
pub struct UserEmbed {
    pub id: String,
    pub name: String,
    pub image: Option<String>,
}

impl UserEmbed {
    pub fn from_user(user: &User) -> (r: Self)
        requires
            user.id is Some,
        ensures
            r.id@ == user.id->0@,
            r.name@ == user.name@,
            r.image.deep_view() == user.image.deep_view(),
    {
        Self {
            id: match &user.id {
                Some(id) => id.clone(),
                None => unreached(),
            },
            name: user.name.clone(),
            image: crate::util::clone_opt_string(&user.image),
        }
    }
}

} // verus!
