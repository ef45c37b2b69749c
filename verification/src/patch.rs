//! Field-level document updates: the update operators that the repositories
//! apply to a stored document without replacing it whole. Each patch has an
//! exact functional meaning over the payload model.

use vstd::prelude::*;
use crate::books::{BookEmbed, BookEmbedV};
use crate::record::{Payload, PayloadV};
use crate::users::{User, UserPreference, UserPreferenceV, UserV};
use crate::authors::{Author, AuthorV};

verus! {

/// A single-field document update.
#[derive(Debug, Clone)]
pub enum DocPatch {
    SetName(String),
    SetPassword(String),
    SetImage(String),
    SetPreference(UserPreference),
    SetShelf(Vec<BookEmbed>),
    PushShelf(BookEmbed),
    PullShelf(String),
    SetReviews(Vec<String>),
    PushReview(String),
    PullReview(String),
    SetDescription(String),
    SetImageUrl(String),
    PushBook(BookEmbed),
    PullBook(String),
}

pub enum DocPatchV {
    SetName(Seq<char>),
    SetPassword(Seq<char>),
    SetImage(Seq<char>),
    SetPreference(UserPreferenceV),
    SetShelf(Seq<BookEmbedV>),
    PushShelf(BookEmbedV),
    PullShelf(Seq<char>),
    SetReviews(Seq<Seq<char>>),
    PushReview(Seq<char>),
    PullReview(Seq<char>),
    SetDescription(Seq<char>),
    SetImageUrl(Seq<char>),
    PushBook(BookEmbedV),
    PullBook(Seq<char>),
}

impl View for DocPatch {
    type V = DocPatchV;

    open spec fn view(&self) -> DocPatchV {
        match self {
            DocPatch::SetName(x) => DocPatchV::SetName(x@),
            DocPatch::SetPassword(x) => DocPatchV::SetPassword(x@),
            DocPatch::SetImage(x) => DocPatchV::SetImage(x@),
            DocPatch::SetPreference(x) => DocPatchV::SetPreference(x@),
            DocPatch::SetShelf(x) => DocPatchV::SetShelf(x.deep_view()),
            DocPatch::PushShelf(x) => DocPatchV::PushShelf(x@),
            DocPatch::PullShelf(x) => DocPatchV::PullShelf(x@),
            DocPatch::SetReviews(x) => DocPatchV::SetReviews(x.deep_view()),
            DocPatch::PushReview(x) => DocPatchV::PushReview(x@),
            DocPatch::PullReview(x) => DocPatchV::PullReview(x@),
            DocPatch::SetDescription(x) => DocPatchV::SetDescription(x@),
            DocPatch::SetImageUrl(x) => DocPatchV::SetImageUrl(x@),
            DocPatch::PushBook(x) => DocPatchV::PushBook(x@),
            DocPatch::PullBook(x) => DocPatchV::PullBook(x@),
        }
    }
}

/// The shelf with every entry for the given book removed.
pub open spec fn books_without(s: Seq<BookEmbedV>, id: Seq<char>) -> Seq<BookEmbedV>
    decreases s.len(),
{
    if s.len() == 0 {
        s
    } else {
        let rest = books_without(s.drop_last(), id);
        if s.last().book_id == id {
            rest
        } else {
            rest.push(s.last())
        }
    }
}

/// The review list with every occurrence of the given id removed.
pub open spec fn strings_without(s: Seq<Seq<char>>, x: Seq<char>) -> Seq<Seq<char>>
    decreases s.len(),
{
    if s.len() == 0 {
        s
    } else {
        let rest = strings_without(s.drop_last(), x);
        if s.last() == x {
            rest
        } else {
            rest.push(s.last())
        }
    }
}

/// What a patch does to a stored payload. A patch addressed at a field the
/// payload's kind does not carry leaves the payload unchanged.
pub open spec fn apply_patch(p: PayloadV, t: DocPatchV) -> PayloadV {
    match p {
        PayloadV::Reader(u) => match t {
            DocPatchV::SetName(x) => PayloadV::Reader(UserV { name: x, ..u }),
            DocPatchV::SetPassword(x) => PayloadV::Reader(UserV { password_hash: x, ..u }),
            DocPatchV::SetImage(x) => PayloadV::Reader(UserV { image: Some(x), ..u }),
            DocPatchV::SetPreference(x) => PayloadV::Reader(UserV { preference: Some(x), ..u }),
            DocPatchV::SetShelf(x) => PayloadV::Reader(UserV { shelf: Some(x), ..u }),
            DocPatchV::PushShelf(b) => PayloadV::Reader(
                UserV {
                    shelf: Some(
                        match u.shelf {
                            Some(s) => s.push(b),
                            None => seq![b],
                        },
                    ),
                    ..u
                },
            ),
            DocPatchV::PullShelf(id) => PayloadV::Reader(
                UserV {
                    shelf: match u.shelf {
                        Some(s) => Some(books_without(s, id)),
                        None => None,
                    },
                    ..u
                },
            ),
            DocPatchV::SetReviews(x) => PayloadV::Reader(UserV { last_reviews: Some(x), ..u }),
            DocPatchV::PushReview(r) => PayloadV::Reader(
                UserV {
                    last_reviews: Some(
                        match u.last_reviews {
                            Some(s) => s.push(r),
                            None => seq![r],
                        },
                    ),
                    ..u
                },
            ),
            DocPatchV::PullReview(r) => PayloadV::Reader(
                UserV {
                    last_reviews: match u.last_reviews {
                        Some(s) => Some(strings_without(s, r)),
                        None => None,
                    },
                    ..u
                },
            ),
            _ => p,
        },
        PayloadV::Author(a) => match t {
            DocPatchV::SetDescription(x) => PayloadV::Author(AuthorV { description: x, ..a }),
            DocPatchV::SetImageUrl(x) => PayloadV::Author(AuthorV { image_url: x, ..a }),
            DocPatchV::PushBook(b) => PayloadV::Author(AuthorV { books: a.books.push(b), ..a }),
            DocPatchV::PullBook(id) => PayloadV::Author(
                AuthorV { books: books_without(a.books, id), ..a },
            ),
            _ => p,
        },
        PayloadV::Meta(_) => p,
    }
}

/// Removes every shelf entry for the given book.
pub fn books_pull(v: &Vec<BookEmbed>, id: &String) -> (r: Vec<BookEmbed>)
    ensures
        r.deep_view() == books_without(v.deep_view(), id@),
{
    let mut r: Vec<BookEmbed> = Vec::new();
    let mut i: usize = 0;
    while i < v.len()
        invariant
            i <= v.len(),
            r.deep_view() =~= books_without(v.deep_view().take(i as int), id@),
        decreases v.len() - i,
    {
        proof {
            assert(v.deep_view().take(i as int + 1).drop_last() =~= v.deep_view().take(i as int));
            assert(v.deep_view().take(i as int + 1).last() == v@[i as int].deep_view());
            assert(r@.len() == r.deep_view().len());
        }
        let keep = !v[i].book_id.eq(id);
        if keep {
            r.push(v[i].duplicate());
        }
        proof {
            assert(r.deep_view() =~= books_without(v.deep_view().take(i as int + 1), id@));
        }
        i = i + 1;
    }
    proof {
        assert(v.deep_view().take(v@.len() as int) =~= v.deep_view());
    }
    r
}

/// Removes every occurrence of the given id.
pub fn strings_pull(v: &Vec<String>, x: &String) -> (r: Vec<String>)
    ensures
        r.deep_view() == strings_without(v.deep_view(), x@),
{
    let mut r: Vec<String> = Vec::new();
    let mut i: usize = 0;
    while i < v.len()
        invariant
            i <= v.len(),
            r.deep_view() =~= strings_without(v.deep_view().take(i as int), x@),
        decreases v.len() - i,
    {
        proof {
            assert(v.deep_view().take(i as int + 1).drop_last() =~= v.deep_view().take(i as int));
            assert(v.deep_view().take(i as int + 1).last() == v@[i as int]@);
            assert(r@.len() == r.deep_view().len());
        }
        let keep = !v[i].eq(x);
        if keep {
            r.push(v[i].clone());
        }
        proof {
            assert(r.deep_view() =~= strings_without(v.deep_view().take(i as int + 1), x@));
        }
        i = i + 1;
    }
    proof {
        assert(v.deep_view().take(v@.len() as int) =~= v.deep_view());
    }
    r
}

/// Removing nothing leaves at least as few entries, never more.
proof fn lemma_books_without_len(s: Seq<BookEmbedV>, id: Seq<char>)
    ensures
        books_without(s, id).len() <= s.len(),
    decreases s.len(),
{
    if s.len() > 0 {
        lemma_books_without_len(s.drop_last(), id);
    }
}

/// A pull that removed nothing left the shelf exactly as it was.
proof fn lemma_books_without_unchanged(s: Seq<BookEmbedV>, id: Seq<char>)
    requires
        books_without(s, id).len() == s.len(),
    ensures
        books_without(s, id) == s,
    decreases s.len(),
{
    if s.len() > 0 {
        if s.last().book_id == id {
            lemma_books_without_len(s.drop_last(), id);
        } else {
            lemma_books_without_len(s.drop_last(), id);
            lemma_books_without_unchanged(s.drop_last(), id);
            assert(books_without(s, id) =~= s);
        }
    }
}

proof fn lemma_strings_without_len(s: Seq<Seq<char>>, x: Seq<char>)
    ensures
        strings_without(s, x).len() <= s.len(),
    decreases s.len(),
{
    if s.len() > 0 {
        lemma_strings_without_len(s.drop_last(), x);
    }
}

/// A pull that removed nothing left the list exactly as it was.
proof fn lemma_strings_without_unchanged(s: Seq<Seq<char>>, x: Seq<char>)
    requires
        strings_without(s, x).len() == s.len(),
    ensures
        strings_without(s, x) == s,
    decreases s.len(),
{
    if s.len() > 0 {
        if s.last() == x {
            lemma_strings_without_len(s.drop_last(), x);
        } else {
            lemma_strings_without_len(s.drop_last(), x);
            lemma_strings_without_unchanged(s.drop_last(), x);
            assert(strings_without(s, x) =~= s);
        }
    }
}

impl DocPatch {
    /// Applies this patch to a stored payload, yielding the new payload
    /// and whether anything actually changed — the store counts a write
    /// that leaves the document as it was as matched but not modified.
    pub fn apply(&self, payload: &Payload) -> (r: (Payload, bool))
        ensures
            r.0@ == apply_patch(payload@, self@),
            r.1 == (apply_patch(payload@, self@) != payload@),
    {
        match payload {
            Payload::Reader(u) => {
                let (res, changed) = self.apply_user(u);
                (Payload::Reader(res), changed)
            },
            Payload::Author(a) => {
                let (res, changed) = self.apply_author(a);
                (Payload::Author(res), changed)
            },
            Payload::Meta(m) => (Payload::Meta(m.duplicate()), false),
        }
    }

    fn apply_user(&self, u: &User) -> (r: (User, bool))
        ensures
            PayloadV::Reader(r.0@) == apply_patch(PayloadV::Reader(u@), self@),
            r.1 == (apply_patch(PayloadV::Reader(u@), self@) != PayloadV::Reader(u@)),
    {
        match self {
            DocPatch::SetName(x) => {
                let changed = !x.eq(&u.name);
                (User { name: x.clone(), ..u.duplicate() }, changed)
            },
            DocPatch::SetPassword(x) => {
                let changed = !x.eq(&u.password_hash);
                (User { password_hash: x.clone(), ..u.duplicate() }, changed)
            },
            DocPatch::SetImage(x) => {
                let changed = match &u.image {
                    Some(s) => !x.eq(s),
                    None => true,
                };
                (User { image: Some(x.clone()), ..u.duplicate() }, changed)
            },
            DocPatch::SetPreference(x) => {
                let changed = match &u.preference {
                    Some(p) => !x.same_as(p),
                    None => true,
                };
                (User { preference: Some(x.duplicate()), ..u.duplicate() }, changed)
            },
            DocPatch::SetShelf(x) => {
                let changed = match &u.shelf {
                    Some(s) => !crate::users::shelf_eq(x, s),
                    None => true,
                };
                (User { shelf: Some(crate::users::clone_shelf(x)), ..u.duplicate() }, changed)
            },
            DocPatch::PushShelf(b) => {
                let mut shelf = match &u.shelf {
                    Some(s) => crate::users::clone_shelf(s),
                    None => Vec::new(),
                };
                proof {
                    assert(Seq::<BookEmbedV>::empty().push(b@) =~= seq![b@]);
                    match u@.shelf {
                        Some(s) => {
                            assert(s.push(b@).len() == s.len() + 1);
                        },
                        None => {},
                    }
                }
                let ghost dv0 = shelf.deep_view();
                proof {
                    assert(shelf@.len() == dv0.len());
                }
                shelf.push(b.duplicate());
                proof {
                    assert(shelf.deep_view() =~= dv0.push(b@));
                }
                let res = User { shelf: Some(shelf), ..u.duplicate() };
                proof {
                    assert(res@.shelf == apply_patch(
                        PayloadV::Reader(u@),
                        self@,
                    )->Reader_0.shelf);
                }
                (res, true)
            },
            DocPatch::PullShelf(id) => {
                match &u.shelf {
                    Some(s) => {
                        let out = books_pull(s, id);
                        let changed = out.len() != s.len();
                        proof {
                            if out@.len() == s@.len() {
                                lemma_books_without_unchanged(s.deep_view(), id@);
                            }
                        }
                        let res = User { shelf: Some(out), ..u.duplicate() };
                        proof {
                            assert(res@.shelf == apply_patch(
                                PayloadV::Reader(u@),
                                self@,
                            )->Reader_0.shelf);
                        }
                        (res, changed)
                    },
                    None => (User { shelf: None, ..u.duplicate() }, false),
                }
            },
            DocPatch::SetReviews(x) => {
                let changed = match &u.last_reviews {
                    Some(s) => !crate::util::strings_eq(x, s),
                    None => true,
                };
                (
                    User { last_reviews: Some(crate::util::clone_strings(x)), ..u.duplicate() },
                    changed,
                )
            },
            DocPatch::PushReview(rid) => {
                let mut reviews = match &u.last_reviews {
                    Some(s) => crate::util::clone_strings(s),
                    None => Vec::new(),
                };
                proof {
                    assert(Seq::<Seq<char>>::empty().push(rid@) =~= seq![rid@]);
                    match u@.last_reviews {
                        Some(s) => {
                            assert(s.push(rid@).len() == s.len() + 1);
                        },
                        None => {},
                    }
                }
                let ghost dv0 = reviews.deep_view();
                proof {
                    assert(reviews@.len() == dv0.len());
                }
                reviews.push(rid.clone());
                proof {
                    assert(reviews.deep_view() =~= dv0.push(rid@));
                }
                let res = User { last_reviews: Some(reviews), ..u.duplicate() };
                proof {
                    assert(res@.last_reviews == apply_patch(
                        PayloadV::Reader(u@),
                        self@,
                    )->Reader_0.last_reviews);
                }
                (res, true)
            },
            DocPatch::PullReview(rid) => {
                match &u.last_reviews {
                    Some(s) => {
                        let out = strings_pull(s, rid);
                        let changed = out.len() != s.len();
                        proof {
                            if out@.len() == s@.len() {
                                lemma_strings_without_unchanged(s.deep_view(), rid@);
                            }
                        }
                        let res = User { last_reviews: Some(out), ..u.duplicate() };
                        proof {
                            assert(res@.last_reviews == apply_patch(
                                PayloadV::Reader(u@),
                                self@,
                            )->Reader_0.last_reviews);
                        }
                        (res, changed)
                    },
                    None => (User { last_reviews: None, ..u.duplicate() }, false),
                }
            },
            _ => (u.duplicate(), false),
        }
    }

    fn apply_author(&self, a: &Author) -> (r: (Author, bool))
        ensures
            PayloadV::Author(r.0@) == apply_patch(PayloadV::Author(a@), self@),
            r.1 == (apply_patch(PayloadV::Author(a@), self@) != PayloadV::Author(a@)),
    {
        match self {
            DocPatch::SetDescription(x) => {
                let changed = !x.eq(&a.description);
                (Author { description: x.clone(), ..a.duplicate() }, changed)
            },
            DocPatch::SetImageUrl(x) => {
                let changed = !x.eq(&a.image_url);
                (Author { image_url: x.clone(), ..a.duplicate() }, changed)
            },
            DocPatch::PushBook(b) => {
                let mut r = a.duplicate();
                proof {
                    assert(a@.books.push(b@).len() == a@.books.len() + 1);
                }
                let ghost dv0 = r.books.deep_view();
                proof {
                    assert(r.books@.len() == dv0.len());
                }
                r.books.push(b.duplicate());
                proof {
                    assert(r.books.deep_view() =~= dv0.push(b@));
                }
                (r, true)
            },
            DocPatch::PullBook(id) => {
                let out = books_pull(&a.books, id);
                let changed = out.len() != a.books.len();
                proof {
                    if out@.len() == a.books@.len() {
                        lemma_books_without_unchanged(a.books.deep_view(), id@);
                    }
                }
                (Author { books: out, ..a.duplicate() }, changed)
            },
            _ => (a.duplicate(), false),
        }
    }
}

} // verus!
