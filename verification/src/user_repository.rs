//! The user repository: every mutation runs through the write
//! coordinator. Users whose role participates in the graph are mirrored
//! as reader nodes; shelf and review mutations pair the document update
//! with the matching relationship mutation in one saga.

use vstd::prelude::*;
use crate::books::{BookEmbed, BookEmbedV};
use crate::docstore::DocStore;
use crate::graphstore::GraphStore;
use crate::patch::{DocPatch, DocPatchV};
use crate::record::{EdgeIdV, EntityDoc, EntityDocV, GraphEdge, NodeId, NodeIdV, Payload, PayloadV, Prop, PropV, PropValueV};
use crate::saga::{ErrKind, FaultPlan, GraphAction, GraphActionV, run_delete, run_delete_many, run_insert, run_insert_many, run_patch, SagaError, WriteOpV, write_contract};
use crate::users::{Review, User, UserV};
use crate::util::{all_object_ids, is_object_id, object_id_valid};

verus! {

/// The repository over the user collection and the graph.
pub struct UserRepository {
    pub docs: DocStore,
    pub graph: GraphStore,
}

/// The reader node identity of a user id.
pub open spec fn reader_node(id: Seq<char>) -> NodeIdV {
    NodeIdV { label: "Reader"@, key: id }
}

/// The book node identity of a book id.
pub open spec fn book_node(id: Seq<char>) -> NodeIdV {
    NodeIdV { label: "Book"@, key: id }
}

/// The document created for a user stored under an id.
pub open spec fn user_doc(u: UserV, id: Seq<char>) -> EntityDocV {
    EntityDocV { id: id, payload: PayloadV::Reader(UserV { id: Some(id), ..u }) }
}

/// The documents of a user batch with its ids.
pub open spec fn user_docs(users: Seq<UserV>, ids: Seq<Seq<char>>) -> Seq<EntityDocV> {
    Seq::new(users.len(), |i: int| user_doc(users[i], ids[i]))
}

/// The write that renames a user: set the name field and the reader
/// node's properties.
pub open spec fn update_name_op(id: Seq<char>, name: Seq<char>) -> WriteOpV {
    WriteOpV::Patch {
        id: id,
        patch: DocPatchV::SetName(name),
        graph: GraphActionV::UpdateNodeProps {
            id: reader_node(id),
            props: seq![
                PropV { name: "user_id"@, value: PropValueV::Str(id) },
                PropV { name: "name"@, value: PropValueV::Str(name) },
            ],
        },
    }
}

/// The write that shelves a book: push the embedded book and merge the
/// shelf relationship, creating the book node when absent.
pub open spec fn add_shelf_op(id: Seq<char>, book: BookEmbedV) -> WriteOpV {
    WriteOpV::Patch {
        id: id,
        patch: DocPatchV::PushShelf(book),
        graph: GraphActionV::UpsertEdge {
            edge: EdgeIdV {
                label: "ADDED_TO_SHELF"@,
                from: reader_node(id),
                to: book_node(book.book_id),
            },
            props: seq![PropV { name: "status"@, value: PropValueV::Str("ADDED"@) }],
            to_props: seq![
                PropV { name: "book_id"@, value: PropValueV::Str(book.book_id) },
                PropV { name: "title"@, value: PropValueV::Str(book.title) },
            ],
        },
    }
}

/// The write that unshelves a book: pull the embedded book and delete the
/// shelf relationship.
pub open spec fn remove_shelf_op(id: Seq<char>, book_id: Seq<char>) -> WriteOpV {
    WriteOpV::Patch {
        id: id,
        patch: DocPatchV::PullShelf(book_id),
        graph: GraphActionV::DeleteEdge {
            edge: EdgeIdV {
                label: "ADDED_TO_SHELF"@,
                from: reader_node(id),
                to: book_node(book_id),
            },
        },
    }
}

/// The write that records a review: push the review id and merge the
/// rating relationship between the existing reader and book nodes,
/// carrying the rating and the review's date in epoch milliseconds; a
/// missing endpoint matches nothing.
pub open spec fn add_review_op(
    id: Seq<char>,
    review_id: Seq<char>,
    book_id: Seq<char>,
    score: Seq<char>,
    ts: int,
) -> WriteOpV {
    WriteOpV::Patch {
        id: id,
        patch: DocPatchV::PushReview(review_id),
        graph: GraphActionV::LinkEdge {
            edge: EdgeIdV { label: "RATED"@, from: reader_node(id), to: book_node(book_id) },
            props: seq![
                PropV { name: "rating"@, value: PropValueV::Str(score) },
                PropV { name: "ts"@, value: PropValueV::Int(ts) },
            ],
        },
    }
}

/// The write that retracts a review: pull the review id and delete the
/// rating relationship.
pub open spec fn remove_review_op(id: Seq<char>, review_id: Seq<char>, book_id: Seq<char>) -> WriteOpV {
    WriteOpV::Patch {
        id: id,
        patch: DocPatchV::PullReview(review_id),
        graph: GraphActionV::DeleteEdge {
            edge: EdgeIdV { label: "RATED"@, from: reader_node(id), to: book_node(book_id) },
        },
    }
}

/// A document-only field update.
pub open spec fn field_op(id: Seq<char>, patch: DocPatchV) -> WriteOpV {
    WriteOpV::Patch { id: id, patch: patch, graph: GraphActionV::Skip }
}

/// The user stored under an id, where one is stored.
pub open spec fn user_at(d: Map<Seq<char>, PayloadV>, id: Seq<char>) -> Option<UserV> {
    if d.contains_key(id) {
        match d[id] {
            PayloadV::Reader(u) => Some(u),
            _ => None,
        }
    } else {
        None
    }
}

impl UserRepository {
    pub open spec fn inv(&self) -> bool {
        self.docs.inv() && self.graph.inv()
    }

    pub fn new(docs: DocStore, graph: GraphStore) -> (r: Self)
        requires
            docs.inv(),
            graph.inv(),
        ensures
            r.inv(),
            r.docs == docs,
            r.graph == graph,
    {
        UserRepository { docs, graph }
    }

    /// Creates a user under the given store identifier; readers get a
    /// mirror node, administrators pass through to the document store.
    pub fn insert(&mut self, user: User, id: String, fp: FaultPlan) -> (r: Result<
        String,
        SagaError,
    >)
        requires
            old(self).inv(),
        ensures
            final(self).inv(),
            final(self).docs.reads == old(self).docs.reads,
            write_contract(
                old(self).docs.model(),
                old(self).graph.model(),
                final(self).docs.model(),
                final(self).graph.model(),
                WriteOpV::Insert { doc: user_doc(user@, id@) },
                fp,
                ok_as_bool(r),
            ),
            r matches Ok(s) ==> s@ == id@,
    {
        let mut u = user;
        u.id = Some(id.clone());
        let doc = EntityDoc { id: id.clone(), payload: Payload::Reader(u) };
        match run_insert(&mut self.docs, &mut self.graph, doc, fp) {
            Ok(_) => Ok(id),
            Err(e) => Err(e),
        }
    }

    /// Creates a batch of users under the given identifiers, one staged
    /// call per store.
    pub fn insert_many(&mut self, users: Vec<User>, ids: Vec<String>, fp: FaultPlan) -> (r: Result<
        Vec<String>,
        SagaError,
    >)
        requires
            old(self).inv(),
            users@.len() == ids@.len(),
        ensures
            final(self).inv(),
            final(self).docs.reads == old(self).docs.reads,
            users@.len() == 0 ==> (r matches Ok(v) && v@.len() == 0 && final(self).docs
                == old(self).docs && final(self).graph == old(self).graph),
            users@.len() > 0 ==> write_contract(
                old(self).docs.model(),
                old(self).graph.model(),
                final(self).docs.model(),
                final(self).graph.model(),
                WriteOpV::InsertMany { docs: user_docs(users.deep_view(), ids.deep_view()) },
                fp,
                ok_as_bool_vec(r),
            ),
            r matches Ok(v) ==> v.deep_view() == ids.deep_view(),
    {
        if users.len() == 0 {
            let out: Vec<String> = Vec::new();
            proof {
                assert(out.deep_view() =~= ids.deep_view());
            }
            return Ok(out);
        }
        let mut batch: Vec<EntityDoc> = Vec::new();
        let mut i: usize = 0;
        proof {
            assert(batch.deep_view() =~= user_docs(users.deep_view(), ids.deep_view()).take(0));
        }
        while i < users.len()
            invariant
                users@.len() == ids@.len(),
                i <= users@.len(),
                batch.deep_view() =~= user_docs(users.deep_view(), ids.deep_view()).take(i as int),
            decreases users@.len() - i,
        {
            proof {
                assert(batch@.len() == batch.deep_view().len());
                assert(user_docs(users.deep_view(), ids.deep_view()).take(i as int).len()
                    == i as int);
            }
            let mut u = users[i].duplicate();
            u.id = Some(ids[i].clone());
            let doc = EntityDoc { id: ids[i].clone(), payload: Payload::Reader(u) };
            proof {
                assert(doc@ == user_doc(users.deep_view()[i as int], ids.deep_view()[i as int]));
            }
            batch.push(doc);
            proof {
                assert forall|j: int| 0 <= j < i + 1 implies batch.deep_view()[j] == user_docs(
                    users.deep_view(),
                    ids.deep_view(),
                ).take(i as int + 1)[j] by {
                    assert(batch.deep_view()[j] == batch@[j]@);
                }
                assert(batch.deep_view() =~= user_docs(users.deep_view(), ids.deep_view()).take(
                    i as int + 1,
                ));
            }
            i = i + 1;
        }
        proof {
            assert(user_docs(users.deep_view(), ids.deep_view()).take(users@.len() as int)
                =~= user_docs(users.deep_view(), ids.deep_view()));
        }
        match run_insert_many(&mut self.docs, &mut self.graph, batch, fp) {
            Ok(_) => {
                let out = crate::util::clone_strings(&ids);
                Ok(out)
            },
            Err(e) => Err(e),
        }
    }

    /// Renames a user in both stores; a malformed id is refused before
    /// anything is touched.
    pub fn update_name(&mut self, user_id: &String, name: &String, fp: FaultPlan) -> (r: Result<
        bool,
        SagaError,
    >)
        requires
            old(self).inv(),
        ensures
            final(self).inv(),
            final(self).docs.reads == old(self).docs.reads,
            !object_id_valid(user_id@) ==> (r matches Err(e) && e.kind == ErrKind::Validation
                && final(self).docs == old(self).docs && final(self).graph == old(self).graph),
            object_id_valid(user_id@) ==> write_contract(
                old(self).docs.model(),
                old(self).graph.model(),
                final(self).docs.model(),
                final(self).graph.model(),
                update_name_op(user_id@, name@),
                fp,
                r,
            ),
    {
        if !is_object_id(user_id.as_str()) {
            return Err(SagaError::of_kind(ErrKind::Validation));
        }
        let action = GraphAction::UpdateNodeProps {
            id: NodeId::new("Reader", user_id.as_str()),
            props: vec![
                Prop::new("user_id", user_id.as_str()),
                Prop::new("name", name.as_str()),
            ],
        };
        proof {
            assert(action@->UpdateNodeProps_props =~= update_name_op(
                user_id@,
                name@,
            )->Patch_graph->UpdateNodeProps_props);
        }
        run_patch(
            &mut self.docs,
            &mut self.graph,
            user_id.clone(),
            DocPatch::SetName(name.clone()),
            action,
            fp,
        )
    }

    /// Sets a user's password hash; a document-only field update.
    pub fn update_password(&mut self, user_id: &String, password: &String, fp: FaultPlan) -> (r:
        Result<bool, SagaError>)
        requires
            old(self).inv(),
        ensures
            final(self).inv(),
            final(self).docs.reads == old(self).docs.reads,
            !object_id_valid(user_id@) ==> (r matches Err(e) && e.kind == ErrKind::Validation
                && final(self).docs == old(self).docs && final(self).graph == old(self).graph),
            object_id_valid(user_id@) ==> write_contract(
                old(self).docs.model(),
                old(self).graph.model(),
                final(self).docs.model(),
                final(self).graph.model(),
                field_op(user_id@, DocPatchV::SetPassword(password@)),
                fp,
                r,
            ),
    {
        if !is_object_id(user_id.as_str()) {
            return Err(SagaError::of_kind(ErrKind::Validation));
        }
        run_patch(
            &mut self.docs,
            &mut self.graph,
            user_id.clone(),
            DocPatch::SetPassword(password.clone()),
            GraphAction::Skip,
            fp,
        )
    }

    /// Sets a user's image; a document-only field update.
    pub fn update_image_url(&mut self, user_id: &String, image_url: &String, fp: FaultPlan) -> (r:
        Result<bool, SagaError>)
        requires
            old(self).inv(),
        ensures
            final(self).inv(),
            final(self).docs.reads == old(self).docs.reads,
            !object_id_valid(user_id@) ==> (r matches Err(e) && e.kind == ErrKind::Validation
                && final(self).docs == old(self).docs && final(self).graph == old(self).graph),
            object_id_valid(user_id@) ==> write_contract(
                old(self).docs.model(),
                old(self).graph.model(),
                final(self).docs.model(),
                final(self).graph.model(),
                field_op(user_id@, DocPatchV::SetImage(image_url@)),
                fp,
                r,
            ),
    {
        if !is_object_id(user_id.as_str()) {
            return Err(SagaError::of_kind(ErrKind::Validation));
        }
        run_patch(
            &mut self.docs,
            &mut self.graph,
            user_id.clone(),
            DocPatch::SetImage(image_url.clone()),
            GraphAction::Skip,
            fp,
        )
    }

    /// Replaces a user's preference; a document-only field update.
    pub fn update_preference(
        &mut self,
        user_id: &String,
        preference: crate::users::UserPreference,
        fp: FaultPlan,
    ) -> (r: Result<bool, SagaError>)
        requires
            old(self).inv(),
        ensures
            final(self).inv(),
            final(self).docs.reads == old(self).docs.reads,
            !object_id_valid(user_id@) ==> (r matches Err(e) && e.kind == ErrKind::Validation
                && final(self).docs == old(self).docs && final(self).graph == old(self).graph),
            object_id_valid(user_id@) ==> write_contract(
                old(self).docs.model(),
                old(self).graph.model(),
                final(self).docs.model(),
                final(self).graph.model(),
                field_op(user_id@, DocPatchV::SetPreference(preference@)),
                fp,
                r,
            ),
    {
        if !is_object_id(user_id.as_str()) {
            return Err(SagaError::of_kind(ErrKind::Validation));
        }
        run_patch(
            &mut self.docs,
            &mut self.graph,
            user_id.clone(),
            DocPatch::SetPreference(preference),
            GraphAction::Skip,
            fp,
        )
    }

    /// Replaces a user's shelf; a document-only field update.
    pub fn update_shelf(&mut self, user_id: &String, shelf: Vec<BookEmbed>, fp: FaultPlan) -> (r:
        Result<bool, SagaError>)
        requires
            old(self).inv(),
        ensures
            final(self).inv(),
            final(self).docs.reads == old(self).docs.reads,
            !object_id_valid(user_id@) ==> (r matches Err(e) && e.kind == ErrKind::Validation
                && final(self).docs == old(self).docs && final(self).graph == old(self).graph),
            object_id_valid(user_id@) ==> write_contract(
                old(self).docs.model(),
                old(self).graph.model(),
                final(self).docs.model(),
                final(self).graph.model(),
                field_op(user_id@, DocPatchV::SetShelf(shelf.deep_view())),
                fp,
                r,
            ),
    {
        if !is_object_id(user_id.as_str()) {
            return Err(SagaError::of_kind(ErrKind::Validation));
        }
        run_patch(
            &mut self.docs,
            &mut self.graph,
            user_id.clone(),
            DocPatch::SetShelf(shelf),
            GraphAction::Skip,
            fp,
        )
    }

    /// Shelves a book: the embedded book is pushed onto the user document
    /// and the shelf relationship merged in the graph, one saga.
    pub fn add_book_to_shelf(&mut self, user_id: &String, book: BookEmbed, fp: FaultPlan) -> (r:
        Result<bool, SagaError>)
        requires
            old(self).inv(),
        ensures
            final(self).inv(),
            final(self).docs.reads == old(self).docs.reads,
            !object_id_valid(user_id@) ==> (r matches Err(e) && e.kind == ErrKind::Validation
                && final(self).docs == old(self).docs && final(self).graph == old(self).graph),
            object_id_valid(user_id@) ==> write_contract(
                old(self).docs.model(),
                old(self).graph.model(),
                final(self).docs.model(),
                final(self).graph.model(),
                add_shelf_op(user_id@, book@),
                fp,
                r,
            ),
    {
        if !is_object_id(user_id.as_str()) {
            return Err(SagaError::of_kind(ErrKind::Validation));
        }
        let action = GraphAction::UpsertEdge {
            edge: GraphEdge {
                label: "ADDED_TO_SHELF".to_owned(),
                from: NodeId::new("Reader", user_id.as_str()),
                to: NodeId::new("Book", book.book_id.as_str()),
                props: vec![Prop::new("status", "ADDED")],
            },
            to_props: vec![
                Prop::new("book_id", book.book_id.as_str()),
                Prop::new("title", book.title.as_str()),
            ],
        };
        proof {
            assert(action@->UpsertEdge_props =~= add_shelf_op(
                user_id@,
                book@,
            )->Patch_graph->UpsertEdge_props);
            assert(action@->UpsertEdge_to_props =~= add_shelf_op(
                user_id@,
                book@,
            )->Patch_graph->UpsertEdge_to_props);
        }
        run_patch(
            &mut self.docs,
            &mut self.graph,
            user_id.clone(),
            DocPatch::PushShelf(book),
            action,
            fp,
        )
    }

    /// Unshelves a book: the embedded book is pulled from the user
    /// document and the shelf relationship deleted, one saga.
    pub fn remove_book_from_shelf(
        &mut self,
        user_id: &String,
        book_id: &String,
        fp: FaultPlan,
    ) -> (r: Result<bool, SagaError>)
        requires
            old(self).inv(),
        ensures
            final(self).inv(),
            final(self).docs.reads == old(self).docs.reads,
            !(object_id_valid(user_id@) && object_id_valid(book_id@)) ==> (r matches Err(e)
                && e.kind == ErrKind::Validation && final(self).docs == old(self).docs
                && final(self).graph == old(self).graph),
            object_id_valid(user_id@) && object_id_valid(book_id@) ==> write_contract(
                old(self).docs.model(),
                old(self).graph.model(),
                final(self).docs.model(),
                final(self).graph.model(),
                remove_shelf_op(user_id@, book_id@),
                fp,
                r,
            ),
    {
        if !is_object_id(user_id.as_str()) {
            return Err(SagaError::of_kind(ErrKind::Validation));
        }
        if !is_object_id(book_id.as_str()) {
            return Err(SagaError::of_kind(ErrKind::Validation));
        }
        let action = GraphAction::DeleteEdge {
            label: "ADDED_TO_SHELF".to_owned(),
            from: NodeId::new("Reader", user_id.as_str()),
            to: NodeId::new("Book", book_id.as_str()),
        };
        run_patch(
            &mut self.docs,
            &mut self.graph,
            user_id.clone(),
            DocPatch::PullShelf(book_id.clone()),
            action,
            fp,
        )
    }

    /// Replaces a user's review list; every id must be well formed.
    pub fn update_reviews(&mut self, user_id: &String, reviews: Vec<String>, fp: FaultPlan) -> (r:
        Result<bool, SagaError>)
        requires
            old(self).inv(),
        ensures
            final(self).inv(),
            final(self).docs.reads == old(self).docs.reads,
            !(object_id_valid(user_id@) && all_object_ids(reviews.deep_view())) ==> (r matches Err(e)
                && e.kind == ErrKind::Validation && final(self).docs == old(self).docs
                && final(self).graph == old(self).graph),
            object_id_valid(user_id@) && all_object_ids(reviews.deep_view()) ==> write_contract(
                old(self).docs.model(),
                old(self).graph.model(),
                final(self).docs.model(),
                final(self).graph.model(),
                field_op(user_id@, DocPatchV::SetReviews(reviews.deep_view())),
                fp,
                r,
            ),
    {
        if !is_object_id(user_id.as_str()) {
            return Err(SagaError::of_kind(ErrKind::Validation));
        }
        let mut i: usize = 0;
        while i < reviews.len()
            invariant
                self == old(self),
                old(self).inv(),
                i <= reviews@.len(),
                forall|j: int| 0 <= j < i ==> object_id_valid(#[trigger] reviews.deep_view()[j]),
            decreases reviews@.len() - i,
        {
            proof {
                assert(reviews.deep_view()[i as int] == reviews@[i as int]@);
            }
            if !is_object_id(reviews[i].as_str()) {
                return Err(SagaError::of_kind(ErrKind::Validation));
            }
            i = i + 1;
        }
        run_patch(
            &mut self.docs,
            &mut self.graph,
            user_id.clone(),
            DocPatch::SetReviews(reviews),
            GraphAction::Skip,
            fp,
        )
    }

    /// Records a review: the review id is pushed onto the user document
    /// and the rating relationship merged between the existing reader and
    /// book nodes, one saga, carrying the rating and the review's date in
    /// epoch milliseconds; a missing endpoint matches nothing and no node
    /// is invented.
    pub fn add_review(&mut self, user_id: &String, review: Review, fp: FaultPlan) -> (r: Result<
        bool,
        SagaError,
    >)
        requires
            old(self).inv(),
            review.id is Some,
            review.date_added is Some,
        ensures
            final(self).inv(),
            final(self).docs.reads == old(self).docs.reads,
            !object_id_valid(user_id@) ==> (r matches Err(e) && e.kind == ErrKind::Validation
                && final(self).docs == old(self).docs && final(self).graph == old(self).graph),
            object_id_valid(user_id@) ==> write_contract(
                old(self).docs.model(),
                old(self).graph.model(),
                final(self).docs.model(),
                final(self).graph.model(),
                add_review_op(
                    user_id@,
                    review.id->0@,
                    review.book_id@,
                    review.score@,
                    review.date_added->0 as int,
                ),
                fp,
                r,
            ),
    {
        if !is_object_id(user_id.as_str()) {
            return Err(SagaError::of_kind(ErrKind::Validation));
        }
        let review_id = match &review.id {
            Some(rid) => rid.clone(),
            None => unreached(),
        };
        let ts = match &review.date_added {
            Some(t) => *t,
            None => unreached(),
        };
        let action = GraphAction::LinkEdge {
            edge: GraphEdge {
                label: "RATED".to_owned(),
                from: NodeId::new("Reader", user_id.as_str()),
                to: NodeId::new("Book", review.book_id.as_str()),
                props: vec![
                    Prop::new("rating", review.score.as_str()),
                    Prop::of_int("ts", ts),
                ],
            },
        };
        proof {
            assert(action@->LinkEdge_props =~= add_review_op(
                user_id@,
                review.id->0@,
                review.book_id@,
                review.score@,
                review.date_added->0 as int,
            )->Patch_graph->LinkEdge_props);
        }
        run_patch(
            &mut self.docs,
            &mut self.graph,
            user_id.clone(),
            DocPatch::PushReview(review_id),
            action,
            fp,
        )
    }

    /// Retracts a review: the review id is pulled from the user document
    /// and the rating relationship deleted, one saga.
    pub fn remove_review(&mut self, user_id: &String, review: Review, fp: FaultPlan) -> (r: Result<
        bool,
        SagaError,
    >)
        requires
            old(self).inv(),
            review.id is Some,
        ensures
            final(self).inv(),
            final(self).docs.reads == old(self).docs.reads,
            !object_id_valid(user_id@) ==> (r matches Err(e) && e.kind == ErrKind::Validation
                && final(self).docs == old(self).docs && final(self).graph == old(self).graph),
            object_id_valid(user_id@) ==> write_contract(
                old(self).docs.model(),
                old(self).graph.model(),
                final(self).docs.model(),
                final(self).graph.model(),
                remove_review_op(user_id@, review.id->0@, review.book_id@),
                fp,
                r,
            ),
    {
        if !is_object_id(user_id.as_str()) {
            return Err(SagaError::of_kind(ErrKind::Validation));
        }
        let review_id = match &review.id {
            Some(rid) => rid.clone(),
            None => unreached(),
        };
        let action = GraphAction::DeleteEdge {
            label: "RATED".to_owned(),
            from: NodeId::new("Reader", user_id.as_str()),
            to: NodeId::new("Book", review.book_id.as_str()),
        };
        run_patch(
            &mut self.docs,
            &mut self.graph,
            user_id.clone(),
            DocPatch::PullReview(review_id),
            action,
            fp,
        )
    }

    /// Removes a user from both stores; a missing document reports
    /// `false` rather than an error.
    pub fn delete(&mut self, user_id: &String, fp: FaultPlan) -> (r: Result<bool, SagaError>)
        requires
            old(self).inv(),
        ensures
            final(self).inv(),
            final(self).docs.reads == old(self).docs.reads,
            !object_id_valid(user_id@) ==> (r matches Err(e) && e.kind == ErrKind::Validation
                && final(self).docs == old(self).docs && final(self).graph == old(self).graph),
            object_id_valid(user_id@) ==> tolerant_delete_contract(
                old(self).docs.model(),
                old(self).graph.model(),
                final(self).docs.model(),
                final(self).graph.model(),
                user_id@,
                fp,
                r,
            ),
    {
        if !is_object_id(user_id.as_str()) {
            return Err(SagaError::of_kind(ErrKind::Validation));
        }
        match run_delete(&mut self.docs, &mut self.graph, user_id.clone(), fp) {
            Ok(b) => Ok(b),
            Err(e) => {
                if matches!(e.kind, ErrKind::NotFound) {
                    Ok(false)
                } else {
                    Err(e)
                }
            },
        }
    }

    /// Removes a batch of users; malformed ids are skipped, and an empty
    /// batch succeeds without touching the stores.
    pub fn delete_many(&mut self, user_ids: &Vec<String>, fp: FaultPlan) -> (r: Result<
        bool,
        SagaError,
    >)
        requires
            old(self).inv(),
        ensures
            final(self).inv(),
            final(self).docs.reads == old(self).docs.reads,
            valid_ids_of(user_ids.deep_view()).len() == 0 ==> (r matches Ok(b) && b
                && final(self).docs == old(self).docs && final(self).graph == old(self).graph),
            valid_ids_of(user_ids.deep_view()).len() > 0 ==> write_contract(
                old(self).docs.model(),
                old(self).graph.model(),
                final(self).docs.model(),
                final(self).graph.model(),
                WriteOpV::DeleteMany { ids: valid_ids_of(user_ids.deep_view()) },
                fp,
                r,
            ),
    {
        let mut ids: Vec<String> = Vec::new();
        let mut i: usize = 0;
        proof {
            assert(ids.deep_view() =~= valid_ids_of(user_ids.deep_view().take(0)));
        }
        while i < user_ids.len()
            invariant
                i <= user_ids@.len(),
                ids.deep_view() =~= valid_ids_of(user_ids.deep_view().take(i as int)),
            decreases user_ids@.len() - i,
        {
            proof {
                assert(user_ids.deep_view().take(i as int + 1).drop_last()
                    =~= user_ids.deep_view().take(i as int));
                assert(user_ids.deep_view().take(i as int + 1).last() == user_ids@[i as int]@);
                assert(ids@.len() == ids.deep_view().len());
            }
            if is_object_id(user_ids[i].as_str()) {
                ids.push(user_ids[i].clone());
            }
            proof {
                assert(ids.deep_view() =~= valid_ids_of(
                    user_ids.deep_view().take(i as int + 1),
                ));
            }
            i = i + 1;
        }
        proof {
            assert(user_ids.deep_view().take(user_ids@.len() as int) =~= user_ids.deep_view());
        }
        if ids.len() == 0 {
            return Ok(true);
        }
        run_delete_many(&mut self.docs, &mut self.graph, ids, fp)
    }

    /// A read of one user by id.
    pub fn find_by_id(&mut self, user_id: &String) -> (r: Result<
        Option<User>,
        SagaError,
    >)
        requires
            old(self).inv(),
        ensures
            final(self).inv(),
            final(self).graph == old(self).graph,
            final(self).docs.model() == old(self).docs.model(),
            !object_id_valid(user_id@) ==> (r matches Err(e) && e.kind == ErrKind::Validation
                && final(self).docs == old(self).docs),
            object_id_valid(user_id@) ==> (match user_at(old(self).docs.model(), user_id@) {
                Some(u) => r matches Ok(o) && o matches Some(found) && found@ == u,
                None => r matches Ok(o) && o is None,
            }),
    {
        if !is_object_id(user_id.as_str()) {
            return Err(SagaError::of_kind(ErrKind::Validation));
        }
        match self.docs.find_by_id(user_id) {
            Some(doc) => match doc.payload {
                Payload::Reader(u) => Ok(Some(u)),
                _ => Ok(None),
            },
            None => Ok(None),
        }
    }

    /// A read of the first user with the given username, in store order.
    pub fn find_by_username(&mut self, username: &String) -> (r: Result<Option<User>, SagaError>)
        requires
            old(self).inv(),
        ensures
            final(self).inv(),
            final(self).graph == old(self).graph,
            final(self).docs.model() == old(self).docs.model(),
            (match first_by_username(
                users_list(old(self).docs.records.deep_view()),
                username@,
            ) {
                Some(u) => r matches Ok(o) && o matches Some(found) && found@ == u,
                None => r matches Ok(o) && o is None,
            }),
    {
        let all = self.docs.find_all();
        proof {
            assert forall|j: int| 0 <= j < all@.len() implies all.deep_view()[j]
                == old(self).docs.records.deep_view()[j] by {
                assert(all@[j]@ == old(self).docs.records@[j]@);
            }
            assert(all.deep_view() =~= old(self).docs.records.deep_view());
        }
        let mut users: Vec<User> = Vec::new();
        let mut i: usize = 0;
        proof {
            assert(users.deep_view() =~= users_list(all.deep_view().take(0)));
        }
        while i < all.len()
            invariant
                i <= all@.len(),
                users.deep_view() =~= users_list(all.deep_view().take(i as int)),
            decreases all@.len() - i,
        {
            proof {
                assert(all.deep_view().take(i as int + 1).drop_last() =~= all.deep_view().take(
                    i as int,
                ));
                assert(all.deep_view().take(i as int + 1).last() == all@[i as int]@);
                assert(users@.len() == users.deep_view().len());
            }
            match &all[i].payload {
                Payload::Reader(u) => {
                    users.push(u.duplicate());
                },
                _ => {},
            }
            proof {
                assert(users.deep_view() =~= users_list(all.deep_view().take(i as int + 1)));
            }
            i = i + 1;
        }
        proof {
            assert(all.deep_view().take(all@.len() as int) =~= all.deep_view());
        }
        let ghost full = users.deep_view();
        let mut k: usize = 0;
        proof {
            assert(full.skip(0) =~= full);
        }
        while k < users.len()
            invariant
                old(self).inv(),
                self.docs.inv(),
                self.graph == old(self).graph,
                self.docs.model() == old(self).docs.model(),
                full == users_list(old(self).docs.records.deep_view()),
                k <= users@.len(),
                users.deep_view() == full,
                first_by_username(full, username@) == first_by_username(
                    full.skip(k as int),
                    username@,
                ),
            decreases users@.len() - k,
        {
            proof {
                assert(full.skip(k as int)[0] == users@[k as int]@);
                assert(full.skip(k as int).drop_first() =~= full.skip(k as int + 1));
            }
            if users[k].username.eq(username) {
                let found = users[k].duplicate();
                return Ok(Some(found));
            }
            k = k + 1;
        }
        proof {
            assert(full.skip(users@.len() as int).len() == 0);
        }
        Ok(None)
    }

    /// A read of one page of users, in store order: `page * limit` rows
    /// skipped and `limit` rows kept, both defaulting as the transport
    /// layer does.
    pub fn find_all(&mut self, page: Option<u64>, limit: Option<u64>) -> (r: Result<
        Vec<User>,
        SagaError,
    >)
        requires
            old(self).inv(),
        ensures
            final(self).inv(),
            final(self).graph == old(self).graph,
            final(self).docs.model() == old(self).docs.model(),
            r matches Ok(v) ==> v.deep_view() == page_slice(
                users_list(old(self).docs.records.deep_view()),
                (match page {
                    Some(p) => p as int,
                    None => 0,
                }),
                (match limit {
                    Some(l) => l as int,
                    None => crate::util::LIMIT_DEFAULT as int,
                }),
            ),
    {
        let all = self.docs.find_all();
        proof {
            assert forall|j: int| 0 <= j < all@.len() implies all.deep_view()[j]
                == old(self).docs.records.deep_view()[j] by {
                assert(all@[j]@ == old(self).docs.records@[j]@);
            }
            assert(all.deep_view() =~= old(self).docs.records.deep_view());
        }
        let mut users: Vec<User> = Vec::new();
        let mut i: usize = 0;
        proof {
            assert(users.deep_view() =~= users_list(all.deep_view().take(0)));
        }
        while i < all.len()
            invariant
                i <= all@.len(),
                users.deep_view() =~= users_list(all.deep_view().take(i as int)),
            decreases all@.len() - i,
        {
            proof {
                assert(all.deep_view().take(i as int + 1).drop_last() =~= all.deep_view().take(
                    i as int,
                ));
                assert(all.deep_view().take(i as int + 1).last() == all@[i as int]@);
                assert(users@.len() == users.deep_view().len());
            }
            match &all[i].payload {
                Payload::Reader(u) => {
                    users.push(u.duplicate());
                },
                _ => {},
            }
            proof {
                assert(users.deep_view() =~= users_list(all.deep_view().take(i as int + 1)));
            }
            i = i + 1;
        }
        proof {
            assert(all.deep_view().take(all@.len() as int) =~= all.deep_view());
        }
        let page_v: u64 = match page {
            Some(p) => p,
            None => 0,
        };
        let limit_v: u64 = match limit {
            Some(l) => l,
            None => crate::util::LIMIT_DEFAULT,
        };
        let n = users.len();
        proof {
            assert((page_v as int) * (limit_v as int) + (limit_v as int)
                < 0x100000000000000000000000000000000int) by (nonlinear_arith)
                requires
                    page_v <= u64::MAX,
                    limit_v <= u64::MAX,
            ;
        }
        let skip: u128 = page_v as u128 * limit_v as u128;
        let lo: usize = if skip > n as u128 {
            n
        } else {
            skip as usize
        };
        let hi: usize = if skip + limit_v as u128 > n as u128 {
            n
        } else {
            (skip + limit_v as u128) as usize
        };
        let ghost full = users.deep_view();
        let mut out: Vec<User> = Vec::new();
        let mut k: usize = lo;
        proof {
            assert(out.deep_view() =~= full.subrange(lo as int, lo as int));
        }
        while k < hi
            invariant
                lo <= k <= hi <= users@.len(),
                users.deep_view() == full,
                out.deep_view() =~= full.subrange(lo as int, k as int),
            decreases hi - k,
        {
            proof {
                assert(full.subrange(lo as int, k as int + 1).drop_last() =~= full.subrange(
                    lo as int,
                    k as int,
                ));
                assert(full.subrange(lo as int, k as int + 1).last() == users@[k as int]@);
                assert(out@.len() == out.deep_view().len());
            }
            out.push(users[k].duplicate());
            proof {
                assert(out.deep_view() =~= full.subrange(lo as int, k as int + 1));
            }
            k = k + 1;
        }
        proof {
            assert(out.deep_view() =~= page_slice(full, page_v as int, limit_v as int));
        }
        Ok(out)
    }
}

/// The users among a document list, in store order.
pub open spec fn users_list(s: Seq<EntityDocV>) -> Seq<UserV>
    decreases s.len(),
{
    if s.len() == 0 {
        Seq::empty()
    } else {
        let rest = users_list(s.drop_last());
        match s.last().payload {
            PayloadV::Reader(u) => rest.push(u),
            _ => rest,
        }
    }
}

/// The first user with the given username, scanning in store order.
pub open spec fn first_by_username(s: Seq<UserV>, username: Seq<char>) -> Option<UserV>
    decreases s.len(),
{
    if s.len() == 0 {
        None
    } else if s[0].username == username {
        Some(s[0])
    } else {
        first_by_username(s.drop_first(), username)
    }
}

/// One page of a listing: `page * limit` rows skipped, `limit` rows kept,
/// clamped to the listing.
pub open spec fn page_slice<T>(s: Seq<T>, page: int, limit: int) -> Seq<T> {
    let skip = page * limit;
    let lo = if skip > s.len() {
        s.len() as int
    } else {
        skip
    };
    let hi = if skip + limit > s.len() {
        s.len() as int
    } else {
        skip + limit
    };
    s.subrange(lo, hi)
}

/// The ids in a list that are well-formed store identifiers, in order.
pub open spec fn valid_ids_of(s: Seq<Seq<char>>) -> Seq<Seq<char>>
    decreases s.len(),
{
    if s.len() == 0 {
        Seq::empty()
    } else {
        let rest = valid_ids_of(s.drop_last());
        if object_id_valid(s.last()) {
            rest.push(s.last())
        } else {
            rest
        }
    }
}

/// A successful result collapsed to the modified flag.
pub open spec fn ok_as_bool<T>(r: Result<T, SagaError>) -> Result<bool, SagaError> {
    match r {
        Ok(_) => Ok(true),
        Err(e) => Err(e),
    }
}

/// A successful batch result collapsed to the modified flag.
pub open spec fn ok_as_bool_vec(r: Result<Vec<String>, SagaError>) -> Result<bool, SagaError> {
    match r {
        Ok(_) => Ok(true),
        Err(e) => Err(e),
    }
}

/// A delete where a missing document reports `false`: the coordinator's
/// not-found verdict mapped back to the tolerant result, with every other
/// outcome as in the write contract.
pub open spec fn tolerant_delete_contract(
    d0: Map<Seq<char>, PayloadV>,
    g0: crate::graphstore::GraphV,
    d1: Map<Seq<char>, PayloadV>,
    g1: crate::graphstore::GraphV,
    id: Seq<char>,
    fp: FaultPlan,
    r: Result<bool, SagaError>,
) -> bool {
    let opv = WriteOpV::Delete { id: id };
    let ex = crate::saga::expected_outcome(d0, g0, opv, fp);
    &&& (ex == Ok::<bool, ErrKind>(true) ==> r == Ok::<bool, SagaError>(true) && d1
        == crate::saga::doc_apply(d0, opv) && g1 == crate::saga::graph_apply(g0, d0, opv))
    &&& (ex == Err::<bool, ErrKind>(ErrKind::NotFound) ==> r == Ok::<bool, SagaError>(false) && d1
        == d0 && g1 == g0)
    &&& (match ex {
        Err(k) => k != ErrKind::NotFound ==> (r matches Err(e) && e.kind == k && (if k
            == ErrKind::PartialFailure {
            d1 == crate::saga::doc_apply(d0, opv) && g1 == g0
        } else {
            d1 == d0 && g1 == g0
        })),
        Ok(_) => true,
    })
}

} // verus!
