//! Tests of the cache-aside service and the entity repositories: the
//! genre lifecycle scenario, the author compensation scenario, the cache
//! laws on concrete values, and the user and author repositories.

use booknet::authors::Author;
use booknet::external::ExternalId;
use booknet::books::BookEmbed;
use booknet::cache::CacheStore;
use booknet::commands::{
    GenreCreateCommand, GenreDeleteCommand, GenreGetCommand, GenreListCommand, GenreUpdateCommand,
    LanguageCreateCommand, LanguageGetCommand, PublisherCreateCommand, PublisherGetCommand,
    SourceCreateCommand, SourceGetCommand, SourceListCommand,
};
use booknet::docstore::DocStore;
use booknet::graphstore::GraphStore;
use booknet::metadata::Metadata;
use booknet::metadata_repository::MetadataRepository;
use booknet::record::{Payload, PropValue};
use booknet::saga::{ErrKind, FaultPlan};
use booknet::genre_service::{GenreService, GenreServiceInterface};
use booknet::service::MetadataService;
use booknet::users::{Review, User, UserEmbed, UserRole};
use booknet::user_repository::UserRepository;
use booknet::author_repository::AuthorRepository;
use booknet::source_repository::SourceRepository;
use booknet::language_repository::LanguageRepository;

fn service() -> MetadataService {
    MetadataService::new(
        MetadataRepository::new(DocStore::new(), GraphStore::new()),
        Some(CacheStore::new()),
        Some("booknet".to_string()),
    )
}

fn reader(name: &str, username: &str) -> User {
    User {
        id: None,
        username: username.to_string(),
        password_hash: "argon2id-example".to_string(),
        name: name.to_string(),
        image: None,
        role: UserRole::Reader,
        preference: None,
        shelf: None,
        last_reviews: None,
        created_at: 1_700_000_000_000,
        updated_at: 1_700_000_000_000,
    }
}

#[test]
fn genre_lifecycle_scenario() {
    let mut svc = service();
    let fp = FaultPlan::none();

    // insert Genre{name: "sci-fi", description: "speculative fiction"}
    let created = svc
        .create_genre(
            GenreCreateCommand {
                name: "sci-fi".to_string(),
                description: "speculative fiction".to_string(),
            },
            fp,
        )
        .unwrap();
    assert_eq!(created.name, "sci-fi");
    assert_eq!(created.description, "speculative fiction");

    // get("sci-fi") returns it
    let got = svc
        .get_genre(GenreGetCommand { id: "sci-fi".to_string() }, fp)
        .unwrap()
        .unwrap();
    assert_eq!(got.name, "sci-fi");
    assert_eq!(got.description, "speculative fiction");

    // update("sci-fi", description: "space opera") and get reflects it
    let updated = svc
        .update_genre(
            GenreUpdateCommand {
                name: "sci-fi".to_string(),
                description: "space opera".to_string(),
            },
            fp,
        )
        .unwrap()
        .unwrap();
    assert_eq!(updated.description, "space opera");
    let got = svc
        .get_genre(GenreGetCommand { id: "sci-fi".to_string() }, fp)
        .unwrap()
        .unwrap();
    assert_eq!(got.description, "space opera");

    // the list cache was evicted by the update: the next list recomputes
    // and sees the new description
    let listed = svc
        .list_genres(GenreListCommand { pagination: None }, fp)
        .unwrap();
    assert_eq!(listed.len(), 1);
    assert_eq!(listed[0].description, "space opera");

    // delete("sci-fi"): a later get is a miss and the graph node is gone
    svc.delete_genre(GenreDeleteCommand { id: "sci-fi".to_string() }, fp)
        .unwrap();
    let got = svc
        .get_genre(GenreGetCommand { id: "sci-fi".to_string() }, fp)
        .unwrap();
    assert!(got.is_none());
    assert!(svc.metadata_repo.graph.nodes.is_empty());
    assert!(svc.metadata_repo.docs.records.is_empty());
}

#[test]
fn author_insert_graph_commit_failure_scenario() {
    let mut repo = AuthorRepository::new(DocStore::new(), GraphStore::new());
    let author = Author {
        id: Some("0123456789abcdef01234567".to_string()),
        name: "A. Author".to_string(),
        image_url: String::new(),
        description: String::new(),
        books: Vec::new(),
        external_id: None,
        created_at: 0,
        updated_at: 0,
    };

    // the graph commit fails after the document commit: the compensating
    // delete reverses the insert, and the error is an ordinary failure
    let mut fp = FaultPlan::none();
    fp.graph_commit_fails = true;
    let r = repo.insert(author.duplicate(), fp);
    match r {
        Err(e) => assert_eq!(e.kind, ErrKind::GraphStore),
        Ok(_) => panic!("the failed graph commit must fail the write"),
    }
    assert!(repo.docs.records.is_empty());
    assert!(repo.graph.nodes.is_empty());

    // only when the compensating delete itself fails is the error a
    // partial failure, with the document store left ahead
    fp.compensation_fails = true;
    let r = repo.insert(author, fp);
    match r {
        Err(e) => {
            assert_eq!(e.kind, ErrKind::PartialFailure);
            assert_eq!(e.label, "Author");
            assert_eq!(e.ids, vec!["0123456789abcdef01234567".to_string()]);
        }
        Ok(_) => panic!("a failed compensation must be loud"),
    }
    assert_eq!(repo.docs.records.len(), 1);
    assert!(repo.graph.nodes.is_empty());
}

#[test]
fn graph_stage_failure_leaves_document_readable_pre_state() {
    let mut svc = service();
    let fp = FaultPlan::none();
    svc.create_genre(
        GenreCreateCommand { name: "a".to_string(), description: "old".to_string() },
        fp,
    )
    .unwrap();

    let mut failing = FaultPlan::none();
    failing.graph_stage_fails = true;
    let r = svc.update_genre(
        GenreUpdateCommand { name: "a".to_string(), description: "new".to_string() },
        failing,
    );
    assert!(r.is_err());

    // a read through a fresh cache-less lens sees the pre-operation state
    let got = svc
        .get_genre(GenreGetCommand { id: "a".to_string() }, fp)
        .unwrap()
        .unwrap();
    assert_eq!(got.description, "old");
}

#[test]
fn repeated_reads_hit_the_cache_and_skip_the_store() {
    let mut svc = service();
    let fp = FaultPlan::none();
    svc.create_source(
        SourceCreateCommand { name: "kaggle".to_string(), website: "w".to_string() },
        fp,
    )
    .unwrap();

    let first = svc
        .get_source(SourceGetCommand { id: "kaggle".to_string() }, fp)
        .unwrap()
        .unwrap();
    let reads_after_first = svc.metadata_repo.docs.reads;
    let second = svc
        .get_source(SourceGetCommand { id: "kaggle".to_string() }, fp)
        .unwrap()
        .unwrap();
    assert_eq!(first.name, second.name);
    assert_eq!(first.website, second.website);
    // zero store calls after the first
    assert_eq!(svc.metadata_repo.docs.reads, reads_after_first);

    let l1 = svc.list_sources(SourceListCommand { pagination: None }, fp).unwrap();
    let reads_after_list = svc.metadata_repo.docs.reads;
    let l2 = svc.list_sources(SourceListCommand { pagination: None }, fp).unwrap();
    assert_eq!(l1.len(), l2.len());
    assert_eq!(l1[0].name, l2[0].name);
    assert_eq!(svc.metadata_repo.docs.reads, reads_after_list);
}

#[test]
fn cache_failures_never_fail_the_operation() {
    let mut svc = service();
    let mut fp = FaultPlan::none();
    fp.cache_fails = true;
    let created = svc
        .create_publisher(
            PublisherCreateCommand { name: "acme".to_string(), website: "w".to_string() },
            fp,
        )
        .unwrap();
    assert_eq!(created.name, "acme");
    let got = svc
        .get_publisher(PublisherGetCommand { id: "acme".to_string() }, fp)
        .unwrap()
        .unwrap();
    assert_eq!(got.website, "w");
    // nothing was cached along the way
    match &svc.cache {
        Some(c) => assert!(c.entries.is_empty()),
        None => panic!("the cache is configured"),
    }
}

#[test]
fn language_service_round_trip() {
    let mut svc = service();
    let fp = FaultPlan::none();
    let created = svc
        .create_language(
            LanguageCreateCommand { code: "en".to_string(), name: "English".to_string() },
            fp,
        )
        .unwrap();
    assert_eq!(created.code, "en");
    let got = svc
        .get_language(booknet::commands::LanguageGetCommand { id: "en".to_string() }, fp)
        .unwrap()
        .unwrap();
    assert_eq!(got.name, "English");
    // languages do not participate in the graph
    assert!(svc.metadata_repo.graph.nodes.is_empty());
}

#[test]
fn user_insert_reader_mirrors_node_admin_does_not() {
    let mut repo = UserRepository::new(DocStore::new(), GraphStore::new());
    let fp = FaultPlan::none();
    let id = "0123456789abcdef01234567".to_string();
    repo.insert(reader("Ada", "ada"), id.clone(), fp).unwrap();
    assert_eq!(repo.graph.nodes.len(), 1);
    assert_eq!(repo.graph.nodes[0].label, "Reader");
    assert_eq!(repo.graph.nodes[0].key, id);

    let mut admin = reader("Root", "root");
    admin.role = UserRole::Admin;
    let admin_id = "89abcdef0123456789abcdef".to_string();
    repo.insert(admin, admin_id, fp).unwrap();
    assert_eq!(repo.docs.records.len(), 2);
    assert_eq!(repo.graph.nodes.len(), 1);
}

#[test]
fn user_shelf_and_review_relationships() {
    let mut repo = UserRepository::new(DocStore::new(), GraphStore::new());
    let fp = FaultPlan::none();
    let uid = "0123456789abcdef01234567".to_string();
    repo.insert(reader("Ada", "ada"), uid.clone(), fp).unwrap();

    let book_id = "aaaabbbbccccddddeeeeffff".to_string();
    let book = BookEmbed {
        book_id: book_id.clone(),
        title: "Dune".to_string(),
        description: None,
        image: None,
    };
    let modified = repo.add_book_to_shelf(&uid, book, fp).unwrap();
    assert!(modified);
    assert_eq!(repo.graph.edges.len(), 1);
    assert_eq!(repo.graph.edges[0].label, "ADDED_TO_SHELF");
    // the book node was created for the relationship
    assert_eq!(repo.graph.nodes.len(), 2);

    let review = Review {
        id: Some("1111111111111111111111aa".to_string()),
        book_id: book_id.clone(),
        user: UserEmbed { id: uid.clone(), name: "Ada".to_string(), image: None },
        content: "great".to_string(),
        score: "4.5".to_string(),
        date_added: Some(1_700_000_000_000),
    };
    assert!(repo.add_review(&uid, review.clone(), fp).unwrap());
    assert_eq!(repo.graph.edges.len(), 2);
    let rated = repo
        .graph
        .edges
        .iter()
        .find(|e| e.label == "RATED")
        .expect("the rating relationship exists");
    assert_eq!(rated.props[0].name, "rating");
    assert!(matches!(&rated.props[0].value, PropValue::Str(v) if v == "4.5"));
    assert_eq!(rated.props[1].name, "ts");
    assert!(matches!(rated.props[1].value, PropValue::Int(1_700_000_000_000)));

    assert!(repo.remove_review(&uid, review, fp).unwrap());
    assert_eq!(repo.graph.edges.len(), 1);

    assert!(repo.remove_book_from_shelf(&uid, &book_id, fp).unwrap());
    assert!(repo.graph.edges.is_empty());

    // deleting the user detaches whatever edges remain and drops the node
    assert!(repo.add_book_to_shelf(
        &uid,
        BookEmbed {
            book_id: book_id.clone(),
            title: "Dune".to_string(),
            description: None,
            image: None,
        },
        fp,
    )
    .unwrap());
    assert!(repo.delete(&uid, fp).unwrap());
    assert!(repo.graph.edges.is_empty());
    assert_eq!(repo.graph.nodes.len(), 1); // only the book node survives
}

#[test]
fn review_link_requires_both_nodes() {
    let mut repo = UserRepository::new(DocStore::new(), GraphStore::new());
    let fp = FaultPlan::none();
    let uid = "0123456789abcdef01234567".to_string();
    repo.insert(reader("Ada", "ada"), uid.clone(), fp).unwrap();

    // the addressed book has no graph node: the rating relationship
    // matches nothing, no node is invented, and only the document side
    // records the review id
    let review = Review {
        id: Some("1111111111111111111111aa".to_string()),
        book_id: "aaaabbbbccccddddeeeeffff".to_string(),
        user: UserEmbed { id: uid.clone(), name: "Ada".to_string(), image: None },
        content: "great".to_string(),
        score: "4.5".to_string(),
        date_added: Some(1_700_000_000_000),
    };
    assert!(repo.add_review(&uid, review, fp).unwrap());
    assert!(repo.graph.edges.is_empty());
    assert_eq!(repo.graph.nodes.len(), 1);
    let u = repo.find_by_id(&uid).unwrap().unwrap();
    assert_eq!(u.last_reviews.unwrap().len(), 1);
}

#[test]
fn field_updates_report_modified_not_matched() {
    let mut authors = AuthorRepository::new(DocStore::new(), GraphStore::new());
    let fp = FaultPlan::none();
    let aid = "000000000000000000000001".to_string();
    let author = Author {
        id: Some(aid.clone()),
        name: "A".to_string(),
        image_url: String::new(),
        description: "bio".to_string(),
        books: Vec::new(),
        external_id: None,
        created_at: 0,
        updated_at: 0,
    };
    authors.insert(author, fp).unwrap();
    // writing the value already stored matches but modifies nothing
    assert!(!authors.update_description(&aid, &"bio".to_string(), fp).unwrap());
    assert!(authors.update_description(&aid, &"new bio".to_string(), fp).unwrap());

    let mut users = UserRepository::new(DocStore::new(), GraphStore::new());
    let uid = "0123456789abcdef01234567".to_string();
    users.insert(reader("Ada", "ada"), uid.clone(), fp).unwrap();
    // pulling from an empty shelf matches the user but modifies nothing
    let book_id = "aaaabbbbccccddddeeeeffff".to_string();
    assert!(!users.remove_book_from_shelf(&uid, &book_id, fp).unwrap());
    // renaming to the same name modifies nothing either
    assert!(!users.update_name(&uid, &"Ada".to_string(), fp).unwrap());
}

#[test]
fn rename_with_missing_reader_node_is_graph_entity_missing() {
    let mut repo = UserRepository::new(DocStore::new(), GraphStore::new());
    let fp = FaultPlan::none();
    let uid = "0123456789abcdef01234567".to_string();
    repo.insert(reader("Ada", "ada"), uid.clone(), fp).unwrap();
    // the mirror node is lost upstream: the stores diverged
    repo.graph.nodes.clear();

    match repo.update_name(&uid, &"Ada L.".to_string(), fp) {
        Err(e) => assert_eq!(e.kind, ErrKind::GraphEntityMissing),
        Ok(_) => panic!("a zero-match presence check must fail the write"),
    }
    // nothing was committed: the document still holds the old name
    let u = repo.find_by_id(&uid).unwrap().unwrap();
    assert_eq!(u.name, "Ada");

    // an administrator has no mirror node by policy, so the same patch
    // passes through without a presence requirement
    let mut admin = reader("Root", "root");
    admin.role = UserRole::Admin;
    let admin_id = "89abcdef0123456789abcdef".to_string();
    repo.insert(admin, admin_id.clone(), fp).unwrap();
    assert!(repo.update_name(&admin_id, &"Root 2".to_string(), fp).unwrap());
}

#[test]
fn user_invalid_ids_are_validation_errors() {
    let mut repo = UserRepository::new(DocStore::new(), GraphStore::new());
    let fp = FaultPlan::none();
    let bad = "not-a-store-id".to_string();
    match repo.update_name(&bad, &"x".to_string(), fp) {
        Err(e) => assert_eq!(e.kind, ErrKind::Validation),
        Ok(_) => panic!("a malformed id must be refused"),
    }
    match repo.find_by_id(&bad) {
        Err(e) => assert_eq!(e.kind, ErrKind::Validation),
        Ok(_) => panic!("a malformed id must be refused"),
    }
    assert!(repo.docs.records.is_empty());
}

#[test]
fn user_field_updates_round_trip() {
    let mut repo = UserRepository::new(DocStore::new(), GraphStore::new());
    let fp = FaultPlan::none();
    let uid = "0123456789abcdef01234567".to_string();
    repo.insert(reader("Ada", "ada"), uid.clone(), fp).unwrap();

    assert!(repo.update_name(&uid, &"Ada L.".to_string(), fp).unwrap());
    assert!(repo.update_password(&uid, &"argon2id-example-2".to_string(), fp).unwrap());
    assert!(repo.update_image_url(&uid, &"img".to_string(), fp).unwrap());
    let u = repo.find_by_id(&uid).unwrap().unwrap();
    assert_eq!(u.name, "Ada L.");
    assert_eq!(u.image.as_deref(), Some("img"));
    // the reader node follows the rename
    assert!(matches!(&repo.graph.nodes[0].props[1].value, PropValue::Str(v) if v == "Ada L."));

    // a patch on a missing user matches nothing and reports it
    let missing = "ffffffffffffffffffffffff".to_string();
    assert!(!repo.update_name(&missing, &"x".to_string(), fp).unwrap());
}

#[test]
fn user_insert_many_and_delete_many() {
    let mut repo = UserRepository::new(DocStore::new(), GraphStore::new());
    let fp = FaultPlan::none();
    let ids = vec![
        "000000000000000000000001".to_string(),
        "000000000000000000000002".to_string(),
    ];
    let out = repo
        .insert_many(vec![reader("A", "a"), reader("B", "b")], ids.clone(), fp)
        .unwrap();
    assert_eq!(out, ids);
    assert_eq!(repo.docs.records.len(), 2);
    assert_eq!(repo.graph.nodes.len(), 2);

    // malformed ids are skipped; the rest are removed with their nodes
    let mut targets = ids.clone();
    targets.push("junk".to_string());
    assert!(repo.delete_many(&targets, fp).unwrap());
    assert!(repo.docs.records.is_empty());
    assert!(repo.graph.nodes.is_empty());

    // an empty batch succeeds without touching anything
    assert!(repo.delete_many(&vec!["junk".to_string()], fp).unwrap());
}

#[test]
fn author_repository_round_trip() {
    let mut repo = AuthorRepository::new(DocStore::new(), GraphStore::new());
    let fp = FaultPlan::none();
    let a1 = Author {
        id: Some("000000000000000000000001".to_string()),
        name: "A".to_string(),
        image_url: String::new(),
        description: String::new(),
        books: Vec::new(),
        external_id: None,
        created_at: 0,
        updated_at: 0,
    };
    let mut a2 = a1.duplicate();
    a2.id = Some("000000000000000000000002".to_string());
    a2.name = "B".to_string();
    let ids = repo.insert_many(vec![a1, a2], fp).unwrap();
    assert_eq!(ids.len(), 2);
    assert_eq!(repo.graph.nodes.len(), 2);

    let aid = "000000000000000000000001".to_string();
    assert!(repo.update_description(&aid, &"bio".to_string(), fp).unwrap());
    assert!(repo
        .add_book(
            &aid,
            BookEmbed {
                book_id: "aaaabbbbccccddddeeeeffff".to_string(),
                title: "T".to_string(),
                description: None,
                image: None,
            },
            fp,
        )
        .unwrap());
    let a = repo.find_by_id(&aid).unwrap().unwrap();
    assert_eq!(a.description, "bio");
    assert_eq!(a.books.len(), 1);
    assert!(repo.remove_book(&aid, &"aaaabbbbccccddddeeeeffff".to_string(), fp).unwrap());

    let found = repo
        .find_by_ids(&vec![aid.clone(), "000000000000000000000002".to_string()])
        .unwrap();
    assert_eq!(found.len(), 2);

    assert!(repo.delete(&aid, fp).unwrap());
    assert_eq!(repo.docs.records.len(), 1);
    assert_eq!(repo.graph.nodes.len(), 1);
    assert!(repo.delete_many(&vec!["000000000000000000000002".to_string()], fp).unwrap());
    assert!(repo.docs.records.is_empty());
    assert!(repo.graph.nodes.is_empty());
}

#[test]
fn source_repository_round_trip() {
    let mut repo = SourceRepository::new(DocStore::new());
    let fp = FaultPlan::none();
    let s = booknet::catalog::Source { name: "kaggle".to_string(), website: "w".to_string() };
    let created = repo.add_source(s, fp).unwrap();
    assert_eq!(created.name, "kaggle");
    let got = repo.get_source("kaggle").unwrap().unwrap();
    assert_eq!(got.website, "w");
    let updated = repo
        .update_source(
            "kaggle",
            booknet::catalog::Source { name: "kaggle".to_string(), website: "w2".to_string() },
            fp,
        )
        .unwrap()
        .unwrap();
    assert_eq!(updated.website, "w2");
    assert!(repo
        .update_source(
            "missing",
            booknet::catalog::Source { name: "missing".to_string(), website: "w".to_string() },
            fp,
        )
        .unwrap()
        .is_none());
    let all = repo.list_sources().unwrap();
    assert_eq!(all.len(), 1);
    repo.delete_source("kaggle", fp).unwrap();
    match repo.delete_source("kaggle", fp) {
        Err(e) => assert_eq!(e.kind, ErrKind::NotFound),
        Ok(_) => panic!("deleting a missing source must be refused"),
    }
}

#[test]
fn language_repository_round_trip() {
    let mut repo = LanguageRepository::new(DocStore::new(), GraphStore::new());
    let fp = FaultPlan::none();
    let l = booknet::catalog::Language { code: "en".to_string(), name: "English".to_string() };
    repo.add_language(l, fp).unwrap();
    let got = repo.get_language("en").unwrap().unwrap();
    assert_eq!(got.name, "English");
    let updated = repo
        .update_language(
            "en",
            booknet::catalog::Language { code: "en".to_string(), name: "English (US)".to_string() },
            fp,
        )
        .unwrap()
        .unwrap();
    assert_eq!(updated.name, "English (US)");
    assert_eq!(repo.list_languages().unwrap().len(), 1);
    repo.delete_language("en", fp).unwrap();
    assert!(repo.get_language("en").unwrap().is_none());
}

#[test]
fn user_find_by_username_and_pagination() {
    let mut repo = UserRepository::new(DocStore::new(), GraphStore::new());
    let fp = FaultPlan::none();
    for i in 0..5u32 {
        let id = format!("{:024x}", i + 1);
        let mut u = reader(&format!("User {i}"), &format!("user{i}"));
        u.role = if i % 2 == 0 { UserRole::Reader } else { UserRole::Admin };
        repo.insert(u, id, fp).unwrap();
    }
    let found = repo.find_by_username(&"user3".to_string()).unwrap().unwrap();
    assert_eq!(found.name, "User 3");
    assert!(repo.find_by_username(&"nobody".to_string()).unwrap().is_none());

    // page 1 of size 2 over five users, in store order
    let page = repo.find_all(Some(1), Some(2)).unwrap();
    assert_eq!(page.len(), 2);
    assert_eq!(page[0].username, "user2");
    assert_eq!(page[1].username, "user3");
    // a page past the end is empty
    assert!(repo.find_all(Some(9), Some(2)).unwrap().is_empty());
    // the defaults keep everything here: page 0, ten rows
    assert_eq!(repo.find_all(None, None).unwrap().len(), 5);
}

#[test]
fn author_pagination() {
    let mut repo = AuthorRepository::new(DocStore::new(), GraphStore::new());
    let fp = FaultPlan::none();
    for i in 0..3u32 {
        let a = Author {
            id: Some(format!("{:024x}", i + 1)),
            name: format!("Author {i}"),
            image_url: String::new(),
            description: String::new(),
            books: Vec::new(),
            external_id: None,
            created_at: 0,
            updated_at: 0,
        };
        repo.insert(a, fp).unwrap();
    }
    let page = repo.find_all(Some(0), Some(2)).unwrap();
    assert_eq!(page.len(), 2);
    assert_eq!(page[0].name, "Author 0");
    let rest = repo.find_all(Some(1), Some(2)).unwrap();
    assert_eq!(rest.len(), 1);
    assert_eq!(rest[0].name, "Author 2");
}

#[test]
fn genre_service_facade_delegates() {
    let mut genre_service = GenreService::new(service());
    let fp = FaultPlan::none();
    let created = genre_service
        .create(
            GenreCreateCommand { name: "noir".to_string(), description: "dark".to_string() },
            fp,
        )
        .unwrap();
    assert_eq!(created.name, "noir");
    let got = genre_service
        .get(GenreGetCommand { id: "noir".to_string() }, fp)
        .unwrap()
        .unwrap();
    assert_eq!(got.description, "dark");
    assert_eq!(genre_service.list(GenreListCommand { pagination: None }, fp).unwrap().len(), 1);
    genre_service.delete(GenreDeleteCommand { id: "noir".to_string() }, fp).unwrap();
    assert!(genre_service
        .get(GenreGetCommand { id: "noir".to_string() }, fp)
        .unwrap()
        .is_none());
}

#[test]
fn misc_model_accessors() {
    let e = ExternalId::from_good_reads("1");
    assert_eq!(e.good_reads.as_deref(), Some("1"));
    assert!(e.amazon.is_none());
    let e = ExternalId::from_amazon("2");
    assert_eq!(e.amazon.as_deref(), Some("2"));
    let e = ExternalId::from_google_books("3");
    assert_eq!(e.google_books.as_deref(), Some("3"));
    let e = ExternalId::from_kaggle("4");
    assert_eq!(e.kaggle.as_deref(), Some("4"));

    assert_eq!(UserRole::Admin.kind(), "admin");
    assert_eq!(UserRole::Reader.kind(), "reader");
    assert!(UserRole::Admin.is_admin());
    assert!(!UserRole::Reader.is_admin());
    assert!(UserRole::Reader.save_in_noe4j());
    assert!(matches!(UserRole::default(), UserRole::Reader));

    let node = booknet::users::ReaderNode::new("id1".to_string(), "Ada".to_string());
    assert!(node.id.is_none());
    assert_eq!(node.user_id, "id1");
    assert_eq!(node.name, "Ada");
}
