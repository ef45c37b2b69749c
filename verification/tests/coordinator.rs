//! Tests of the write coordinator over the in-memory stores: the happy
//! paths, every failure kind, and the compensation outcomes.

use booknet::docstore::DocStore;
use booknet::graphstore::GraphStore;
use booknet::metadata::{Metadata, MetadataKey};
use booknet::record::{EntityDoc, Payload, PropValue};
use booknet::phases::{step, Action, Event, Phase};
use booknet::saga::{run_delete, run_insert, run_update, ErrKind, FaultPlan};

fn genre_doc(name: &str, description: &str) -> EntityDoc {
    let meta = Metadata::new_genre(name.to_string(), description.to_string());
    EntityDoc {
        id: meta.mongo_id(),
        payload: Payload::Meta(meta),
    }
}

fn stores() -> (DocStore, GraphStore) {
    (DocStore::new(), GraphStore::new())
}

fn fp_with(f: impl Fn(&mut FaultPlan)) -> FaultPlan {
    let mut fp = FaultPlan::none();
    f(&mut fp);
    fp
}

#[test]
fn insert_genre_applies_to_both_stores() {
    let (mut docs, mut graph) = stores();
    let r = run_insert(&mut docs, &mut graph, genre_doc("sci-fi", "speculative fiction"), FaultPlan::none());
    assert!(matches!(r, Ok(true)));
    assert_eq!(docs.records.len(), 1);
    assert_eq!(docs.records[0].id, "genre:sci-fi");
    assert_eq!(graph.nodes.len(), 1);
    assert_eq!(graph.nodes[0].label, "Genre");
    assert_eq!(graph.nodes[0].key, "sci-fi");
    let props = &graph.nodes[0].props;
    assert_eq!(props[0].name, "name");
    assert!(matches!(&props[0].value, PropValue::Str(v) if v == "sci-fi"));
    assert_eq!(props[1].name, "description");
    assert!(matches!(&props[1].value, PropValue::Str(v) if v == "speculative fiction"));
}

#[test]
fn insert_source_passes_through_without_graph() {
    let (mut docs, mut graph) = stores();
    let meta = Metadata::new_source("kaggle".to_string(), "https://kaggle.example".to_string());
    let doc = EntityDoc {
        id: meta.mongo_id(),
        payload: Payload::Meta(meta),
    };
    let r = run_insert(&mut docs, &mut graph, doc, FaultPlan::none());
    assert!(matches!(r, Ok(true)));
    assert_eq!(docs.records.len(), 1);
    assert_eq!(docs.records[0].id, "source:kaggle");
    assert!(graph.nodes.is_empty());
}

#[test]
fn duplicate_insert_is_document_store_error() {
    let (mut docs, mut graph) = stores();
    run_insert(&mut docs, &mut graph, genre_doc("a", "b"), FaultPlan::none()).unwrap();
    let r = run_insert(&mut docs, &mut graph, genre_doc("a", "b"), FaultPlan::none());
    match r {
        Err(e) => assert_eq!(e.kind, ErrKind::DocumentStore),
        Ok(_) => panic!("duplicate insert must be refused"),
    }
    assert_eq!(docs.records.len(), 1);
    assert_eq!(graph.nodes.len(), 1);
}

#[test]
fn graph_stage_failure_touches_nothing() {
    let (mut docs, mut graph) = stores();
    let fp = fp_with(|f| f.graph_stage_fails = true);
    let r = run_insert(&mut docs, &mut graph, genre_doc("a", "b"), fp);
    match r {
        Err(e) => assert_eq!(e.kind, ErrKind::GraphStore),
        Ok(_) => panic!("graph staging failure must fail the write"),
    }
    assert!(docs.records.is_empty());
    assert!(graph.nodes.is_empty());
}

#[test]
fn doc_commit_failure_rolls_back_graph() {
    let (mut docs, mut graph) = stores();
    let fp = fp_with(|f| f.doc_commit_fails = true);
    let r = run_insert(&mut docs, &mut graph, genre_doc("a", "b"), fp);
    match r {
        Err(e) => assert_eq!(e.kind, ErrKind::CommitFailure),
        Ok(_) => panic!("document commit failure must fail the write"),
    }
    assert!(docs.records.is_empty());
    assert!(graph.nodes.is_empty());
}

#[test]
fn graph_commit_failure_compensates_insert() {
    let (mut docs, mut graph) = stores();
    let fp = fp_with(|f| f.graph_commit_fails = true);
    let r = run_insert(&mut docs, &mut graph, genre_doc("a", "b"), fp);
    match r {
        Err(e) => assert_eq!(e.kind, ErrKind::GraphStore),
        Ok(_) => panic!("graph commit failure must fail the write"),
    }
    // the compensating delete reversed the committed document insert
    assert!(docs.records.is_empty());
    assert!(graph.nodes.is_empty());
}

#[test]
fn failed_compensation_is_partial_failure() {
    let (mut docs, mut graph) = stores();
    let fp = fp_with(|f| {
        f.graph_commit_fails = true;
        f.compensation_fails = true;
    });
    let r = run_insert(&mut docs, &mut graph, genre_doc("a", "b"), fp);
    match r {
        Err(e) => {
            assert_eq!(e.kind, ErrKind::PartialFailure);
            assert_eq!(e.label, "Genre");
            assert_eq!(e.ids, vec!["genre:a".to_string()]);
        }
        Ok(_) => panic!("a failed compensation must be loud"),
    }
    // the document store is ahead: the write stuck, the graph never did
    assert_eq!(docs.records.len(), 1);
    assert!(graph.nodes.is_empty());
}

#[test]
fn update_missing_genre_is_not_found() {
    let (mut docs, mut graph) = stores();
    let r = run_update(&mut docs, &mut graph, genre_doc("a", "b"), FaultPlan::none());
    match r {
        Err(e) => assert_eq!(e.kind, ErrKind::NotFound),
        Ok(_) => panic!("updating a missing document must fail"),
    }
}

#[test]
fn update_with_missing_node_is_graph_entity_missing() {
    let (mut docs, mut graph) = stores();
    // a document whose mirror node was lost: the stores diverged upstream
    docs.insert_direct(genre_doc("a", "b"));
    let r = run_update(&mut docs, &mut graph, genre_doc("a", "c"), FaultPlan::none());
    match r {
        Err(e) => assert_eq!(e.kind, ErrKind::GraphEntityMissing),
        Ok(_) => panic!("a zero-match presence check must fail the write"),
    }
    // nothing was committed: the document still holds the old value
    match &docs.records[0].payload {
        Payload::Meta(Metadata::Genre { description, .. }) => assert_eq!(description, "b"),
        _ => panic!("unexpected payload"),
    }
}

#[test]
fn update_compensation_restores_previous_snapshot() {
    let (mut docs, mut graph) = stores();
    run_insert(&mut docs, &mut graph, genre_doc("a", "old"), FaultPlan::none()).unwrap();
    let fp = fp_with(|f| f.graph_commit_fails = true);
    let r = run_update(&mut docs, &mut graph, genre_doc("a", "new"), fp);
    assert!(matches!(r, Err(_)));
    match &docs.records[0].payload {
        Payload::Meta(Metadata::Genre { description, .. }) => assert_eq!(description, "old"),
        _ => panic!("unexpected payload"),
    }
}

#[test]
fn delete_compensation_reinserts_previous_snapshot() {
    let (mut docs, mut graph) = stores();
    run_insert(&mut docs, &mut graph, genre_doc("a", "b"), FaultPlan::none()).unwrap();
    let fp = fp_with(|f| f.graph_commit_fails = true);
    let r = run_delete(&mut docs, &mut graph, "genre:a".to_string(), fp);
    match r {
        Err(e) => assert_eq!(e.kind, ErrKind::GraphStore),
        Ok(_) => panic!("graph commit failure must fail the write"),
    }
    assert_eq!(docs.records.len(), 1);
    assert_eq!(docs.records[0].id, "genre:a");
    // the graph transaction never committed, so the node survives
    assert_eq!(graph.nodes.len(), 1);
}

#[test]
fn delete_removes_node_and_incident_edges() {
    let (mut docs, mut graph) = stores();
    run_insert(&mut docs, &mut graph, genre_doc("a", "b"), FaultPlan::none()).unwrap();
    let r = run_delete(&mut docs, &mut graph, "genre:a".to_string(), FaultPlan::none());
    assert!(matches!(r, Ok(true)));
    assert!(docs.records.is_empty());
    assert!(graph.nodes.is_empty());
}

#[test]
fn step_follows_the_protocol_order() {
    let (p, a) = step(Phase::Init, Event::Started);
    assert_eq!(p, Phase::StageDocument);
    assert_eq!(a, Action::DoStageDocument);
    let (p, a) = step(Phase::StageDocument, Event::Succeeded);
    assert_eq!(p, Phase::StageGraph);
    assert_eq!(a, Action::DoStageGraph);
    let (p, a) = step(Phase::StageGraph, Event::Succeeded);
    assert_eq!(p, Phase::CommitDocument);
    assert_eq!(a, Action::DoCommitDocument);
    let (p, a) = step(Phase::CommitDocument, Event::Succeeded);
    assert_eq!(p, Phase::CommitGraph);
    assert_eq!(a, Action::DoCommitGraph);
    let (p, a) = step(Phase::CommitGraph, Event::Succeeded);
    assert_eq!(p, Phase::Applied);
    assert_eq!(a, Action::ReportApplied);
}

#[test]
fn step_failure_paths_abort_and_compensate() {
    let (_, a) = step(Phase::StageGraph, Event::ZeroMatch);
    assert_eq!(a, Action::DoAbortAndReport(ErrKind::GraphEntityMissing));
    let (_, a) = step(Phase::CommitGraph, Event::FailedCall);
    assert_eq!(a, Action::DoCompensate);
    let (_, a) = step(Phase::CompensateDocument, Event::FailedCall);
    assert_eq!(a, Action::ReportError(ErrKind::PartialFailure));
    let (_, a) = step(Phase::CompensateDocument, Event::Succeeded);
    assert_eq!(a, Action::ReportError(ErrKind::GraphStore));
}

#[test]
fn step_missing_document_reports_not_found() {
    let (p, a) = step(Phase::StageDocument, Event::NoDocument);
    assert_eq!(p, Phase::Failed);
    assert_eq!(a, Action::DoAbortAndReport(ErrKind::NotFound));
}

#[test]
fn step_commit_timeout_is_unknown_never_compensated() {
    let (p, a) = step(Phase::CommitDocument, Event::TimedOut);
    assert_eq!(p, Phase::Unknown);
    assert_eq!(a, Action::ReportError(ErrKind::CommitOutcomeUnknown));
    let (p, a) = step(Phase::CommitGraph, Event::TimedOut);
    assert_eq!(p, Phase::Unknown);
    assert_eq!(a, Action::ReportError(ErrKind::CommitOutcomeUnknown));
}

#[test]
fn metadata_ids_and_kinds() {
    let g = Metadata::new_genre("sci-fi".to_string(), "d".to_string());
    assert_eq!(g.kind(), "genre");
    assert_eq!(g.key(), "sci-fi");
    assert_eq!(g.mongo_id(), "genre:sci-fi");
    assert!(g.save_in_noe4j());
    let s = Metadata::new_source("kaggle".to_string(), "w".to_string());
    assert_eq!(s.kind(), "source");
    assert!(!s.save_in_noe4j());
    let l = Metadata::new_language("en".to_string(), "English".to_string());
    assert_eq!(l.key(), "en");
    assert_eq!(l.mongo_id(), "language:en");
    let p = Metadata::new_publisher("acme".to_string(), "w".to_string());
    assert_eq!(p.mongo_id(), "publisher:acme");
    assert_eq!(Metadata::id_from("genre", "x"), "genre:x");
    let doc = g.to_doc();
    assert_eq!(doc.id, "genre:sci-fi");
    assert_eq!(doc.key, "sci-fi");
}

#[test]
fn metadata_key_ids_match_value_ids() {
    let k = MetadataKey::Genre { name: "sci-fi".to_string() };
    assert_eq!(k.kind(), "genre");
    assert_eq!(k.key(), "sci-fi");
    assert_eq!(k.mongo_id(), "genre:sci-fi");
    assert!(k.save_in_noe4j());
    let k = MetadataKey::Language { code: "en".to_string() };
    assert_eq!(k.mongo_id(), "language:en");
    assert!(!k.save_in_noe4j());
}
