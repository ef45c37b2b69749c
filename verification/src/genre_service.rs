//! The genre service: the per-kind face over the metadata service,
//! delegating every call and inheriting its cache-aside contract.

use vstd::prelude::*;
use crate::commands::{GenreCreateCommand, GenreDeleteCommand, GenreGetCommand, GenreListCommand, GenreUpdateCommand};
use crate::metadata::{MetadataKeyView, MetadataView};
use crate::responses::{GenreResponse, GenreResponseV};
use crate::saga::{FaultPlan, SagaError};
use crate::service::{create_contract, delete_contract, get_contract, get_result, list_contract, list_result, update_contract, write_view, genre_responses_of, genre_update_view, genre_write_view, MetadataService};

verus! {

/// The contract of the genre service, specified against the metadata
/// service state an implementation exposes.
pub trait GenreServiceInterface {
    spec fn svc(&self) -> MetadataService;

    fn get(&mut self, cmd: GenreGetCommand, fp: FaultPlan) -> (r: Result<
        Option<GenreResponse>,
        SagaError,
    >)
        requires
            old(self).svc().inv(),
        ensures
            final(self).svc().inv(),
            r is Ok,
            get_contract(
                old(self).svc(),
                final(self).svc(),
                MetadataKeyView::Genre { name: cmd.id@ },
                fp,
                get_result(old(self).svc(), MetadataKeyView::Genre { name: cmd.id@ }, fp),
            ),
            (match get_result(
                old(self).svc(),
                MetadataKeyView::Genre { name: cmd.id@ },
                fp,
            ) {
                Some(MetadataView::Genre { name, description }) => r matches Ok(o) && o matches Some(
                    resp,
                ) && resp@ == (GenreResponseV { name: name, description: description }),
                _ => r matches Ok(o) && o is None,
            }),
    ;

    fn create(&mut self, cmd: GenreCreateCommand, fp: FaultPlan) -> (r: Result<
        GenreResponse,
        SagaError,
    >)
        requires
            old(self).svc().inv(),
        ensures
            final(self).svc().inv(),
            create_contract(
                old(self).svc(),
                final(self).svc(),
                MetadataView::Genre { name: cmd.name@, description: cmd.description@ },
                fp,
                genre_write_view(r),
            ),
    ;

    fn update(&mut self, cmd: GenreUpdateCommand, fp: FaultPlan) -> (r: Result<
        Option<GenreResponse>,
        SagaError,
    >)
        requires
            old(self).svc().inv(),
        ensures
            final(self).svc().inv(),
            r matches Ok(o) ==> o is Some,
            update_contract(
                old(self).svc(),
                final(self).svc(),
                MetadataView::Genre { name: cmd.name@, description: cmd.description@ },
                fp,
                genre_update_view(r),
            ),
    ;

    fn delete(&mut self, cmd: GenreDeleteCommand, fp: FaultPlan) -> (r: Result<(), SagaError>)
        requires
            old(self).svc().inv(),
        ensures
            final(self).svc().inv(),
            delete_contract(
                old(self).svc(),
                final(self).svc(),
                MetadataKeyView::Genre { name: cmd.id@ },
                fp,
                write_view(r),
            ),
    ;

    fn list(&mut self, cmd: GenreListCommand, fp: FaultPlan) -> (r: Result<
        Vec<GenreResponse>,
        SagaError,
    >)
        requires
            old(self).svc().inv(),
        ensures
            final(self).svc().inv(),
            r is Ok,
            list_contract(
                old(self).svc(),
                final(self).svc(),
                "genre"@,
                fp,
                Some(list_result(old(self).svc(), "genre"@, fp)),
            ),
            r matches Ok(l) ==> l.deep_view() == genre_responses_of(
                list_result(old(self).svc(), "genre"@, fp),
            ),
    ;
}

/// The per-kind façade over the shared metadata service.
pub struct GenreService {
    pub metadata_service: MetadataService,
}

impl GenreService {
    pub fn new(metadata_service: MetadataService) -> (r: Self)
        requires
            metadata_service.inv(),
        ensures
            r.metadata_service == metadata_service,
    {
        GenreService { metadata_service }
    }
}

impl GenreServiceInterface for GenreService {
    open spec fn svc(&self) -> MetadataService {
        self.metadata_service
    }

    fn get(&mut self, cmd: GenreGetCommand, fp: FaultPlan) -> (r: Result<
        Option<GenreResponse>,
        SagaError,
    >) {
        self.metadata_service.get_genre(cmd, fp)
    }

    fn create(&mut self, cmd: GenreCreateCommand, fp: FaultPlan) -> (r: Result<
        GenreResponse,
        SagaError,
    >) {
        self.metadata_service.create_genre(cmd, fp)
    }

    fn update(&mut self, cmd: GenreUpdateCommand, fp: FaultPlan) -> (r: Result<
        Option<GenreResponse>,
        SagaError,
    >) {
        self.metadata_service.update_genre(cmd, fp)
    }

    fn delete(&mut self, cmd: GenreDeleteCommand, fp: FaultPlan) -> (r: Result<
        (),
        SagaError,
    >) {
        self.metadata_service.delete_genre(cmd, fp)
    }

    fn list(&mut self, cmd: GenreListCommand, fp: FaultPlan) -> (r: Result<
        Vec<GenreResponse>,
        SagaError,
    >) {
        self.metadata_service.list_genres(cmd, fp)
    }
}

} // verus!
