//! The source service: the per-kind face over the metadata service,
//! delegating every call and inheriting its cache-aside contract.

use vstd::prelude::*;
use crate::commands::{SourceCreateCommand, SourceDeleteCommand, SourceGetCommand, SourceListCommand, SourceUpdateCommand};
use crate::metadata::{MetadataKeyView, MetadataView};
use crate::responses::{SourceResponse, SourceResponseV};
use crate::saga::{FaultPlan, SagaError};
use crate::service::{create_contract, delete_contract, get_contract, get_result, list_contract, list_result, update_contract, write_view, source_responses_of, source_update_view, source_write_view, MetadataService};

verus! {

/// The contract of the source service, specified against the metadata
/// service state an implementation exposes.
pub trait SourceServiceInterface {
    spec fn svc(&self) -> MetadataService;

    fn get(&mut self, cmd: SourceGetCommand, fp: FaultPlan) -> (r: Result<
        Option<SourceResponse>,
        SagaError,
    >)
        requires
            old(self).svc().inv(),
        ensures
            final(self).svc().inv(),
            r is Ok,
            get_contract(
                old(self).svc(),
                final(self).svc(),
                MetadataKeyView::Source { name: cmd.id@ },
                fp,
                get_result(old(self).svc(), MetadataKeyView::Source { name: cmd.id@ }, fp),
            ),
            (match get_result(
                old(self).svc(),
                MetadataKeyView::Source { name: cmd.id@ },
                fp,
            ) {
                Some(MetadataView::Source { name, website }) => r matches Ok(o) && o matches Some(
                    resp,
                ) && resp@ == (SourceResponseV { name: name, website: website }),
                _ => r matches Ok(o) && o is None,
            }),
    ;

    fn create(&mut self, cmd: SourceCreateCommand, fp: FaultPlan) -> (r: Result<
        SourceResponse,
        SagaError,
    >)
        requires
            old(self).svc().inv(),
        ensures
            final(self).svc().inv(),
            create_contract(
                old(self).svc(),
                final(self).svc(),
                MetadataView::Source { name: cmd.name@, website: cmd.website@ },
                fp,
                source_write_view(r),
            ),
    ;

    fn update(&mut self, cmd: SourceUpdateCommand, fp: FaultPlan) -> (r: Result<
        Option<SourceResponse>,
        SagaError,
    >)
        requires
            old(self).svc().inv(),
        ensures
            final(self).svc().inv(),
            r matches Ok(o) ==> o is Some,
            update_contract(
                old(self).svc(),
                final(self).svc(),
                MetadataView::Source { name: cmd.name@, website: cmd.website@ },
                fp,
                source_update_view(r),
            ),
    ;

    fn delete(&mut self, cmd: SourceDeleteCommand, fp: FaultPlan) -> (r: Result<(), SagaError>)
        requires
            old(self).svc().inv(),
        ensures
            final(self).svc().inv(),
            delete_contract(
                old(self).svc(),
                final(self).svc(),
                MetadataKeyView::Source { name: cmd.id@ },
                fp,
                write_view(r),
            ),
    ;

    fn list(&mut self, cmd: SourceListCommand, fp: FaultPlan) -> (r: Result<
        Vec<SourceResponse>,
        SagaError,
    >)
        requires
            old(self).svc().inv(),
        ensures
            final(self).svc().inv(),
            r is Ok,
            list_contract(
                old(self).svc(),
                final(self).svc(),
                "source"@,
                fp,
                Some(list_result(old(self).svc(), "source"@, fp)),
            ),
            r matches Ok(l) ==> l.deep_view() == source_responses_of(
                list_result(old(self).svc(), "source"@, fp),
            ),
    ;
}

/// The per-kind façade over the shared metadata service.
pub struct SourceService {
    pub metadata_service: MetadataService,
}

impl SourceService {
    pub fn new(metadata_service: MetadataService) -> (r: Self)
        requires
            metadata_service.inv(),
        ensures
            r.metadata_service == metadata_service,
    {
        SourceService { metadata_service }
    }
}

impl SourceServiceInterface for SourceService {
    open spec fn svc(&self) -> MetadataService {
        self.metadata_service
    }

    fn get(&mut self, cmd: SourceGetCommand, fp: FaultPlan) -> (r: Result<
        Option<SourceResponse>,
        SagaError,
    >) {
        self.metadata_service.get_source(cmd, fp)
    }

    fn create(&mut self, cmd: SourceCreateCommand, fp: FaultPlan) -> (r: Result<
        SourceResponse,
        SagaError,
    >) {
        self.metadata_service.create_source(cmd, fp)
    }

    fn update(&mut self, cmd: SourceUpdateCommand, fp: FaultPlan) -> (r: Result<
        Option<SourceResponse>,
        SagaError,
    >) {
        self.metadata_service.update_source(cmd, fp)
    }

    fn delete(&mut self, cmd: SourceDeleteCommand, fp: FaultPlan) -> (r: Result<
        (),
        SagaError,
    >) {
        self.metadata_service.delete_source(cmd, fp)
    }

    fn list(&mut self, cmd: SourceListCommand, fp: FaultPlan) -> (r: Result<
        Vec<SourceResponse>,
        SagaError,
    >) {
        self.metadata_service.list_sources(cmd, fp)
    }
}

} // verus!
