//! The publisher service: the per-kind face over the metadata service,
//! delegating every call and inheriting its cache-aside contract.

use vstd::prelude::*;
use crate::commands::{PublisherCreateCommand, PublisherDeleteCommand, PublisherGetCommand, PublisherListCommand, PublisherUpdateCommand};
use crate::metadata::{MetadataKeyView, MetadataView};
use crate::responses::{PublisherResponse, PublisherResponseV};
use crate::saga::{FaultPlan, SagaError};
use crate::service::{create_contract, delete_contract, get_contract, get_result, list_contract, list_result, update_contract, write_view, publisher_responses_of, publisher_update_view, publisher_write_view, MetadataService};

verus! {

/// The contract of the publisher service, specified against the metadata
/// service state an implementation exposes.
pub trait PublisherServiceInterface {
    spec fn svc(&self) -> MetadataService;

    fn get(&mut self, cmd: PublisherGetCommand, fp: FaultPlan) -> (r: Result<
        Option<PublisherResponse>,
        SagaError,
    >)
        requires
            old(self).svc().inv(),
        ensures
            final(self).svc().inv(),
            r is Ok,
            get_contract(
                old(self).svc(),
                final(self).svc(),
                MetadataKeyView::Publisher { name: cmd.id@ },
                fp,
                get_result(old(self).svc(), MetadataKeyView::Publisher { name: cmd.id@ }, fp),
            ),
            (match get_result(
                old(self).svc(),
                MetadataKeyView::Publisher { name: cmd.id@ },
                fp,
            ) {
                Some(MetadataView::Publisher { name, website }) => r matches Ok(o) && o matches Some(
                    resp,
                ) && resp@ == (PublisherResponseV { name: name, website: website }),
                _ => r matches Ok(o) && o is None,
            }),
    ;

    fn create(&mut self, cmd: PublisherCreateCommand, fp: FaultPlan) -> (r: Result<
        PublisherResponse,
        SagaError,
    >)
        requires
            old(self).svc().inv(),
        ensures
            final(self).svc().inv(),
            create_contract(
                old(self).svc(),
                final(self).svc(),
                MetadataView::Publisher { name: cmd.name@, website: cmd.website@ },
                fp,
                publisher_write_view(r),
            ),
    ;

    fn update(&mut self, cmd: PublisherUpdateCommand, fp: FaultPlan) -> (r: Result<
        Option<PublisherResponse>,
        SagaError,
    >)
        requires
            old(self).svc().inv(),
        ensures
            final(self).svc().inv(),
            r matches Ok(o) ==> o is Some,
            update_contract(
                old(self).svc(),
                final(self).svc(),
                MetadataView::Publisher { name: cmd.name@, website: cmd.website@ },
                fp,
                publisher_update_view(r),
            ),
    ;

    fn delete(&mut self, cmd: PublisherDeleteCommand, fp: FaultPlan) -> (r: Result<(), SagaError>)
        requires
            old(self).svc().inv(),
        ensures
            final(self).svc().inv(),
            delete_contract(
                old(self).svc(),
                final(self).svc(),
                MetadataKeyView::Publisher { name: cmd.id@ },
                fp,
                write_view(r),
            ),
    ;

    fn list(&mut self, cmd: PublisherListCommand, fp: FaultPlan) -> (r: Result<
        Vec<PublisherResponse>,
        SagaError,
    >)
        requires
            old(self).svc().inv(),
        ensures
            final(self).svc().inv(),
            r is Ok,
            list_contract(
                old(self).svc(),
                final(self).svc(),
                "publisher"@,
                fp,
                Some(list_result(old(self).svc(), "publisher"@, fp)),
            ),
            r matches Ok(l) ==> l.deep_view() == publisher_responses_of(
                list_result(old(self).svc(), "publisher"@, fp),
            ),
    ;
}

/// The per-kind façade over the shared metadata service.
pub struct PublisherService {
    pub metadata_service: MetadataService,
}

impl PublisherService {
    pub fn new(metadata_service: MetadataService) -> (r: Self)
        requires
            metadata_service.inv(),
        ensures
            r.metadata_service == metadata_service,
    {
        PublisherService { metadata_service }
    }
}

impl PublisherServiceInterface for PublisherService {
    open spec fn svc(&self) -> MetadataService {
        self.metadata_service
    }

    fn get(&mut self, cmd: PublisherGetCommand, fp: FaultPlan) -> (r: Result<
        Option<PublisherResponse>,
        SagaError,
    >) {
        self.metadata_service.get_publisher(cmd, fp)
    }

    fn create(&mut self, cmd: PublisherCreateCommand, fp: FaultPlan) -> (r: Result<
        PublisherResponse,
        SagaError,
    >) {
        self.metadata_service.create_publisher(cmd, fp)
    }

    fn update(&mut self, cmd: PublisherUpdateCommand, fp: FaultPlan) -> (r: Result<
        Option<PublisherResponse>,
        SagaError,
    >) {
        self.metadata_service.update_publisher(cmd, fp)
    }

    fn delete(&mut self, cmd: PublisherDeleteCommand, fp: FaultPlan) -> (r: Result<
        (),
        SagaError,
    >) {
        self.metadata_service.delete_publisher(cmd, fp)
    }

    fn list(&mut self, cmd: PublisherListCommand, fp: FaultPlan) -> (r: Result<
        Vec<PublisherResponse>,
        SagaError,
    >) {
        self.metadata_service.list_publishers(cmd, fp)
    }
}

} // verus!
