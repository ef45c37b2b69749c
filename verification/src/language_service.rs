//! The language service: the per-kind face over the metadata service,
//! delegating every call and inheriting its cache-aside contract.

use vstd::prelude::*;
use crate::commands::{LanguageCreateCommand, LanguageDeleteCommand, LanguageGetCommand, LanguageListCommand, LanguageUpdateCommand};
use crate::metadata::{MetadataKeyView, MetadataView};
use crate::responses::{LanguageResponse, LanguageResponseV};
use crate::saga::{FaultPlan, SagaError};
use crate::service::{create_contract, delete_contract, get_contract, get_result, list_contract, list_result, update_contract, write_view, language_responses_of, language_update_view, language_write_view, MetadataService};

verus! {

/// The contract of the language service, specified against the metadata
/// service state an implementation exposes.
pub trait LanguageServiceInterface {
    spec fn svc(&self) -> MetadataService;

    fn get(&mut self, cmd: LanguageGetCommand, fp: FaultPlan) -> (r: Result<
        Option<LanguageResponse>,
        SagaError,
    >)
        requires
            old(self).svc().inv(),
        ensures
            final(self).svc().inv(),
            r is Ok,
            get_contract(
                old(self).svc(),
                final(self).svc(),
                MetadataKeyView::Language { code: cmd.id@ },
                fp,
                get_result(old(self).svc(), MetadataKeyView::Language { code: cmd.id@ }, fp),
            ),
            (match get_result(
                old(self).svc(),
                MetadataKeyView::Language { code: cmd.id@ },
                fp,
            ) {
                Some(MetadataView::Language { code, name }) => r matches Ok(o) && o matches Some(
                    resp,
                ) && resp@ == (LanguageResponseV { code: code, name: name }),
                _ => r matches Ok(o) && o is None,
            }),
    ;

    fn create(&mut self, cmd: LanguageCreateCommand, fp: FaultPlan) -> (r: Result<
        LanguageResponse,
        SagaError,
    >)
        requires
            old(self).svc().inv(),
        ensures
            final(self).svc().inv(),
            create_contract(
                old(self).svc(),
                final(self).svc(),
                MetadataView::Language { code: cmd.code@, name: cmd.name@ },
                fp,
                language_write_view(r),
            ),
    ;

    fn update(&mut self, cmd: LanguageUpdateCommand, fp: FaultPlan) -> (r: Result<
        Option<LanguageResponse>,
        SagaError,
    >)
        requires
            old(self).svc().inv(),
        ensures
            final(self).svc().inv(),
            r matches Ok(o) ==> o is Some,
            update_contract(
                old(self).svc(),
                final(self).svc(),
                MetadataView::Language { code: cmd.code@, name: cmd.name@ },
                fp,
                language_update_view(r),
            ),
    ;

    fn delete(&mut self, cmd: LanguageDeleteCommand, fp: FaultPlan) -> (r: Result<(), SagaError>)
        requires
            old(self).svc().inv(),
        ensures
            final(self).svc().inv(),
            delete_contract(
                old(self).svc(),
                final(self).svc(),
                MetadataKeyView::Language { code: cmd.id@ },
                fp,
                write_view(r),
            ),
    ;

    fn list(&mut self, cmd: LanguageListCommand, fp: FaultPlan) -> (r: Result<
        Vec<LanguageResponse>,
        SagaError,
    >)
        requires
            old(self).svc().inv(),
        ensures
            final(self).svc().inv(),
            r is Ok,
            list_contract(
                old(self).svc(),
                final(self).svc(),
                "language"@,
                fp,
                Some(list_result(old(self).svc(), "language"@, fp)),
            ),
            r matches Ok(l) ==> l.deep_view() == language_responses_of(
                list_result(old(self).svc(), "language"@, fp),
            ),
    ;
}

/// The per-kind façade over the shared metadata service.
pub struct LanguageService {
    pub metadata_service: MetadataService,
}

impl LanguageService {
    pub fn new(metadata_service: MetadataService) -> (r: Self)
        requires
            metadata_service.inv(),
        ensures
            r.metadata_service == metadata_service,
    {
        LanguageService { metadata_service }
    }
}

impl LanguageServiceInterface for LanguageService {
    open spec fn svc(&self) -> MetadataService {
        self.metadata_service
    }

    fn get(&mut self, cmd: LanguageGetCommand, fp: FaultPlan) -> (r: Result<
        Option<LanguageResponse>,
        SagaError,
    >) {
        self.metadata_service.get_language(cmd, fp)
    }

    fn create(&mut self, cmd: LanguageCreateCommand, fp: FaultPlan) -> (r: Result<
        LanguageResponse,
        SagaError,
    >) {
        self.metadata_service.create_language(cmd, fp)
    }

    fn update(&mut self, cmd: LanguageUpdateCommand, fp: FaultPlan) -> (r: Result<
        Option<LanguageResponse>,
        SagaError,
    >) {
        self.metadata_service.update_language(cmd, fp)
    }

    fn delete(&mut self, cmd: LanguageDeleteCommand, fp: FaultPlan) -> (r: Result<
        (),
        SagaError,
    >) {
        self.metadata_service.delete_language(cmd, fp)
    }

    fn list(&mut self, cmd: LanguageListCommand, fp: FaultPlan) -> (r: Result<
        Vec<LanguageResponse>,
        SagaError,
    >) {
        self.metadata_service.list_languages(cmd, fp)
    }
}

} // verus!
