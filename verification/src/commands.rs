//! The validated commands the services consume, one set per entity kind,
//! as handed over by the transport layer.

use vstd::prelude::*;

verus! {

#[derive(Debug, Clone)]
pub struct PaginationRequest {
    pub page: Option<u64>,
    pub limit: Option<u64>,
}

#[derive(Debug, Clone)]
pub struct GenreGetCommand {
    pub id: String,
}

#[derive(Debug, Clone)]
pub struct GenreCreateCommand {
    pub name: String,
    pub description: String,
}

#[derive(Debug, Clone)]
pub struct GenreUpdateCommand {
    pub name: String,
    pub description: String,
}

#[derive(Debug, Clone)]
pub struct GenreDeleteCommand {
    pub id: String,
}

#[derive(Debug, Clone)]
pub struct GenreListCommand {
    pub pagination: Option<PaginationRequest>,
}

#[derive(Debug, Clone)]
pub struct LanguageGetCommand {
    pub id: String,
}

#[derive(Debug, Clone)]
pub struct LanguageCreateCommand {
    pub code: String,
    pub name: String,
}

#[derive(Debug, Clone)]
pub struct LanguageUpdateCommand {
    pub code: String,
    pub name: String,
}

#[derive(Debug, Clone)]
pub struct LanguageDeleteCommand {
    pub id: String,
}

#[derive(Debug, Clone)]
pub struct LanguageListCommand {
    pub pagination: Option<PaginationRequest>,
}

#[derive(Debug, Clone)]
pub struct PublisherGetCommand {
    pub id: String,
}

#[derive(Debug, Clone)]
pub struct PublisherCreateCommand {
    pub name: String,
    pub website: String,
}

#[derive(Debug, Clone)]
pub struct PublisherUpdateCommand {
    pub name: String,
    pub website: String,
}

#[derive(Debug, Clone)]
pub struct PublisherDeleteCommand {
    pub id: String,
}

#[derive(Debug, Clone)]
pub struct PublisherListCommand {
    pub pagination: Option<PaginationRequest>,
}

#[derive(Debug, Clone)]
pub struct SourceGetCommand {
    pub id: String,
}

#[derive(Debug, Clone)]
pub struct SourceCreateCommand {
    pub name: String,
    pub website: String,
}

#[derive(Debug, Clone)]
pub struct SourceUpdateCommand {
    pub name: String,
    pub website: String,
}

#[derive(Debug, Clone)]
pub struct SourceDeleteCommand {
    pub id: String,
}

#[derive(Debug, Clone)]
pub struct SourceListCommand {
    pub pagination: Option<PaginationRequest>,
}

} // verus!
