//! The response shapes the services hand back upward, one per entity
//! kind, with the conversions from the stored entity.

use vstd::prelude::*;
use crate::catalog::{Genre, Language, Publisher, Source};
use crate::metadata::{Metadata, MetadataView};

verus! {

#[derive(Debug, Clone)]
pub struct GenreResponse {
    pub name: String,
    pub description: String,
}

pub struct GenreResponseV {
    pub name: Seq<char>,
    pub description: Seq<char>,
}

impl View for GenreResponse {
    type V = GenreResponseV;

    open spec fn view(&self) -> GenreResponseV {
        GenreResponseV { name: self.name@, description: self.description@ }
    }
}

impl GenreResponse {
    pub fn from_genre(genre: &Genre) -> (r: Self)
        ensures
            r@ == (GenreResponseV { name: genre.name@, description: genre.description@ }),
    {
        Self { name: genre.name.clone(), description: genre.description.clone() }
    }

    pub fn from_metadata(metadata: &Metadata) -> (r: Self)
        requires
            metadata@ is Genre,
        ensures
            r@ == (GenreResponseV {
                name: metadata@->Genre_name,
                description: metadata@->Genre_description,
            }),
    {
        match metadata {
            Metadata::Genre { name, description } => Self {
                name: name.clone(),
                description: description.clone(),
            },
            _ => unreached(),
        }
    }
}

#[derive(Debug, Clone)]
pub struct LanguageResponse {
    pub code: String,
    pub name: String,
}

pub struct LanguageResponseV {
    pub code: Seq<char>,
    pub name: Seq<char>,
}

impl View for LanguageResponse {
    type V = LanguageResponseV;

    open spec fn view(&self) -> LanguageResponseV {
        LanguageResponseV { code: self.code@, name: self.name@ }
    }
}

impl LanguageResponse {
    pub fn from_language(language: &Language) -> (r: Self)
        ensures
            r@ == (LanguageResponseV { code: language.code@, name: language.name@ }),
    {
        Self { code: language.code.clone(), name: language.name.clone() }
    }

    pub fn from_metadata(metadata: &Metadata) -> (r: Self)
        requires
            metadata@ is Language,
        ensures
            r@ == (LanguageResponseV {
                code: metadata@->Language_code,
                name: metadata@->Language_name,
            }),
    {
        match metadata {
            Metadata::Language { code, name } => Self {
                code: code.clone(),
                name: name.clone(),
            },
            _ => unreached(),
        }
    }
}

#[derive(Debug, Clone)]
pub struct PublisherResponse {
    pub name: String,
    pub website: String,
}

pub struct PublisherResponseV {
    pub name: Seq<char>,
    pub website: Seq<char>,
}

impl View for PublisherResponse {
    type V = PublisherResponseV;

    open spec fn view(&self) -> PublisherResponseV {
        PublisherResponseV { name: self.name@, website: self.website@ }
    }
}

impl PublisherResponse {
    pub fn from_publisher(publisher: &Publisher) -> (r: Self)
        ensures
            r@ == (PublisherResponseV { name: publisher.name@, website: publisher.website@ }),
    {
        Self { name: publisher.name.clone(), website: publisher.website.clone() }
    }

    pub fn from_metadata(metadata: &Metadata) -> (r: Self)
        requires
            metadata@ is Publisher,
        ensures
            r@ == (PublisherResponseV {
                name: metadata@->Publisher_name,
                website: metadata@->Publisher_website,
            }),
    {
        match metadata {
            Metadata::Publisher { name, website } => Self {
                name: name.clone(),
                website: website.clone(),
            },
            _ => unreached(),
        }
    }
}

#[derive(Debug, Clone)]
pub struct SourceResponse {
    pub name: String,
    pub website: String,
}

pub struct SourceResponseV {
    pub name: Seq<char>,
    pub website: Seq<char>,
}

impl View for SourceResponse {
    type V = SourceResponseV;

    open spec fn view(&self) -> SourceResponseV {
        SourceResponseV { name: self.name@, website: self.website@ }
    }
}

impl SourceResponse {
    pub fn from_source(source: &Source) -> (r: Self)
        ensures
            r@ == (SourceResponseV { name: source.name@, website: source.website@ }),
    {
        Self { name: source.name.clone(), website: source.website.clone() }
    }

    pub fn from_metadata(metadata: &Metadata) -> (r: Self)
        requires
            metadata@ is Source,
        ensures
            r@ == (SourceResponseV {
                name: metadata@->Source_name,
                website: metadata@->Source_website,
            }),
    {
        match metadata {
            Metadata::Source { name, website } => Self {
                name: name.clone(),
                website: website.clone(),
            },
            _ => unreached(),
        }
    }
}

impl DeepView for GenreResponse {
    type V = GenreResponseV;

    open spec fn deep_view(&self) -> GenreResponseV {
        self.view()
    }
}

impl DeepView for LanguageResponse {
    type V = LanguageResponseV;

    open spec fn deep_view(&self) -> LanguageResponseV {
        self.view()
    }
}

impl DeepView for PublisherResponse {
    type V = PublisherResponseV;

    open spec fn deep_view(&self) -> PublisherResponseV {
        self.view()
    }
}

impl DeepView for SourceResponse {
    type V = SourceResponseV;

    open spec fn deep_view(&self) -> SourceResponseV {
        self.view()
    }
}

/// The create/update request shapes of the transport layer.
#[derive(Debug, Clone)]
pub struct GenreCreateRequest {
    pub name: String,
    pub description: String,
}

#[derive(Debug, Clone)]
pub struct GenreUpdateRequest {
    pub description: String,
}

#[derive(Debug, Clone)]
pub struct LanguageCreateRequest {
    pub code: String,
    pub name: String,
}

#[derive(Debug, Clone)]
pub struct LanguageUpdateRequest {
    pub name: String,
}

#[derive(Debug, Clone)]
pub struct PublisherCreateRequest {
    pub name: String,
    pub website: String,
}

#[derive(Debug, Clone)]
pub struct PublisherUpdateRequest {
    pub website: String,
}

#[derive(Debug, Clone)]
pub struct SourceCreateRequest {
    pub name: String,
    pub website: String,
}

#[derive(Debug, Clone)]
pub struct SourceUpdateRequest {
    pub website: String,
}

} // verus!
