//! Catalog value types: genres, languages, sources and publishers as
//! standalone records, with the embedded and graph-node shapes derived
//! from them.

use vstd::prelude::*;
use crate::metadata::{Metadata, MetadataDoc, MetadataView};

verus! {

#[derive(Debug, Clone)]
pub struct Genre {
    pub name: String,
    pub description: String,
}

pub struct GenreV {
    pub name: Seq<char>,
    pub description: Seq<char>,
}

impl View for Genre {
    type V = GenreV;

    open spec fn view(&self) -> GenreV {
        GenreV { name: self.name@, description: self.description@ }
    }
}

#[derive(Debug, Clone)]
pub struct GenreEmbed {
    pub name: String,
}

impl GenreEmbed {
    pub fn from_genre(genre: &Genre) -> (r: Self)
        ensures
            r.name@ == genre.name@,
    {
        Self { name: genre.name.clone() }
    }

    /// The embedded shape of a stored genre document.
    pub fn from_doc(doc: &MetadataDoc) -> (r: Self)
        requires
            doc.meta@ is Genre,
        ensures
            r.name@ == doc.meta@->Genre_name,
    {
        match &doc.meta {
            Metadata::Genre { name, .. } => Self { name: name.clone() },
            _ => unreached(),
        }
    }
}

#[derive(Debug, Clone)]
pub struct GenreNode {
    pub id: Option<String>,
    pub genre_id: String,
    pub name: String,
}

impl GenreNode {
    pub fn from_genre(genre: &Genre) -> (r: Self)
        ensures
            r.id is None,
            r.genre_id@ == genre.name@,
            r.name@ == genre.name@,
    {
        Self { id: None, genre_id: genre.name.clone(), name: genre.name.clone() }
    }

    pub fn from_doc(doc: &MetadataDoc) -> (r: Self)
        requires
            doc.meta@ is Genre,
        ensures
            r.id is None,
            r.genre_id@ == doc.id@,
            r.name@ == doc.meta@->Genre_name,
    {
        match &doc.meta {
            Metadata::Genre { name, .. } => Self {
                id: None,
                genre_id: doc.id.clone(),
                name: name.clone(),
            },
            _ => unreached(),
        }
    }
}

#[derive(Debug, Clone)]
pub struct Language {
    pub code: String,
    pub name: String,
}

pub struct LanguageV {
    pub code: Seq<char>,
    pub name: Seq<char>,
}

impl DeepView for Language {
    type V = LanguageV;

    open spec fn deep_view(&self) -> LanguageV {
        self.view()
    }
}

impl View for Language {
    type V = LanguageV;

    open spec fn view(&self) -> LanguageV {
        LanguageV { code: self.code@, name: self.name@ }
    }
}

#[derive(Debug, Clone)]
pub struct Source {
    pub name: String,
    pub website: String,
}

pub struct SourceV {
    pub name: Seq<char>,
    pub website: Seq<char>,
}

impl DeepView for Source {
    type V = SourceV;

    open spec fn deep_view(&self) -> SourceV {
        self.view()
    }
}

impl View for Source {
    type V = SourceV;

    open spec fn view(&self) -> SourceV {
        SourceV { name: self.name@, website: self.website@ }
    }
}

#[derive(Debug, Clone)]
pub struct SourceEmbed {
    pub name: String,
}

#[derive(Debug, Clone)]
pub struct Publisher {
    pub name: String,
    pub website: String,
}

pub struct PublisherV {
    pub name: Seq<char>,
    pub website: Seq<char>,
}

impl View for Publisher {
    type V = PublisherV;

    open spec fn view(&self) -> PublisherV {
        PublisherV { name: self.name@, website: self.website@ }
    }
}

#[derive(Debug, Clone)]
pub struct PublisherEmbed {
    pub name: String,
}

impl PublisherEmbed {
    pub fn from_publisher(publisher: &Publisher) -> (r: Self)
        ensures
            r.name@ == publisher.name@,
    {
        Self { name: publisher.name.clone() }
    }

    pub fn from_doc(doc: &MetadataDoc) -> (r: Self)
        requires
            doc.meta@ is Publisher,
        ensures
            r.name@ == doc.meta@->Publisher_name,
    {
        match &doc.meta {
            Metadata::Publisher { name, .. } => Self { name: name.clone() },
            _ => unreached(),
        }
    }
}

#[derive(Debug, Clone)]
pub struct PublisherNode {
    pub id: Option<String>,
    pub publisher_id: String,
    pub name: String,
}

impl PublisherNode {
    pub fn from_publisher(publisher: &Publisher) -> (r: Self)
        ensures
            r.id is None,
            r.publisher_id@ == publisher.name@,
            r.name@ == publisher.name@,
    {
        Self { id: None, publisher_id: publisher.name.clone(), name: publisher.name.clone() }
    }

    pub fn from_doc(doc: &MetadataDoc) -> (r: Self)
        requires
            doc.meta@ is Publisher,
        ensures
            r.id is None,
            r.publisher_id@ == doc.id@,
            r.name@ == doc.meta@->Publisher_name,
    {
        match &doc.meta {
            Metadata::Publisher { name, .. } => Self {
                id: None,
                publisher_id: doc.id.clone(),
                name: name.clone(),
            },
            _ => unreached(),
        }
    }
}

} // verus!
