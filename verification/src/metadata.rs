//! The canonical metadata entity family: sources, languages, genres and
//! publishers, all persisted in one document collection under ids of the
//! form `kind:key`. Only genres participate in the graph store.

use vstd::prelude::*;
use vstd::string::StringExecFns;

verus! {

/// A metadata entity: the document representation of one record.
#[derive(Debug, Clone)]
pub enum Metadata {
    Source { name: String, website: String },
    Language { code: String, name: String },
    Genre { name: String, description: String },
    Publisher { name: String, website: String },
}

/// Mathematical model of a `Metadata` value.
pub enum MetadataView {
    Source { name: Seq<char>, website: Seq<char> },
    Language { code: Seq<char>, name: Seq<char> },
    Genre { name: Seq<char>, description: Seq<char> },
    Publisher { name: Seq<char>, website: Seq<char> },
}

impl View for Metadata {
    type V = MetadataView;

    open spec fn view(&self) -> MetadataView {
        match self {
            Metadata::Source { name, website } => MetadataView::Source {
                name: name@,
                website: website@,
            },
            Metadata::Language { code, name } => MetadataView::Language {
                code: code@,
                name: name@,
            },
            Metadata::Genre { name, description } => MetadataView::Genre {
                name: name@,
                description: description@,
            },
            Metadata::Publisher { name, website } => MetadataView::Publisher {
                name: name@,
                website: website@,
            },
        }
    }
}

/// The kind tag of a metadata value, as stored in the `type` field.
pub open spec fn kind_of(m: MetadataView) -> Seq<char> {
    match m {
        MetadataView::Source { .. } => "source"@,
        MetadataView::Language { .. } => "language"@,
        MetadataView::Genre { .. } => "genre"@,
        MetadataView::Publisher { .. } => "publisher"@,
    }
}

/// The natural key of a metadata value: the name, or the code for languages.
pub open spec fn key_of(m: MetadataView) -> Seq<char> {
    match m {
        MetadataView::Source { name, .. } => name,
        MetadataView::Language { code, .. } => code,
        MetadataView::Genre { name, .. } => name,
        MetadataView::Publisher { name, .. } => name,
    }
}

/// Per-kind policy: does this kind have a mirrored node in the graph store?
/// This is decided by the kind alone, never per instance.
pub open spec fn participates(m: MetadataView) -> bool {
    m is Genre
}

/// The document id under which a metadata value is stored: `kind:key`.
pub open spec fn id_of(m: MetadataView) -> Seq<char> {
    kind_of(m) + seq![':'] + key_of(m)
}

impl Metadata {
    pub fn new_source(name: String, website: String) -> (r: Self)
        ensures
            r@ == (MetadataView::Source { name: name@, website: website@ }),
    {
        Self::Source { name, website }
    }

    pub fn new_language(code: String, name: String) -> (r: Self)
        ensures
            r@ == (MetadataView::Language { code: code@, name: name@ }),
    {
        Self::Language { code, name }
    }

    pub fn new_genre(name: String, description: String) -> (r: Self)
        ensures
            r@ == (MetadataView::Genre { name: name@, description: description@ }),
    {
        Self::Genre { name, description }
    }

    pub fn new_publisher(name: String, website: String) -> (r: Self)
        ensures
            r@ == (MetadataView::Publisher { name: name@, website: website@ }),
    {
        Self::Publisher { name, website }
    }

    /// Per-kind graph participation policy; only genres are mirrored.
    pub fn save_in_noe4j(&self) -> (r: bool)
        ensures
            r == participates(self@),
    {
        match self {
            Metadata::Genre { .. } => true,
            _ => false,
        }
    }

    pub fn key(&self) -> (r: &str)
        ensures
            r@ == key_of(self@),
    {
        match self {
            Metadata::Source { name, .. } => name.as_str(),
            Metadata::Genre { name, .. } => name.as_str(),
            Metadata::Language { code, .. } => code.as_str(),
            Metadata::Publisher { name, .. } => name.as_str(),
        }
    }

    pub fn kind(&self) -> (r: &'static str)
        ensures
            r@ == kind_of(self@),
    {
        match self {
            Metadata::Source { .. } => "source",
            Metadata::Language { .. } => "language",
            Metadata::Genre { .. } => "genre",
            Metadata::Publisher { .. } => "publisher",
        }
    }

    /// The collision-free document id: `kind:key`.
    pub fn mongo_id(&self) -> (r: String)
        ensures
            r@ == id_of(self@),
    {
        proof {
            reveal_strlit(":");
        }
        let s = String::from_str(self.kind());
        let s = s.concat(":");
        let r = s.concat(self.key());
        proof {
            assert(r@ =~= id_of(self@));
        }
        r
    }

    /// A structure-preserving copy whose model equals this one's.
    pub fn duplicate(&self) -> (r: Self)
        ensures
            r@ == self@,
    {
        match self {
            Metadata::Source { name, website } => Metadata::Source {
                name: name.clone(),
                website: website.clone(),
            },
            Metadata::Language { code, name } => Metadata::Language {
                code: code.clone(),
                name: name.clone(),
            },
            Metadata::Genre { name, description } => Metadata::Genre {
                name: name.clone(),
                description: description.clone(),
            },
            Metadata::Publisher { name, website } => Metadata::Publisher {
                name: name.clone(),
                website: website.clone(),
            },
        }
    }

    pub fn to_doc(&self) -> (r: MetadataDoc)
        ensures
            r@ == (MetadataDocView { id: id_of(self@), key: key_of(self@), meta: self@ }),
    {
        MetadataDoc { id: self.mongo_id(), key: self.key().to_owned(), meta: self.duplicate() }
    }

    /// Builds a document id from a kind tag and a key.
    pub fn id_from(kind: &str, key: &str) -> (r: String)
        ensures
            r@ == kind@ + seq![':'] + key@,
    {
        proof {
            reveal_strlit(":");
        }
        let s = String::from_str(kind);
        let s = s.concat(":");
        let r = s.concat(key);
        proof {
            assert(r@ =~= kind@ + seq![':'] + key@);
        }
        r
    }
}

/// The persisted shape of a metadata entity: the id, the denormalized key
/// for queries, and the entity itself.
#[derive(Debug, Clone)]
pub struct MetadataDoc {
    pub id: String,
    pub key: String,
    pub meta: Metadata,
}

pub struct MetadataDocView {
    pub id: Seq<char>,
    pub key: Seq<char>,
    pub meta: MetadataView,
}

impl View for MetadataDoc {
    type V = MetadataDocView;

    open spec fn view(&self) -> MetadataDocView {
        MetadataDocView { id: self.id@, key: self.key@, meta: self.meta@ }
    }
}

/// The lookup key of a metadata entity: the kind and the natural key,
/// without the remaining fields.
#[derive(Debug, Clone)]
pub enum MetadataKey {
    Source { name: String },
    Language { code: String },
    Genre { name: String },
    Publisher { name: String },
}

pub enum MetadataKeyView {
    Source { name: Seq<char> },
    Language { code: Seq<char> },
    Genre { name: Seq<char> },
    Publisher { name: Seq<char> },
}

impl View for MetadataKey {
    type V = MetadataKeyView;

    open spec fn view(&self) -> MetadataKeyView {
        match self {
            MetadataKey::Source { name } => MetadataKeyView::Source { name: name@ },
            MetadataKey::Language { code } => MetadataKeyView::Language { code: code@ },
            MetadataKey::Genre { name } => MetadataKeyView::Genre { name: name@ },
            MetadataKey::Publisher { name } => MetadataKeyView::Publisher { name: name@ },
        }
    }
}

pub open spec fn key_kind_of(k: MetadataKeyView) -> Seq<char> {
    match k {
        MetadataKeyView::Source { .. } => "source"@,
        MetadataKeyView::Language { .. } => "language"@,
        MetadataKeyView::Genre { .. } => "genre"@,
        MetadataKeyView::Publisher { .. } => "publisher"@,
    }
}

pub open spec fn key_key_of(k: MetadataKeyView) -> Seq<char> {
    match k {
        MetadataKeyView::Source { name } => name,
        MetadataKeyView::Language { code } => code,
        MetadataKeyView::Genre { name } => name,
        MetadataKeyView::Publisher { name } => name,
    }
}

pub open spec fn key_participates(k: MetadataKeyView) -> bool {
    k is Genre
}

pub open spec fn key_id_of(k: MetadataKeyView) -> Seq<char> {
    key_kind_of(k) + seq![':'] + key_key_of(k)
}

/// The lookup key that addresses a given metadata value.
pub open spec fn key_of_meta(m: MetadataView) -> MetadataKeyView {
    match m {
        MetadataView::Source { name, .. } => MetadataKeyView::Source { name: name },
        MetadataView::Language { code, .. } => MetadataKeyView::Language { code: code },
        MetadataView::Genre { name, .. } => MetadataKeyView::Genre { name: name },
        MetadataView::Publisher { name, .. } => MetadataKeyView::Publisher { name: name },
    }
}

impl MetadataKey {
    /// Per-kind graph participation policy, identical to the entity's.
    pub fn save_in_noe4j(&self) -> (r: bool)
        ensures
            r == key_participates(self@),
    {
        match self {
            MetadataKey::Genre { .. } => true,
            _ => false,
        }
    }

    pub fn kind(&self) -> (r: &'static str)
        ensures
            r@ == key_kind_of(self@),
    {
        match self {
            MetadataKey::Source { .. } => "source",
            MetadataKey::Language { .. } => "language",
            MetadataKey::Genre { .. } => "genre",
            MetadataKey::Publisher { .. } => "publisher",
        }
    }

    pub fn key(&self) -> (r: &str)
        ensures
            r@ == key_key_of(self@),
    {
        match self {
            MetadataKey::Source { name } => name.as_str(),
            MetadataKey::Genre { name } => name.as_str(),
            MetadataKey::Language { code } => code.as_str(),
            MetadataKey::Publisher { name } => name.as_str(),
        }
    }

    pub fn mongo_id(&self) -> (r: String)
        ensures
            r@ == key_id_of(self@),
    {
        proof {
            reveal_strlit(":");
        }
        let s = String::from_str(self.kind());
        let s = s.concat(":");
        let r = s.concat(self.key());
        proof {
            assert(r@ =~= key_id_of(self@));
        }
        r
    }
}

/// The id of the key equals the id of any value it addresses.
pub proof fn lemma_key_id_matches(m: MetadataView)
    ensures
        key_id_of(key_of_meta(m)) == id_of(m),
{
}

} // verus!
