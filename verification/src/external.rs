//! External catalogue identifiers: at most one id per upstream catalogue.

use vstd::prelude::*;

verus! {

#[derive(Debug, Clone)]
pub struct ExternalId {
    pub good_reads: Option<String>,
    pub amazon: Option<String>,
    pub google_books: Option<String>,
    pub kaggle: Option<String>,
}

pub struct ExternalIdV {
    pub good_reads: Option<Seq<char>>,
    pub amazon: Option<Seq<char>>,
    pub google_books: Option<Seq<char>>,
    pub kaggle: Option<Seq<char>>,
}

impl View for ExternalId {
    type V = ExternalIdV;

    open spec fn view(&self) -> ExternalIdV {
        ExternalIdV {
            good_reads: self.good_reads.deep_view(),
            amazon: self.amazon.deep_view(),
            google_books: self.google_books.deep_view(),
            kaggle: self.kaggle.deep_view(),
        }
    }
}

impl ExternalId {
    pub fn from_good_reads(external_id: &str) -> (r: Self)
        ensures
            r@ == (ExternalIdV {
                good_reads: Some(external_id@),
                amazon: None,
                google_books: None,
                kaggle: None,
            }),
    {
        Self {
            good_reads: Some(external_id.to_owned()),
            amazon: None,
            google_books: None,
            kaggle: None,
        }
    }

    pub fn from_amazon(external_id: &str) -> (r: Self)
        ensures
            r@ == (ExternalIdV {
                good_reads: None,
                amazon: Some(external_id@),
                google_books: None,
                kaggle: None,
            }),
    {
        Self {
            good_reads: None,
            amazon: Some(external_id.to_owned()),
            google_books: None,
            kaggle: None,
        }
    }

    pub fn from_google_books(external_id: &str) -> (r: Self)
        ensures
            r@ == (ExternalIdV {
                good_reads: None,
                amazon: None,
                google_books: Some(external_id@),
                kaggle: None,
            }),
    {
        Self {
            good_reads: None,
            amazon: None,
            google_books: Some(external_id.to_owned()),
            kaggle: None,
        }
    }

    pub fn from_kaggle(external_id: &str) -> (r: Self)
        ensures
            r@ == (ExternalIdV {
                good_reads: None,
                amazon: None,
                google_books: None,
                kaggle: Some(external_id@),
            }),
    {
        Self {
            good_reads: None,
            amazon: None,
            google_books: None,
            kaggle: Some(external_id.to_owned()),
        }
    }

    pub fn duplicate(&self) -> (r: Self)
        ensures
            r@ == self@,
    {
        ExternalId {
            good_reads: crate::util::clone_opt_string(&self.good_reads),
            amazon: crate::util::clone_opt_string(&self.amazon),
            google_books: crate::util::clone_opt_string(&self.google_books),
            kaggle: crate::util::clone_opt_string(&self.kaggle),
        }
    }
}

} // verus!
