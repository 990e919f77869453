use vstd::prelude::*;
use vstd::string::StringExecFns;

use crate::catalog::{catalog_of, lemma_absent_stem_never_inserted, Catalog};
use crate::errors::Error;
use crate::kind::DataKind;
use crate::stem::stem_spec;
use rmp_serde::decode::Error as RmpDecodeError;
use serde_json::Error as JsonError;

verus! {

#[verifier::external_type_specification]
#[verifier::external_body]
pub struct ExRmpvValue(rmpv::Value);

#[verifier::external_type_specification]
#[verifier::external_body]
pub struct ExJsonValue(serde_json::Value);

/// Whether a byte sequence parses as a value of the compact binary format
/// that corpus and metric files use.
pub uninterp spec fn msgpack_decodes(b: Seq<u8>) -> bool;

/// Relies on rmp_serde::from_slice: it reads only the given bytes, so
/// whether they parse is a function of the bytes alone.
#[verifier::external_body]
fn msgpack_from_slice(b: &[u8]) -> (r: Result<rmpv::Value, RmpDecodeError>)
    ensures
        r is Ok <==> msgpack_decodes(b@),
{
    rmp_serde::from_slice(b)
}

/// Whether a text parses as a JSON value, the format layout files use.
pub uninterp spec fn json_decodes(s: Seq<char>) -> bool;

/// Relies on serde_json::from_str: it reads only the given text, so whether
/// it parses is a function of the text alone.
#[verifier::external_body]
fn json_from_str(s: &str) -> (r: Result<serde_json::Value, JsonError>)
    ensures
        r is Ok <==> json_decodes(s@),
{
    serde_json::from_str(s)
}

/// Relies on directories::BaseDirs::new and BaseDirs::data_dir: the
/// OS-specific per-user data root, or `None` when the platform cannot
/// determine a home directory. The result depends on the process
/// environment, so nothing is promised of its value.
#[verifier::external_body]
fn user_data_root() -> (r: Option<String>) {
    directories::BaseDirs::new().map(|b| b.data_dir().to_string_lossy().into_owned())
}

/// The store: the data directory's path and one catalog per resource
/// category. Constructed once from directory listings and read-only
/// afterwards.
pub struct Data {
    pub data_dir: String,
    pub corpora: Catalog,
    pub keyboards: Catalog,
    pub layouts: Catalog,
}

impl Data {
    /// The catalog that serves a category's lookups.
    pub open spec fn catalog_view(&self, kind: DataKind) -> Map<Seq<char>, Seq<char>> {
        match kind {
            DataKind::Corpus => self.corpora@,
            DataKind::Keyboard => self.keyboards@,
            DataKind::Layout => self.layouts@,
        }
    }

    /// Resolves the store's data directory: the platform's per-user data
    /// root with the application's namespace segment appended. Fails only
    /// when the platform offers no user profile location.
    pub fn locate_data_dir() -> (r: Result<String, Error>)
        ensures
            r matches Ok(p) ==> p@.len() >= "/keymeow"@.len() && p@.subrange(
                p@.len() - "/keymeow"@.len(),
                p@.len() as int,
            ) == "/keymeow"@,
            r matches Err(e) ==> e is BaseDirs,
    {
        match user_data_root() {
            None => Err(Error::BaseDirs),
            Some(root) => {
                let p = root.concat("/keymeow");
                proof {
                    assert(p@.subrange(p@.len() - "/keymeow"@.len(), p@.len() as int)
                        =~= "/keymeow"@);
                }
                Ok(p)
            }
        }
    }

    /// Assembles the store from the three category listings, each a
    /// sequence of file name and file path pairs in directory order.
    pub fn from_listings(
        data_dir: String,
        corpora: &Vec<(String, String)>,
        keyboards: &Vec<(String, String)>,
        layouts: &Vec<(String, String)>,
    ) -> (r: Data)
        ensures
            r.data_dir == data_dir,
            r.corpora@ == catalog_of(corpora@),
            r.keyboards@ == catalog_of(keyboards@),
            r.layouts@ == catalog_of(layouts@),
    {
        Data {
            data_dir,
            corpora: Catalog::from_entries(corpora),
            keyboards: Catalog::from_entries(keyboards),
            layouts: Catalog::from_entries(layouts),
        }
    }

    /// Pure catalog lookup: the path registered for `name` in `kind`'s
    /// catalog, or `Locate(kind, name)` exactly when the catalog has no
    /// such entry. Touches no file.
    pub fn lookup(&self, kind: DataKind, name: &str) -> (r: Result<String, Error>)
        ensures
            self.catalog_view(kind).contains_key(name@) ==> (r matches Ok(p) && p@
                == self.catalog_view(kind)[name@]),
            !self.catalog_view(kind).contains_key(name@) ==> (r matches Err(e) && e matches
            Error::Locate(k, n) && k == kind && n@ == name@),
    {
        let cat = match kind {
            DataKind::Corpus => &self.corpora,
            DataKind::Keyboard => &self.keyboards,
            DataKind::Layout => &self.layouts,
        };
        match cat.get(name) {
            Some(p) => Ok(p.clone()),
            None => Err(Error::Locate(kind, name.to_owned())),
        }
    }

    /// Loads the corpus called `s`. `file` is the outcome of reading the
    /// file whose path `lookup` resolves for it; the embedding application
    /// performs that read. The result is the decoded value or exactly one
    /// of: the name is not catalogued, the file could not be read, or its
    /// bytes do not parse as the binary format.
    pub fn get_corpus(&self, s: &str, file: Result<Vec<u8>, std::io::Error>) -> (r: Result<
        rmpv::Value,
        Error,
    >)
        ensures
            r is Ok || (r matches Err(e) && (e is Locate || e is FileRead
                || e is RmpDeserialize)),
            !self.corpora@.contains_key(s@) ==> (r matches Err(e) && e matches Error::Locate(
                k,
                n,
            ) && k == DataKind::Corpus && n@ == s@),
            self.corpora@.contains_key(s@) ==> match file {
                Ok(b) => (r is Ok <==> msgpack_decodes(b@)) && (!msgpack_decodes(b@)
                    ==> (r matches Err(e) && e is RmpDeserialize)),
                Err(io) => r matches Err(e) && e == Error::FileRead(io),
            },
    {
        match self.corpora.get(s) {
            None => Err(Error::Locate(DataKind::Corpus, s.to_owned())),
            Some(_path) => match file {
                Err(io) => Err(Error::FileRead(io)),
                Ok(b) => match msgpack_from_slice(b.as_slice()) {
                    Ok(v) => Ok(v),
                    Err(e) => Err(Error::RmpDeserialize(e)),
                },
            },
        }
    }

    /// Loads the keyboard metric table called `s`; `file` as in
    /// `get_corpus`. The result is the decoded value or exactly one of the
    /// three load failures.
    pub fn get_metrics(&self, s: &str, file: Result<Vec<u8>, std::io::Error>) -> (r: Result<
        rmpv::Value,
        Error,
    >)
        ensures
            r is Ok || (r matches Err(e) && (e is Locate || e is FileRead
                || e is RmpDeserialize)),
            !self.keyboards@.contains_key(s@) ==> (r matches Err(e) && e matches Error::Locate(
                k,
                n,
            ) && k == DataKind::Keyboard && n@ == s@),
            self.keyboards@.contains_key(s@) ==> match file {
                Ok(b) => (r is Ok <==> msgpack_decodes(b@)) && (!msgpack_decodes(b@)
                    ==> (r matches Err(e) && e is RmpDeserialize)),
                Err(io) => r matches Err(e) && e == Error::FileRead(io),
            },
    {
        match self.keyboards.get(s) {
            None => Err(Error::Locate(DataKind::Keyboard, s.to_owned())),
            Some(_path) => match file {
                Err(io) => Err(Error::FileRead(io)),
                Ok(b) => match msgpack_from_slice(b.as_slice()) {
                    Ok(v) => Ok(v),
                    Err(e) => Err(Error::RmpDeserialize(e)),
                },
            },
        }
    }

    /// Loads the layout called `s`. `file` is the outcome of reading the
    /// resolved file as text. Layout lookups go through the layout catalog;
    /// the result is the parsed JSON value or exactly one of the three load
    /// failures.
    pub fn get_layout(&self, s: &str, file: Result<String, std::io::Error>) -> (r: Result<
        serde_json::Value,
        Error,
    >)
        ensures
            r is Ok || (r matches Err(e) && (e is Locate || e is FileRead
                || e is JsonDeserialize)),
            !self.layouts@.contains_key(s@) ==> (r matches Err(e) && e matches Error::Locate(
                k,
                n,
            ) && k == DataKind::Layout && n@ == s@),
            self.layouts@.contains_key(s@) ==> match file {
                Ok(t) => (r is Ok <==> json_decodes(t@)) && (!json_decodes(t@) ==> (r matches Err(e)
                    && e is JsonDeserialize)),
                Err(io) => r matches Err(e) && e == Error::FileRead(io),
            },
    {
        match self.layouts.get(s) {
            None => Err(Error::Locate(DataKind::Layout, s.to_owned())),
            Some(_path) => match file {
                Err(io) => Err(Error::FileRead(io)),
                Ok(t) => match json_from_str(t.as_str()) {
                    Ok(v) => Ok(v),
                    Err(e) => Err(Error::JsonDeserialize(e)),
                },
            },
        }
    }
}

/// A name that is the stem of no entry in any of the three listings is
/// never inserted anywhere: the store built from those listings knows it in
/// no category, so every lookup of it can only fail with `Locate`.
pub proof fn lemma_never_listed_name_unknown_to_store(
    d: Data,
    corpora: Seq<(String, String)>,
    keyboards: Seq<(String, String)>,
    layouts: Seq<(String, String)>,
    name: Seq<char>,
    kind: DataKind,
)
    requires
        d.corpora@ == catalog_of(corpora),
        d.keyboards@ == catalog_of(keyboards),
        d.layouts@ == catalog_of(layouts),
        forall|i: int| 0 <= i < corpora.len() ==> stem_spec(corpora[i].0@) != Some(
            name,
        ),
        forall|i: int| 0 <= i < keyboards.len() ==> stem_spec(keyboards[i].0@) != Some(
            name,
        ),
        forall|i: int| 0 <= i < layouts.len() ==> stem_spec(layouts[i].0@) != Some(
            name,
        ),
    ensures
        !d.catalog_view(kind).contains_key(name),
{
    lemma_absent_stem_never_inserted(corpora, name);
    lemma_absent_stem_never_inserted(keyboards, name);
    lemma_absent_stem_never_inserted(layouts, name);
}

/// A name that none of the three catalogs contains misses whatever category
/// is asked: the catalog serving the lookup has no entry for it, so the
/// lookup can only fail with `Locate`.
pub proof fn lemma_unknown_name_misses_every_catalog(d: Data, name: Seq<char>, kind: DataKind)
    requires
        !d.corpora@.contains_key(name),
        !d.keyboards@.contains_key(name),
        !d.layouts@.contains_key(name),
    ensures
        !d.catalog_view(kind).contains_key(name),
{
}

} // verus!
