use vstd::prelude::*;

verus! {

/// The closed set of resource categories the store manages. The category
/// determines the subdirectory a resource lives in and the deserialization
/// format of its files: a compact binary format for corpora and keyboard
/// metrics, JSON text for layouts.
#[derive(Debug, Clone, Copy, PartialEq, Eq, Structural)]
pub enum DataKind {
    Corpus,
    Keyboard,
    Layout,
}

impl DataKind {
    /// The name of the category's subdirectory under the data directory.
    pub open spec fn dir_name_spec(self) -> Seq<char> {
        match self {
            DataKind::Corpus => "corpora"@,
            DataKind::Keyboard => "metrics"@,
            DataKind::Layout => "layouts"@,
        }
    }

    /// The subdirectory under the data directory that holds this category's
    /// resource files.
    pub fn dir_name(&self) -> (r: String)
        ensures
            r@ == self.dir_name_spec(),
    {
        match self {
            DataKind::Corpus => "corpora".to_owned(),
            DataKind::Keyboard => "metrics".to_owned(),
            DataKind::Layout => "layouts".to_owned(),
        }
    }
}

} // verus!
