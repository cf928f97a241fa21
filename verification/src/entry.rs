use vstd::prelude::*;

use crate::value::SettingsValue;
use crate::value::ValModel;
use crate::value::depth_at_most;
use crate::value::wf_model;

verus! {

/// Metadata attached to every stored configuration entry.
pub struct Header {
    /// Unique key of the entry; also the filename stem on disk.
    pub name: String,
    /// Marks unsaved changes; cleared when an entry is stamped in.
    pub modified: bool,
    /// Hex digest of the entry's serialized text, computed when the entry is
    /// stamped in, before this field itself is filled.
    pub hash: String,
    /// Creation timestamp, set when the entry is stamped in.
    pub date: String,
}

/// A named configuration entry: metadata plus an optional payload.
pub struct Content {
    pub header: Header,
    pub settings: Option<SettingsValue>,
}

/// The mathematical model of a [`Header`].
#[verifier::ext_equal]
pub struct HeaderModel {
    pub name: Seq<char>,
    pub modified: bool,
    pub hash: Seq<char>,
    pub date: Seq<char>,
}

/// The mathematical model of a [`Content`].
#[verifier::ext_equal]
pub struct ContentModel {
    pub header: HeaderModel,
    pub settings: Option<ValModel>,
}

impl Header {
    pub open spec fn model(self) -> HeaderModel {
        HeaderModel {
            name: self.name@,
            modified: self.modified,
            hash: self.hash@,
            date: self.date@,
        }
    }
}

impl Content {
    pub open spec fn model(self) -> ContentModel {
        ContentModel {
            header: self.header.model(),
            settings: match self.settings {
                Some(v) => Some(v.model()),
                None => None,
            },
        }
    }
}

/// An entry round-trips through the persistence format when its payload is
/// well formed: tables list their keys sorted, and nesting stays within the
/// format's depth bound (the stored document adds one level around the
/// payload and must stay under the parser's recursion limit).
pub open spec fn wf_content_model(c: ContentModel) -> bool {
    match c.settings {
        Some(v) => wf_model(v) && depth_at_most(v, 65),
        None => true,
    }
}

pub open spec fn empty_header_model() -> HeaderModel {
    HeaderModel {
        name: Seq::empty(),
        modified: false,
        hash: Seq::empty(),
        date: Seq::empty(),
    }
}

impl Default for Header {
    /// A header with empty text fields and a cleared modified flag.
    fn default() -> (h: Header)
        ensures
            h.model() == empty_header_model(),
    {
        let h = Header {
            name: String::new(),
            modified: false,
            hash: String::new(),
            date: String::new(),
        };
        proof {
            assert(h.model() =~= empty_header_model());
        }
        h
    }
}

impl Default for Content {
    /// An entry with a default header and no payload.
    fn default() -> (c: Content)
        ensures
            c.model().header == empty_header_model(),
            c.model().settings is None,
    {
        Content { header: Header::default(), settings: None }
    }
}

} // verus!
