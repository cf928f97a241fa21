use vstd::prelude::*;
use vstd::string::StrSliceExecFns;
use vstd::string::StringExecFns;

use crate::clock::local_now_string;
use crate::codec::content_value_model;
use crate::codec::lemma_content_value_round_trip;
use crate::codec::lemma_wf_content_value;
use crate::codec::parse_content;
use crate::codec::parse_text_model;
use crate::digest::hex_encode;
use crate::digest::hex_of;
use crate::digest::sha1_digest;
use crate::digest::sha1_of;
use crate::entry::Content;
use crate::entry::ContentModel;
use crate::entry::Header;
use crate::entry::HeaderModel;
use crate::entry::wf_content_model;
use crate::toml_codec::toml_text_of;
use crate::toml_codec::value_to_text;
use crate::codec::value_of_content;

verus! {

/// The outcome a caller can branch on: every operation reports duplicate
/// names, parse failures, serialize failures and I/O failures explicitly.
#[derive(Clone, Copy, Debug, PartialEq, Eq, Structural)]
pub enum SettingsError {
    /// An entry with the same name is already in memory.
    DuplicateName,
    /// A persisted text could not be read back as an entry.
    ParseFailure,
    /// An entry could not be rendered as a persisted text. The manager's
    /// own operations are proved never to report it — every entry document
    /// is a table, which the serializer accepts — but the variant keeps the
    /// taxonomy closed.
    SerializeFailure,
    /// Reading or writing the backing directory failed; reported by callers
    /// that do the actual file work.
    IoFailure,
}

/// One file a save produces: its name (entry name plus extension) and its
/// full text.
pub struct SettingsFile {
    pub name: String,
    pub text: String,
}

/// Owns a base directory path and the in-memory list of entries loaded from
/// or destined for it. Reading and writing the directory itself is the
/// caller's part; the manager computes every text that goes to disk and
/// interprets every text that comes back.
pub struct SettingsManager {
    pub path: String,
    pub settings: Vec<Content>,
}

/// The base path used when none is given.
pub open spec fn default_path() -> Seq<char> {
    "~/.config/settings_manager"@
}

/// The default subfolder's path, joined as a path join does: an empty base
/// gives the relative `default`, a base already ending in a separator gets
/// no second one, any other base gets a separator between.
pub open spec fn default_folder_of(path: Seq<char>) -> Seq<char> {
    if path.len() == 0 {
        "default"@
    } else if path[path.len() - 1] == '/' {
        path + "default"@
    } else {
        path + "/default"@
    }
}

/// An entry as it is stamped into the manager: name and payload kept, the
/// modified flag cleared, the given date and hash put in the header.
pub open spec fn stamped(c: ContentModel, date: Seq<char>, hash: Seq<char>) -> ContentModel {
    ContentModel {
        header: HeaderModel { name: c.header.name, modified: false, hash, date },
        settings: c.settings,
    }
}

/// The text hashed when an entry is stamped: the entry with date set and
/// flag cleared, but the hash field still as the caller left it.
pub open spec fn stamp_hash(c: ContentModel, date: Seq<char>) -> Seq<char> {
    hex_of(sha1_of(toml_text_of(content_value_model(stamped(c, date, c.header.hash)))))
}

impl SettingsManager {
    /// Whether an entry with this name is in memory.
    pub open spec fn has_name(self, name: Seq<char>) -> bool {
        exists|i: int|
            0 <= i < self.settings@.len() && (#[trigger] self.settings@[i]).header.name@ == name
    }

    /// An empty manager over the given base path, or over the default path
    /// when none is given. Creating the directory and reading what is
    /// already in it is file work and stays with the caller, who hands the
    /// file texts to `load`.
    pub fn new(path: Option<String>) -> (m: SettingsManager)
        ensures
            m.settings@.len() == 0,
            match path {
                Some(p) => m.path@ == p@,
                None => m.path@ == default_path(),
            },
    {
        match path {
            Some(p) => SettingsManager { path: p, settings: Vec::new() },
            None => SettingsManager::default(),
        }
    }

    /// The path of the subfolder for default configuration files: the base
    /// path joined with `default`.
    pub fn get_default_folder(&self) -> (r: String)
        ensures
            r@ == default_folder_of(self.path@),
    {
        let n = self.path.as_str().unicode_len();
        if n == 0 {
            return "default".to_owned();
        }
        let last = self.path.as_str().get_char(n - 1);
        let mut r = self.path.clone();
        if last == '/' {
            r.append("default");
        } else {
            r.append("/default");
        }
        r
    }

    /// Adds an entry to the in-memory list. A name already in memory is
    /// reported as a duplicate and leaves the list unchanged; any fresh name
    /// is accepted. The accepted entry is stamped: the current date is put
    /// in the header, the modified flag is cleared, and the hex SHA-1 digest
    /// of the entry's serialized text (taken before the hash field itself is
    /// filled) is stored. Nothing is written to disk; `save` does that.
    pub fn push(&mut self, content: Content) -> (r: Result<(), SettingsError>)
        ensures
            final(self).path == old(self).path,
            r is Ok <==> !old(self).has_name(content.header.name@),
            r is Err ==> *final(self) == *old(self) && r == Err::<(), SettingsError>(
                SettingsError::DuplicateName,
            ),
            r is Ok ==> {
                let n = old(self).settings@.len() as int;
                let e = final(self).settings@[n].model();
                &&& final(self).settings@.len() == n + 1
                &&& forall|i: int|
                    0 <= i < n ==> final(self).settings@[i] == old(self).settings@[i]
                &&& e == stamped(content.model(), e.header.date, stamp_hash(
                    content.model(),
                    e.header.date,
                ))
            },
    {
        let ghost cm = content.model();
        let mut i: usize = 0;
        while i < self.settings.len()
            invariant
                *self == *old(self),
                i <= self.settings@.len(),
                forall|j: int|
                    0 <= j < i ==> (#[trigger] self.settings@[j]).header.name@
                        != content.header.name@,
            decreases self.settings@.len() - i,
        {
            if self.settings[i].header.name == content.header.name {
                return Err(SettingsError::DuplicateName);
            }
            i = i + 1;
        }
        assert(!old(self).has_name(content.header.name@));
        let date = local_now_string();
        let mut c2 = Content {
            header: Header {
                name: content.header.name,
                modified: false,
                hash: content.header.hash,
                date,
            },
            settings: content.settings,
        };
        proof {
            assert(c2.model() =~= stamped(cm, c2.header.date@, cm.header.hash));
        }
        let mirror = value_of_content(&c2);
        match value_to_text(&mirror) {
            None => Err(SettingsError::SerializeFailure),
            Some(text) => {
                let digest = sha1_digest(text.as_str());
                let hash = hex_encode(&digest);
                let ghost d = c2.header.date@;
                c2.header.hash = hash;
                proof {
                    assert(c2.model() =~= stamped(cm, d, stamp_hash(cm, d)));
                }
                self.settings.push(c2);
                Ok(())
            },
        }
    }

    /// Computes the file each in-memory entry is persisted as: the file name
    /// is the entry name with the format's extension, the text is the
    /// entry's serialized form. Saving is owed: every entry document is a
    /// table, which the serializer accepts. Entries whose payload is well
    /// formed parse back to exactly the entry that was saved. The caller
    /// writes the returned files under the base path.
    pub fn save(&self) -> (r: Result<Vec<SettingsFile>, SettingsError>)
        ensures
            r is Ok,
            r matches Ok(files) ==> {
                &&& files@.len() == self.settings@.len()
                &&& forall|i: int|
                    0 <= i < files@.len() ==> {
                        let e = (#[trigger] self.settings@[i]).model();
                        &&& files@[i].name@ == e.header.name + ".toml"@
                        &&& files@[i].text@ == toml_text_of(content_value_model(e))
                        &&& wf_content_model(e) ==> parse_text_model(files@[i].text@) == Some(e)
                    }
            },
    {
        let mut files: Vec<SettingsFile> = Vec::new();
        let mut i: usize = 0;
        while i < self.settings.len()
            invariant
                i <= self.settings@.len(),
                files@.len() == i as int,
                forall|j: int|
                    0 <= j < i ==> {
                        let e = (#[trigger] self.settings@[j]).model();
                        &&& files@[j].name@ == e.header.name + ".toml"@
                        &&& files@[j].text@ == toml_text_of(content_value_model(e))
                        &&& wf_content_model(e) ==> parse_text_model(files@[j].text@) == Some(e)
                    },
            decreases self.settings@.len() - i,
        {
            let entry = &self.settings[i];
            let mirror = value_of_content(entry);
            match value_to_text(&mirror) {
                None => {
                    return Err(SettingsError::SerializeFailure);
                },
                Some(text) => {
                    let mut fname = entry.header.name.clone();
                    fname.append(".toml");
                    proof {
                        if wf_content_model(entry.model()) {
                            lemma_wf_content_value(entry.model());
                            lemma_content_value_round_trip(entry.model());
                        }
                    }
                    files.push(SettingsFile { name: fname, text });
                },
            }
            i = i + 1;
        }
        Ok(files)
    }

    /// Appends the entries persisted in the given file texts, in order. One
    /// unparsable text fails the whole load and leaves the in-memory list
    /// untouched; loading never deduplicates against entries already in
    /// memory. The caller reads the texts of the matching files in the base
    /// directory and hands them in.
    pub fn load(&mut self, texts: &Vec<String>) -> (r: Result<usize, SettingsError>)
        ensures
            final(self).path == old(self).path,
            (forall|i: int|
                0 <= i < texts@.len() ==> parse_text_model((#[trigger] texts@[i])@) is Some) <==> (r
                is Ok),
            r matches Ok(n) ==> {
                let base = old(self).settings@.len() as int;
                &&& n == texts@.len()
                &&& final(self).settings@.len() == base + texts@.len()
                &&& forall|i: int|
                    0 <= i < base ==> final(self).settings@[i] == old(self).settings@[i]
                &&& forall|i: int|
                    0 <= i < texts@.len() ==> parse_text_model((#[trigger] texts@[i])@) == Some(
                        final(self).settings@[base + i].model(),
                    )
            },
            r is Err ==> *final(self) == *old(self) && r == Err::<usize, SettingsError>(
                SettingsError::ParseFailure,
            ),
    {
        let mut parsed: Vec<Content> = Vec::new();
        let mut i: usize = 0;
        while i < texts.len()
            invariant
                *self == *old(self),
                i <= texts@.len(),
                parsed@.len() == i as int,
                forall|j: int|
                    0 <= j < i ==> parse_text_model((#[trigger] texts@[j])@) == Some(
                        parsed@[j].model(),
                    ),
            decreases texts@.len() - i,
        {
            match parse_content(texts[i].as_str()) {
                None => {
                    return Err(SettingsError::ParseFailure);
                },
                Some(c) => {
                    parsed.push(c);
                },
            }
            i = i + 1;
        }
        let n = texts.len();
        self.settings.append(&mut parsed);
        Ok(n)
    }
}

/// The persistence round trip, stated end to end: an entry with a well
/// formed payload, added to a fresh manager, saved, and loaded back through
/// a second fresh manager, comes back with its name and payload intact (and
/// its stamped header unchanged). Every step is owed: the cycle cannot
/// fail.
pub fn add_save_load_round_trip(c: Content, path: String) -> (r: Result<
    Content,
    SettingsError,
>)
    requires
        wf_content_model(c.model()),
    ensures
        r is Ok,
        r matches Ok(e) ==> {
            &&& e.model().header.name == c.model().header.name
            &&& e.model().settings == c.model().settings
        },
{
    let ghost cm = c.model();
    let path2 = path.clone();
    let mut m = SettingsManager::new(Some(path));
    match m.push(c) {
        Err(_) => Err(SettingsError::SerializeFailure),
        Ok(_) => {
            match m.save() {
                Err(_) => Err(SettingsError::SerializeFailure),
                Ok(files) => {
                    let mut texts: Vec<String> = Vec::new();
                    let mut files = files;
                    match files.pop() {
                        None => Err(SettingsError::SerializeFailure),
                        Some(f) => {
                            texts.push(f.text);
                            let mut m2 = SettingsManager::new(Some(path2));
                            match m2.load(&texts) {
                                Err(_) => Err(SettingsError::SerializeFailure),
                                Ok(_) => {
                                    match m2.settings.pop() {
                                        None => Err(SettingsError::SerializeFailure),
                                        Some(e) => {
                                            proof {
                                                let m0 = m.settings@[0].model();
                                                assert(m0.settings == cm.settings);
                                                assert(wf_content_model(m0));
                                                assert(parse_text_model(texts@[0]@) == Some(m0));
                                                assert(e.model() == m0);
                                            }
                                            Ok(e)
                                        },
                                    }
                                },
                            }
                        },
                    }
                },
            }
        },
    }
}

/// Adding twice under one name, stated end to end: the first add of a name
/// is accepted, the second is rejected and changes nothing, so the list
/// holds exactly the entry the first add stamped in.
pub fn add_twice_keeps_first(c1: Content, c2: Content, path: String) -> (m: SettingsManager)
    requires
        c1.header.name@ == c2.header.name@,
    ensures
        m.settings@.len() == 1,
        ({
            let e = m.settings@[0].model();
            e == stamped(c1.model(), e.header.date, stamp_hash(c1.model(), e.header.date))
        }),
{
    let mut m = SettingsManager::new(Some(path));
    let r1 = m.push(c1);
    proof {
        assert(r1 is Ok);
    }
    let r2 = m.push(c2);
    proof {
        assert(m.has_name(c2.header.name@));
        assert(r2 is Err);
    }
    m
}

/// The persistence format re-serializes identically, stated end to end: a
/// text that a save produced, loaded into a fresh manager and saved again,
/// comes back byte for byte.
pub fn saved_text_reserializes(c: Content, path: String) -> (texts: (String, String))
    requires
        wf_content_model(c.model()),
    ensures
        texts.1@ == texts.0@,
        exists|e: ContentModel|
            texts.0@ == toml_text_of(#[trigger] content_value_model(e)) && parse_text_model(
                texts.0@,
            ) == Some(e),
{
    let path2 = path.clone();
    let mut m = SettingsManager::new(Some(path));
    let r1 = m.push(c);
    let mut files = match m.save() {
        Ok(files) => files,
        Err(_) => {
            proof {
                assert(false);
            }
            Vec::new()
        },
    };
    let first = match files.pop() {
        Some(f) => f.text,
        None => {
            proof {
                assert(false);
            }
            String::new()
        },
    };
    let mut texts: Vec<String> = Vec::new();
    texts.push(first.clone());
    let mut m2 = SettingsManager::new(Some(path2));
    let r2 = m2.load(&texts);
    proof {
        assert(wf_content_model(m.settings@[0].model()));
        assert(parse_text_model(texts@[0]@) == Some(m.settings@[0].model()));
        assert(r2 is Ok);
        assert(m2.settings@[0].model() == m.settings@[0].model());
    }
    let mut files2 = match m2.save() {
        Ok(files2) => files2,
        Err(_) => {
            proof {
                assert(false);
            }
            Vec::new()
        },
    };
    let second = match files2.pop() {
        Some(f) => f.text,
        None => {
            proof {
                assert(false);
            }
            String::new()
        },
    };
    (first, second)
}

impl Default for SettingsManager {
    /// An empty manager over the default base path.
    fn default() -> (m: SettingsManager)
        ensures
            m.settings@.len() == 0,
            m.path@ == default_path(),
    {
        SettingsManager { path: "~/.config/settings_manager".to_owned(), settings: Vec::new() }
    }
}

} // verus!
