use vstd::prelude::*;

use crate::entry::Content;
use crate::entry::ContentModel;
use crate::entry::Header;
use crate::entry::HeaderModel;
use crate::entry::wf_content_model;
use crate::toml_codec::text_to_value;
use crate::toml_codec::toml_value_of;
use crate::value::SettingsValue;
use crate::value::ValModel;
use crate::value::clone_value;
use crate::value::depth_at_most;
use crate::value::lemma_table_model;
use crate::value::lex_lt;
use crate::value::table_model;
use crate::value::wf_model;

verus! {

/// The header block of an entry, as the table the persistence format stores:
/// one key per metadata field, in sorted key order.
pub open spec fn header_table_model(h: HeaderModel) -> Seq<(Seq<char>, ValModel)> {
    seq![
        ("date"@, ValModel::Str(h.date)),
        ("hash"@, ValModel::Str(h.hash)),
        ("modified"@, ValModel::Bool(h.modified)),
        ("name"@, ValModel::Str(h.name)),
    ]
}

/// The whole document an entry is stored as: a top-level table with the
/// header block and, when a payload is present, the settings block.
pub open spec fn content_value_model(c: ContentModel) -> ValModel {
    ValModel::Table(
        seq![("header"@, ValModel::Table(header_table_model(c.header)))] + match c.settings {
            Some(v) => seq![("settings"@, v)],
            None => Seq::empty(),
        },
    )
}

/// The value under the first occurrence of a key in a table's entry list.
pub open spec fn lookup_from(
    entries: Seq<(Seq<char>, ValModel)>,
    key: Seq<char>,
    i: int,
) -> Option<ValModel>
    decreases entries.len() - i,
{
    if i < 0 || i >= entries.len() {
        None
    } else if entries[i].0 == key {
        Some(entries[i].1)
    } else {
        lookup_from(entries, key, i + 1)
    }
}

pub open spec fn lookup(entries: Seq<(Seq<char>, ValModel)>, key: Seq<char>) -> Option<ValModel> {
    lookup_from(entries, key, 0)
}

/// Reads an entry back out of a document value: the document must be a table
/// whose `header` block holds the four metadata fields with their expected
/// kinds; other keys are ignored, and the payload is whatever sits under
/// `settings`.
pub open spec fn content_of_value_model(v: ValModel) -> Option<ContentModel> {
    match v {
        ValModel::Table(entries) => match lookup(entries, "header"@) {
            Some(ValModel::Table(h)) => match (
                lookup(h, "name"@),
                lookup(h, "modified"@),
                lookup(h, "hash"@),
                lookup(h, "date"@),
            ) {
                (
                    Some(ValModel::Str(name)),
                    Some(ValModel::Bool(modified)),
                    Some(ValModel::Str(hash)),
                    Some(ValModel::Str(date)),
                ) => Some(
                    ContentModel {
                        header: HeaderModel { name, modified, hash, date },
                        settings: lookup(entries, "settings"@),
                    },
                ),
                _ => None,
            },
            _ => None,
        },
        _ => None,
    }
}

/// What parsing a persisted text recovers: the parsed document value, read
/// back as an entry.
pub open spec fn parse_text_model(s: Seq<char>) -> Option<ContentModel> {
    match toml_value_of(s) {
        Some(v) => content_of_value_model(v),
        None => None,
    }
}

/// Reading a stored document back yields exactly the entry it was built
/// from: the document mapping loses nothing.
pub proof fn lemma_content_value_round_trip(c: ContentModel)
    ensures
        content_of_value_model(content_value_model(c)) == Some(c),
{
    reveal_strlit("header");
    reveal_strlit("settings");
    reveal_strlit("name");
    reveal_strlit("modified");
    reveal_strlit("hash");
    reveal_strlit("date");
    let entries = content_value_model(c)->Table_0;
    let h = header_table_model(c.header);
    assert("date"@.len() == 4 && "date"@[0] == 'd');
    assert("hash"@.len() == 4 && "hash"@[0] == 'h');
    assert("modified"@.len() == 8 && "modified"@[0] == 'm');
    assert("name"@.len() == 4 && "name"@[0] == 'n');
    assert("header"@.len() == 6 && "header"@[0] == 'h');
    assert("settings"@.len() == 8 && "settings"@[0] == 's');
    assert("date"@ != "hash"@);
    assert("date"@ != "modified"@);
    assert("date"@ != "name"@);
    assert("hash"@ != "modified"@);
    assert("hash"@ != "name"@);
    assert("modified"@ != "name"@);
    assert("header"@ != "settings"@);
    assert(entries[0] == ("header"@, ValModel::Table(h)));
    assert(lookup(entries, "header"@) == Some(ValModel::Table(h)));
    assert(lookup(h, "date"@) == Some(ValModel::Str(c.header.date)));
    assert(lookup_from(h, "hash"@, 1) == Some(ValModel::Str(c.header.hash)));
    assert(lookup(h, "hash"@) == Some(ValModel::Str(c.header.hash)));
    assert(lookup_from(h, "modified"@, 2) == Some(ValModel::Bool(c.header.modified)));
    assert(lookup_from(h, "modified"@, 1) == Some(ValModel::Bool(c.header.modified)));
    assert(lookup(h, "modified"@) == Some(ValModel::Bool(c.header.modified)));
    assert(lookup_from(h, "name"@, 3) == Some(ValModel::Str(c.header.name)));
    assert(lookup_from(h, "name"@, 2) == Some(ValModel::Str(c.header.name)));
    assert(lookup_from(h, "name"@, 1) == Some(ValModel::Str(c.header.name)));
    assert(lookup(h, "name"@) == Some(ValModel::Str(c.header.name)));
    match c.settings {
        Some(v) => {
            assert(entries[1] == ("settings"@, v));
            assert(lookup_from(entries, "settings"@, 1) == Some(v));
            assert(lookup(entries, "settings"@) == Some(v));
        },
        None => {
            assert(entries.len() == 1);
            assert(lookup_from(entries, "settings"@, 1) is None);
            assert(lookup(entries, "settings"@) is None);
        },
    }
    assert(content_of_value_model(content_value_model(c))->Some_0 =~= c);
}

/// A stored document is well formed whenever the entry's payload is: the
/// header block lists its keys sorted, so does the top-level table, and the
/// document nests only one level deeper than the payload, staying within
/// the format's depth bound.
pub proof fn lemma_wf_content_value(c: ContentModel)
    requires
        wf_content_model(c),
    ensures
        wf_model(content_value_model(c)),
        depth_at_most(content_value_model(c), 66),
{
    reveal_strlit("header");
    reveal_strlit("settings");
    reveal_strlit("name");
    reveal_strlit("modified");
    reveal_strlit("hash");
    reveal_strlit("date");
    let entries = content_value_model(c)->Table_0;
    let h = header_table_model(c.header);
    assert(lex_lt("date"@, "hash"@));
    assert(lex_lt("date"@, "modified"@));
    assert(lex_lt("date"@, "name"@));
    assert(lex_lt("hash"@, "modified"@));
    assert(lex_lt("hash"@, "name"@));
    assert(lex_lt("modified"@, "name"@));
    assert(lex_lt("header"@, "settings"@));
    assert forall|i: int| 0 <= i < h.len() implies wf_model(#[trigger] (h[i].1)) by {
        assert(wf_model(ValModel::Str(c.header.date)));
        assert(wf_model(ValModel::Str(c.header.hash)));
        assert(wf_model(ValModel::Bool(c.header.modified)));
        assert(wf_model(ValModel::Str(c.header.name)));
    }
    assert(wf_model(ValModel::Table(h)));
    assert forall|i: int| 0 <= i < entries.len() implies wf_model(#[trigger] (entries[i].1)) by {
        if i == 0 {
            assert(entries[i].1 == ValModel::Table(h));
        } else {
            assert(entries[i].1 == c.settings->Some_0);
        }
    }
    assert(wf_model(content_value_model(c)));
    assert(depth_at_most(ValModel::Table(h), 65)) by {
        assert forall|i: int| 0 <= i < h.len() implies depth_at_most(#[trigger] (h[i].1), 64) by {
            assert(depth_at_most(ValModel::Str(c.header.date), 64));
            assert(depth_at_most(ValModel::Str(c.header.hash), 64));
            assert(depth_at_most(ValModel::Bool(c.header.modified), 64));
            assert(depth_at_most(ValModel::Str(c.header.name), 64));
        }
    }
    assert forall|i: int| 0 <= i < entries.len() implies depth_at_most(
        #[trigger] (entries[i].1),
        65,
    ) by {
        if i == 0 {
            assert(entries[i].1 == ValModel::Table(h));
        } else {
            assert(entries[i].1 == c.settings->Some_0);
        }
    }
    assert(depth_at_most(content_value_model(c), 66));
}

/// Builds the document value an entry is stored as.
pub fn value_of_content(c: &Content) -> (v: SettingsValue)
    ensures
        v.model() == content_value_model(c.model()),
{
    let mut header_entries: Vec<(String, SettingsValue)> = Vec::new();
    header_entries.push(("date".to_owned(), SettingsValue::Str(c.header.date.clone())));
    header_entries.push(("hash".to_owned(), SettingsValue::Str(c.header.hash.clone())));
    header_entries.push(("modified".to_owned(), SettingsValue::Bool(c.header.modified)));
    header_entries.push(("name".to_owned(), SettingsValue::Str(c.header.name.clone())));
    proof {
        lemma_table_model(header_entries);
        assert(table_model(header_entries@) =~= header_table_model(c.model().header));
    }
    let mut top: Vec<(String, SettingsValue)> = Vec::new();
    top.push(("header".to_owned(), SettingsValue::Table(header_entries)));
    match &c.settings {
        Some(sv) => {
            let cv = clone_value(sv);
            top.push(("settings".to_owned(), cv));
            proof {
                lemma_table_model(top);
                assert(table_model(top@) =~= content_value_model(c.model())->Table_0);
            }
        },
        None => {
            proof {
                lemma_table_model(top);
                assert(table_model(top@) =~= content_value_model(c.model())->Table_0);
            }
        },
    }
    SettingsValue::Table(top)
}

/// The value under the first occurrence of a key in a table's entry list.
fn lookup_value<'a>(entries: &'a Vec<(String, SettingsValue)>, key: &String) -> (r: Option<
    &'a SettingsValue,
>)
    ensures
        match r {
            Some(found) => lookup(table_model(entries@), key@) == Some(found.model()),
            None => lookup(table_model(entries@), key@) is None,
        },
{
    let mut i: usize = 0;
    while i < entries.len()
        invariant
            i <= entries@.len(),
            lookup_from(table_model(entries@), key@, 0) == lookup_from(
                table_model(entries@),
                key@,
                i as int,
            ),
        decreases entries@.len() - i,
    {
        if entries[i].0 == *key {
            return Some(&entries[i].1);
        }
        i = i + 1;
    }
    None
}

/// Reads an entry back out of a document value, if it has the stored shape.
pub fn content_from_value(v: SettingsValue) -> (r: Option<Content>)
    ensures
        match r {
            Some(c) => content_of_value_model(v.model()) == Some(c.model()),
            None => content_of_value_model(v.model()) is None,
        },
{
    let ghost vm = v.model();
    match v {
        SettingsValue::Table(entries) => {
            proof {
                lemma_table_model(entries);
            }
            let hkey: String = "header".to_owned();
            let h_opt = lookup_value(&entries, &hkey);
            match h_opt {
                Some(SettingsValue::Table(hentries)) => {
                    proof {
                        lemma_table_model(*hentries);
                    }
                    let nkey: String = "name".to_owned();
                    let mkey: String = "modified".to_owned();
                    let hakey: String = "hash".to_owned();
                    let dkey: String = "date".to_owned();
                    let n_opt = lookup_value(hentries, &nkey);
                    let m_opt = lookup_value(hentries, &mkey);
                    let ha_opt = lookup_value(hentries, &hakey);
                    let d_opt = lookup_value(hentries, &dkey);
                    match (n_opt, m_opt, ha_opt, d_opt) {
                        (
                            Some(SettingsValue::Str(name)),
                            Some(SettingsValue::Bool(modified)),
                            Some(SettingsValue::Str(hash)),
                            Some(SettingsValue::Str(date)),
                        ) => {
                            let skey: String = "settings".to_owned();
                            let settings = match lookup_value(&entries, &skey) {
                                Some(sv) => Some(clone_value(sv)),
                                None => None,
                            };
                            let c = Content {
                                header: Header {
                                    name: name.clone(),
                                    modified: *modified,
                                    hash: hash.clone(),
                                    date: date.clone(),
                                },
                                settings,
                            };
                            proof {
                                assert(content_of_value_model(vm)->Some_0 =~= c.model());
                            }
                            Some(c)
                        },
                        _ => None,
                    }
                },
                _ => None,
            }
        },
        _ => None,
    }
}

/// Parses one persisted text into an entry; `None` on any syntax error or on
/// a document that does not have the stored shape.
pub fn parse_content(text: &str) -> (r: Option<Content>)
    ensures
        match r {
            Some(c) => parse_text_model(text@) == Some(c.model()),
            None => parse_text_model(text@) is None,
        },
{
    match text_to_value(text) {
        None => None,
        Some(v) => content_from_value(v),
    }
}

} // verus!
