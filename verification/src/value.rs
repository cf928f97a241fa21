use vstd::prelude::*;

verus! {

/// A schema-less configuration value: the payload of an entry.
///
/// Tables keep their entries as an ordered list of key/value pairs; the
/// on-disk format stores tables with keys in strictly increasing order, and
/// its parser bounds nesting, so a value round-trips through the
/// persistence format when its tables keep sorted keys ([`wf_model`]) and
/// its nesting stays within the format's depth bound ([`depth_at_most`]).
#[derive(Debug, PartialEq)]
pub enum SettingsValue {
    Str(String),
    Int(i64),
    Bool(bool),
    Arr(Vec<SettingsValue>),
    Table(Vec<(String, SettingsValue)>),
}

/// The mathematical model of a [`SettingsValue`].
#[verifier::ext_equal]
pub enum ValModel {
    Str(Seq<char>),
    Int(int),
    Bool(bool),
    Arr(Seq<ValModel>),
    Table(Seq<(Seq<char>, ValModel)>),
}

impl SettingsValue {
    /// The mathematical value this executable value stands for.
    pub open spec fn model(self) -> ValModel
        decreases self,
    {
        match self {
            SettingsValue::Str(s) => ValModel::Str(s@),
            SettingsValue::Int(i) => ValModel::Int(i as int),
            SettingsValue::Bool(b) => ValModel::Bool(b),
            SettingsValue::Arr(items) => ValModel::Arr(
                Seq::new(
                    items@.len(),
                    |i: int|
                        if 0 <= i < items@.len() {
                            proof {
                                assert(decreases_to!(items => items[i]));
                            }
                            items[i].model()
                        } else {
                            ValModel::Bool(false)
                        },
                ),
            ),
            SettingsValue::Table(entries) => ValModel::Table(
                Seq::new(
                    entries@.len(),
                    |i: int|
                        if 0 <= i < entries@.len() {
                            proof {
                                assert(decreases_to!(entries => entries[i]));
                                assert(decreases_to!(entries[i] => entries[i].1));
                            }
                            (entries[i].0@, entries[i].1.model())
                        } else {
                            (Seq::empty(), ValModel::Bool(false))
                        },
                ),
            ),
        }
    }
}

/// The model of a list of table entries: each key as its character sequence,
/// each value as its model.
pub open spec fn table_model(entries: Seq<(String, SettingsValue)>) -> Seq<(Seq<char>, ValModel)> {
    Seq::new(entries.len(), |i: int| (entries[i].0@, entries[i].1.model()))
}

/// The model of a table value is the model of its entry list.
pub proof fn lemma_table_model(entries: Vec<(String, SettingsValue)>)
    ensures
        SettingsValue::Table(entries).model() == ValModel::Table(table_model(entries@)),
{
    assert(SettingsValue::Table(entries).model()->Table_0 =~= table_model(entries@));
}

/// Strict lexicographic order on character sequences, by code point; this is
/// the order in which the persistence format lists a table's keys.
pub open spec fn lex_lt_from(a: Seq<char>, b: Seq<char>, i: int) -> bool
    decreases a.len() - i,
{
    if i >= b.len() {
        false
    } else if i >= a.len() {
        true
    } else if a[i] != b[i] {
        (a[i] as u32) < (b[i] as u32)
    } else {
        lex_lt_from(a, b, i + 1)
    }
}

pub open spec fn lex_lt(a: Seq<char>, b: Seq<char>) -> bool {
    lex_lt_from(a, b, 0)
}

/// A value is well formed when every table in it lists its keys in strictly
/// increasing order (hence without duplicates).
pub open spec fn wf_model(m: ValModel) -> bool
    decreases m,
{
    match m {
        ValModel::Str(_) => true,
        ValModel::Int(_) => true,
        ValModel::Bool(_) => true,
        ValModel::Arr(items) => forall|i: int|
            0 <= i < items.len() ==> wf_model(#[trigger] items[i]),
        ValModel::Table(entries) => {
            &&& forall|i: int| 0 <= i < entries.len() ==> wf_model(#[trigger] (entries[i].1))
            &&& forall|i: int, j: int|
                0 <= i < j < entries.len() ==> lex_lt(
                    #[trigger] (entries[i].0),
                    #[trigger] (entries[j].0),
                )
        },
    }
}

/// Whether every nesting chain in the value is at most `d` levels deep:
/// scalars take one level, each array or table adds one. The persistence
/// format's parser refuses documents nested deeper than its recursion
/// limit, so the round-trip guarantees hold below a bound.
pub open spec fn depth_at_most(m: ValModel, d: int) -> bool
    decreases m,
{
    match m {
        ValModel::Str(_) => d >= 1,
        ValModel::Int(_) => d >= 1,
        ValModel::Bool(_) => d >= 1,
        ValModel::Arr(items) => d >= 1 && forall|i: int|
            0 <= i < items.len() ==> depth_at_most(#[trigger] items[i], d - 1),
        ValModel::Table(entries) => d >= 1 && forall|i: int|
            0 <= i < entries.len() ==> depth_at_most(#[trigger] (entries[i].1), d - 1),
    }
}

/// Copy a value; the copy has the same mathematical model.
pub fn clone_value(v: &SettingsValue) -> (r: SettingsValue)
    ensures
        r.model() == v.model(),
    decreases v,
{
    match v {
        SettingsValue::Str(s) => SettingsValue::Str(s.clone()),
        SettingsValue::Int(i) => SettingsValue::Int(*i),
        SettingsValue::Bool(b) => SettingsValue::Bool(*b),
        SettingsValue::Arr(items) => {
            let mut out: Vec<SettingsValue> = Vec::new();
            let mut i: usize = 0;
            while i < items.len()
                invariant
                    v == SettingsValue::Arr(*items),
                    i <= items@.len(),
                    out@.len() == i as int,
                    forall|j: int| 0 <= j < i ==> (#[trigger] out@[j]).model() == items@[j].model(),
                decreases items@.len() - i,
            {
                proof {
                    assert(decreases_to!(v => v->Arr_0));
                    assert(decreases_to!(v->Arr_0 => (v->Arr_0)[i as int]));
                }
                out.push(clone_value(&items[i]));
                i = i + 1;
            }
            proof {
                let s1 = SettingsValue::Arr(out).model()->Arr_0;
                let s2 = v.model()->Arr_0;
                assert forall|k: int| 0 <= k < s1.len() implies s1[k] == s2[k] by {
                    assert(s1[k] == out@[k].model());
                    assert(s2[k] == items@[k].model());
                }
                assert(s1 =~= s2);
            }
            SettingsValue::Arr(out)
        },
        SettingsValue::Table(entries) => {
            let mut out: Vec<(String, SettingsValue)> = Vec::new();
            let mut i: usize = 0;
            while i < entries.len()
                invariant
                    v == SettingsValue::Table(*entries),
                    i <= entries@.len(),
                    out@.len() == i as int,
                    forall|j: int| 0 <= j < i ==> (#[trigger] out@[j]).0@ == entries@[j].0@
                        && out@[j].1.model() == entries@[j].1.model(),
                decreases entries@.len() - i,
            {
                proof {
                    assert(decreases_to!(v => v->Table_0));
                    assert(decreases_to!(v->Table_0 => (v->Table_0)[i as int]));
                    assert(decreases_to!((v->Table_0)[i as int] => (v->Table_0)[i as int].1));
                }
                let key = entries[i].0.clone();
                let val = clone_value(&entries[i].1);
                out.push((key, val));
                i = i + 1;
            }
            proof {
                let s1 = SettingsValue::Table(out).model()->Table_0;
                let s2 = v.model()->Table_0;
                assert forall|k: int| 0 <= k < s1.len() implies s1[k] == s2[k] by {
                    assert(s1[k] == (out@[k].0@, out@[k].1.model()));
                    assert(s2[k] == (entries@[k].0@, entries@[k].1.model()));
                    assert(out@[k].0@ == entries@[k].0@ && out@[k].1.model()
                        == entries@[k].1.model());
                }
                assert(s1 =~= s2);
            }
            SettingsValue::Table(out)
        },
    }
}

} // verus!
