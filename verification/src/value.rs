//! Untyped configuration: the tree that a policy's parameters arrive as,
//! before the policy's factory gives them their type.

use crate::text::equal;
use vstd::prelude::*;

verus! {

/// A value of no fixed type: null, a truth value, a number, a text, a sequence
/// of values, or a mapping from names to values.
#[derive(Debug)]
pub enum OpaqueValue {
    Null,
    Bool(bool),
    /// A number, as it is written.
    Number(String),
    Text(String),
    Sequence(Vec<OpaqueValue>),
    /// The entries in their order. Of two entries under one name the first counts.
    Mapping(Vec<(String, OpaqueValue)>),
}

/// What a value holds: the same tree, with each text as its characters.
pub enum ValueView {
    Null,
    Bool(bool),
    Number(Seq<char>),
    Text(Seq<char>),
    Sequence(Seq<ValueView>),
    Mapping(Seq<(Seq<char>, ValueView)>),
}

/// What `value` holds.
pub open spec fn value_view(value: OpaqueValue) -> ValueView
    decreases value,
{
    match value {
        OpaqueValue::Null => ValueView::Null,
        OpaqueValue::Bool(b) => ValueView::Bool(b),
        OpaqueValue::Number(digits) => ValueView::Number(digits@),
        OpaqueValue::Text(text) => ValueView::Text(text@),
        OpaqueValue::Sequence(items) => ValueView::Sequence(
            Seq::new(
                items.len() as nat,
                |i: int|
                    if 0 <= i < items.len() {
                        value_view(items[i])
                    } else {
                        ValueView::Null
                    },
            ),
        ),
        OpaqueValue::Mapping(entries) => ValueView::Mapping(
            Seq::new(
                entries.len() as nat,
                |i: int|
                    if 0 <= i < entries.len() {
                        (entries[i].0@, value_view(entries[i].1))
                    } else {
                        (Seq::<char>::empty(), ValueView::Null)
                    },
            ),
        ),
    }
}

impl View for OpaqueValue {
    type V = ValueView;

    open spec fn view(&self) -> ValueView {
        value_view(*self)
    }
}

impl DeepView for OpaqueValue {
    type V = ValueView;

    open spec fn deep_view(&self) -> ValueView {
        value_view(*self)
    }
}

/// A sequence holds what its items hold, in their order.
pub proof fn lemma_sequence_view(items: Vec<OpaqueValue>)
    ensures
        OpaqueValue::Sequence(items)@ == ValueView::Sequence(items.deep_view()),
{
    let held = value_view(OpaqueValue::Sequence(items))->Sequence_0;
    assert(held.len() == items.len());
    assert forall|i: int| 0 <= i < held.len() implies held[i] == items.deep_view()[i] by {
        assert(held[i] == value_view(items[i]));
    }
    assert(held =~= items.deep_view());
}

/// A mapping holds its entries' names and what their values hold, in their order.
pub proof fn lemma_mapping_view(entries: Vec<(String, OpaqueValue)>)
    ensures
        OpaqueValue::Mapping(entries)@ == ValueView::Mapping(entries.deep_view()),
{
    let held = value_view(OpaqueValue::Mapping(entries))->Mapping_0;
    assert(held.len() == entries.len());
    assert forall|i: int| 0 <= i < held.len() implies held[i] == entries.deep_view()[i] by {
        assert(held[i] == (entries[i].0@, value_view(entries[i].1)));
    }
    assert(held =~= entries.deep_view());
}

/// A copy of `value`: it holds what `value` holds.
#[verifier::loop_isolation(false)]
pub fn copy_value(value: &OpaqueValue) -> (r: OpaqueValue)
    ensures
        r@ == value@,
    decreases value,
{
    match value {
        OpaqueValue::Null => OpaqueValue::Null,
        OpaqueValue::Bool(b) => OpaqueValue::Bool(*b),
        OpaqueValue::Number(digits) => OpaqueValue::Number(digits.clone()),
        OpaqueValue::Text(text) => OpaqueValue::Text(text.clone()),
        OpaqueValue::Sequence(items) => {
            let mut copies: Vec<OpaqueValue> = Vec::new();
            let mut i: usize = 0;
            while i < items.len()
                invariant
                    i <= items.len(),
                    copies.len() == i,
                    forall|j: int| 0 <= j < i ==> #[trigger] copies[j]@ == items[j]@,
                decreases items.len() - i,
            {
                assert(decreases_to!(value => items));
                assert(decreases_to!(items => items[i as int]));
                copies.push(copy_value(&items[i]));
                i += 1;
            }
            proof {
                lemma_sequence_view(copies);
                lemma_sequence_view(*items);
                assert forall|j: int| 0 <= j < items.len() implies copies.deep_view()[j]
                    == items.deep_view()[j] by {
                    assert(copies[j]@ == items[j]@);
                }
                assert(copies.deep_view() =~= items.deep_view());
            }
            OpaqueValue::Sequence(copies)
        },
        OpaqueValue::Mapping(entries) => {
            let mut copies: Vec<(String, OpaqueValue)> = Vec::new();
            let mut i: usize = 0;
            while i < entries.len()
                invariant
                    i <= entries.len(),
                    copies.len() == i,
                    forall|j: int|
                        0 <= j < i ==> (#[trigger] copies[j]).0@ == entries[j].0@ && copies[j].1@
                            == entries[j].1@,
                decreases entries.len() - i,
            {
                assert(decreases_to!(value => entries));
                assert(decreases_to!(entries => entries[i as int]));
                assert(decreases_to!(entries[i as int] => entries[i as int].1));
                copies.push((entries[i].0.clone(), copy_value(&entries[i].1)));
                i += 1;
            }
            proof {
                lemma_mapping_view(copies);
                lemma_mapping_view(*entries);
                assert forall|j: int| 0 <= j < entries.len() implies copies.deep_view()[j]
                    == entries.deep_view()[j] by {
                    assert(copies[j].0@ == entries[j].0@ && copies[j].1@ == entries[j].1@);
                }
                assert(copies.deep_view() =~= entries.deep_view());
            }
            OpaqueValue::Mapping(copies)
        },
    }
}

/// Where the first entry called `key` stands; the number of entries where none is.
pub open spec fn entry_index(entries: Seq<(Seq<char>, ValueView)>, key: Seq<char>) -> int
    decreases entries.len(),
{
    if entries.len() == 0 || entries[0].0 == key {
        0
    } else {
        1 + entry_index(entries.drop_first(), key)
    }
}

/// `entry_index` is where the first entry called `key` stands.
pub proof fn lemma_entry_index(entries: Seq<(Seq<char>, ValueView)>, key: Seq<char>)
    ensures
        0 <= entry_index(entries, key) <= entries.len(),
        forall|j: int| 0 <= j < entry_index(entries, key) ==> (#[trigger] entries[j]).0 != key,
        entry_index(entries, key) < entries.len() ==> entries[entry_index(entries, key)].0 == key,
    decreases entries.len(),
{
    if entries.len() == 0 || entries[0].0 == key {
    } else {
        lemma_entry_index(entries.drop_first(), key);
        assert forall|j: int| 0 <= j < entry_index(entries, key) implies (#[trigger] entries[j]).0
            != key by {
            if j > 0 {
                assert(entries[j] == entries.drop_first()[j - 1]);
            }
        }
    }
}

/// The value under `key`: that of the first entry of a mapping with this
/// name. A value that is no mapping has no fields.
pub open spec fn field(value: ValueView, key: Seq<char>) -> Option<ValueView> {
    match value {
        ValueView::Mapping(entries) => {
            let i = entry_index(entries, key);
            if 0 <= i < entries.len() {
                Some(entries[i].1)
            } else {
                None
            }
        },
        _ => None,
    }
}

/// Where the first entry called `key` stands among `entries`.
pub fn find_entry(entries: &Vec<(String, OpaqueValue)>, key: &str) -> (r: Option<usize>)
    ensures
        r matches Some(i) ==> i < entries.len() && i == entry_index(entries.deep_view(), key@),
        r is None ==> entry_index(entries.deep_view(), key@) >= entries.len(),
{
    let ghost held = entries.deep_view();
    let mut i: usize = 0;
    assert(held.skip(0) == held);
    while i < entries.len()
        invariant
            i <= entries.len(),
            held == entries.deep_view(),
            entry_index(held, key@) == i + entry_index(held.skip(i as int), key@),
        decreases entries.len() - i,
    {
        assert(held.skip(i as int)[0] == held[i as int]);
        assert(held[i as int].0 == entries[i as int].0@);
        if equal(entries[i].0.as_str(), key) {
            return Some(i);
        }
        assert(held.skip(i as int).drop_first() == held.skip(i + 1));
        i += 1;
    }
    None
}

impl OpaqueValue {
    /// The value under `key`, where this is a mapping that has one.
    pub fn get(&self, key: &str) -> (r: Option<&OpaqueValue>)
        ensures
            r matches Some(v) ==> field(self@, key@) == Some(v@),
            r is None ==> field(self@, key@) is None,
    {
        match self {
            OpaqueValue::Mapping(entries) => {
                proof {
                    lemma_mapping_view(*entries);
                }
                match find_entry(entries, key) {
                    Some(i) => {
                        assert(entries.deep_view()[i as int].1 == entries[i as int].1@);
                        Some(&entries[i].1)
                    },
                    None => None,
                }
            },
            _ => None,
        }
    }
}

impl Clone for OpaqueValue {
    fn clone(&self) -> (r: Self)
        ensures
            r@ == self@,
    {
        copy_value(self)
    }
}

/// A field that holds a text or is left out: `Some(None)` where the field is
/// missing or null, `Some(Some(text))` where it is a text, and `None` where
/// it holds a value of another type.
pub open spec fn optional_text(value: ValueView, key: Seq<char>) -> Option<Option<Seq<char>>> {
    match field(value, key) {
        None => Some(None),
        Some(ValueView::Null) => Some(None),
        Some(ValueView::Text(text)) => Some(Some(text)),
        Some(_) => None,
    }
}

/// Reads a field that holds a text or is left out.
pub fn read_optional_text(value: &OpaqueValue, key: &str) -> (r: Option<Option<String>>)
    ensures
        r.deep_view() == optional_text(value@, key@),
{
    match value.get(key) {
        None => Some(None),
        Some(OpaqueValue::Null) => Some(None),
        Some(OpaqueValue::Text(text)) => Some(Some(text.clone())),
        Some(_) => None,
    }
}

/// The texts of a sequence of texts; `None` for any other value.
pub open spec fn text_list(value: ValueView) -> Option<Seq<Seq<char>>> {
    match value {
        ValueView::Sequence(items) => if forall|i: int|
            0 <= i < items.len() ==> #[trigger] items[i] is Text {
            Some(Seq::new(items.len() as nat, |i: int| items[i]->Text_0))
        } else {
            None
        },
        _ => None,
    }
}

/// Reads a sequence of texts.
pub fn read_text_list(value: &OpaqueValue) -> (r: Option<Vec<String>>)
    ensures
        r.deep_view() == text_list(value@),
{
    match value {
        OpaqueValue::Sequence(items) => {
            proof {
                lemma_sequence_view(*items);
            }
            let mut texts: Vec<String> = Vec::new();
            let mut i: usize = 0;
            while i < items.len()
                invariant
                    i <= items.len(),
                    texts.len() == i,
                    value@ == ValueView::Sequence(items.deep_view()),
                    forall|j: int| 0 <= j < i ==> #[trigger] items[j] is Text,
                    forall|j: int| 0 <= j < i ==> #[trigger] texts[j]@ == items[j]->Text_0@,
                decreases items.len() - i,
            {
                match &items[i] {
                    OpaqueValue::Text(text) => {
                        texts.push(text.clone());
                    },
                    _ => {
                        assert(!(items.deep_view()[i as int] is Text));
                        return None;
                    },
                }
                i += 1;
            }
            assert forall|j: int| 0 <= j < items.len() implies #[trigger] items.deep_view()[j]
                == ValueView::Text(texts[j]@) by {
                assert(items[j] is Text);
            }
            assert(texts.deep_view() =~= text_list(value@)->Some_0);
            Some(texts)
        },
        _ => None,
    }
}

} // verus!
