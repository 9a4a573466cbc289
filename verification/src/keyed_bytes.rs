use std::collections::HashMap;
use vstd::prelude::*;
use vstd::string::StringExecFns;
use crate::errors::{content_of, Error, ErrorView};
use crate::search::{first_place, first_place_is_first, place_found};
use crate::text::same_text;
use crate::value::{
    bytes_of, contents, entry_of, inner_of, items_of, required, text_of, type_mismatch,
    u16_of, Value, ValueView,
};

verus! {

/// A dictionary entry from a 16-bit number to a variant that wraps an array
/// of bytes is one number with its bytes. An array that holds anything but
/// bytes makes no entry.
pub open spec fn numbered_entry(v: ValueView) -> Option<(u16, Seq<u8>)> {
    match entry_of(v) {
        Some((key, value)) => match (u16_of(key), inner_of(value)) {
            (Some(number), Some(inner)) => match bytes_of(inner) {
                Some(bytes) => Some((number, bytes)),
                None => None,
            },
            _ => None,
        },
        None => None,
    }
}

/// The entries of a mapping from numbers to bytes, in the order of the
/// array; `None` when the value is no such mapping.
pub open spec fn numbered_entries(v: ValueView) -> Option<Seq<(u16, Seq<u8>)>> {
    match items_of(v) {
        Some(items) => if forall|i: int|
            0 <= i < items.len() ==> #[trigger] numbered_entry(items[i]) is Some {
            Some(Seq::new(items.len(), |i: int| numbered_entry(items[i])->Some_0))
        } else {
            None
        },
        None => None,
    }
}

/// A dictionary entry from a string to a variant that wraps an array of
/// bytes is one name with its bytes. An array that holds anything but bytes
/// makes no entry.
pub open spec fn labelled_entry(v: ValueView) -> Option<(Seq<char>, Seq<u8>)> {
    match entry_of(v) {
        Some((key, value)) => match (text_of(key), inner_of(value)) {
            (Some(label), Some(inner)) => match bytes_of(inner) {
                Some(bytes) => Some((label, bytes)),
                None => None,
            },
            _ => None,
        },
        None => None,
    }
}

/// The entries of a mapping from names to bytes, in the order of the array;
/// `None` when the value is no such mapping.
pub open spec fn labelled_entries(v: ValueView) -> Option<Seq<(Seq<char>, Seq<u8>)>> {
    match items_of(v) {
        Some(items) => if forall|i: int|
            0 <= i < items.len() ==> #[trigger] labelled_entry(items[i]) is Some {
            Some(Seq::new(items.len(), |i: int| labelled_entry(items[i])->Some_0))
        } else {
            None
        },
        None => None,
    }
}

/// The mapping that the entries build when they are entered one after the
/// other: a later entry replaces an earlier one under the same key.
pub open spec fn collected<K>(entries: Seq<(K, Seq<u8>)>) -> Map<K, Seq<u8>>
    decreases entries.len(),
{
    if entries.len() == 0 {
        Map::empty()
    } else {
        collected(entries.drop_last()).insert(entries.last().0, entries.last().1)
    }
}

/// The bytes that a map of vectors holds under each key.
pub open spec fn held(map: Map<u16, Vec<u8>>) -> Map<u16, Seq<u8>> {
    map.map_values(|bytes: Vec<u8>| bytes@)
}

/// The test for an entry under that key.
pub open spec fn under(key: Seq<char>) -> spec_fn((Seq<char>, Seq<u8>)) -> bool {
    |entry: (Seq<char>, Seq<u8>)| entry.0 == key
}

/// The list with one more entry entered: in the place of the entry under the
/// same key where there is one, at the end where there is none.
pub open spec fn entered(
    entries: Seq<(Seq<char>, Seq<u8>)>,
    entry: (Seq<char>, Seq<u8>),
) -> Seq<(Seq<char>, Seq<u8>)> {
    match first_place(entries, under(entry.0)) {
        Some(i) => entries.update(i, entry),
        None => entries.push(entry),
    }
}

/// The list that the entries build when they are entered one after the
/// other: each key once, at the place of its first entry, with the bytes of
/// its last.
pub open spec fn merged(entries: Seq<(Seq<char>, Seq<u8>)>) -> Seq<(Seq<char>, Seq<u8>)>
    decreases entries.len(),
{
    if entries.len() == 0 {
        Seq::empty()
    } else {
        entered(merged(entries.drop_last()), entries.last())
    }
}

/// No two entries of the list stand under one key.
pub open spec fn each_key_once(entries: Seq<(Seq<char>, Seq<u8>)>) -> bool {
    forall|i: int, j: int|
        0 <= i < entries.len() && 0 <= j < entries.len() && i != j ==> (#[trigger] entries[i]).0 != (
        #[trigger] entries[j]).0
}

/// Replacing the bytes under a key that a list holds once is entering the
/// new bytes under that key.
proof fn replaced_is_inserted(entries: Seq<(Seq<char>, Seq<u8>)>, i: int, bytes: Seq<u8>)
    requires
        each_key_once(entries),
        0 <= i < entries.len(),
    ensures
        collected(entries.update(i, (entries[i].0, bytes))) == collected(entries).insert(
            entries[i].0,
            bytes,
        ),
    decreases entries.len(),
{
    let key = entries[i].0;
    let after = entries.update(i, (key, bytes));
    let head = entries.drop_last();
    if i == entries.len() - 1 {
        assert(after.drop_last() =~= head);
        assert(collected(after) =~= collected(entries).insert(key, bytes));
    } else {
        let last = entries.last();
        assert(each_key_once(head)) by {
            assert forall|a: int, b: int|
                0 <= a < head.len() && 0 <= b < head.len() && a != b implies (#[trigger] head[a]).0
                != (#[trigger] head[b]).0 by {
                assert(head[a] == entries[a] && head[b] == entries[b]);
            }
        }
        replaced_is_inserted(head, i, bytes);
        assert(head[i] == entries[i]);
        assert(after.drop_last() =~= head.update(i, (key, bytes)));
        assert(after.last() == last);
        assert(entries[entries.len() - 1].0 != entries[i].0);
        assert(collected(after) =~= collected(entries).insert(key, bytes));
    }
}

/// The merged list holds each key once, and holds under each key what the
/// mapping built from the same entries holds: it is that mapping, in the
/// order in which its keys first came.
pub proof fn merged_is_the_mapping(entries: Seq<(Seq<char>, Seq<u8>)>)
    ensures
        each_key_once(merged(entries)),
        collected(merged(entries)) == collected(entries),
    decreases entries.len(),
{
    if entries.len() > 0 {
        let head = entries.drop_last();
        let entry = entries.last();
        let before = merged(head);
        merged_is_the_mapping(head);
        let test = under(entry.0);
        first_place_is_first(before, test);
        match first_place(before, test) {
            Some(i) => {
                let after = before.update(i, entry);
                assert(each_key_once(after)) by {
                    assert forall|a: int, b: int|
                        0 <= a < after.len() && 0 <= b < after.len() && a != b implies (
                    #[trigger] after[a]).0 != (#[trigger] after[b]).0 by {
                        assert(after[a].0 == before[a].0);
                        assert(after[b].0 == before[b].0);
                    }
                }
                replaced_is_inserted(before, i, entry.1);
                assert(entry == (before[i].0, entry.1));
            },
            None => {
                let after = before.push(entry);
                assert(each_key_once(after)) by {
                    assert forall|a: int, b: int|
                        0 <= a < after.len() && 0 <= b < after.len() && a != b implies (
                    #[trigger] after[a]).0 != (#[trigger] after[b]).0 by {
                        if a < before.len() {
                            assert(!test(before[a]));
                        }
                        if b < before.len() {
                            assert(!test(before[b]));
                        }
                    }
                }
                assert(after.drop_last() =~= before);
            },
        }
    }
}

fn decode_numbered(v: &Value) -> (r: Option<(u16, Vec<u8>)>)
    ensures
        r.deep_view() == numbered_entry(v@),
{
    match v.as_entry() {
        Some((key, value)) => match (key.as_u16(), value.as_inner()) {
            (Some(number), Some(inner)) => match inner.as_bytes() {
                Some(bytes) => Some((number, bytes)),
                None => None,
            },
            _ => None,
        },
        None => None,
    }
}

fn decode_labelled(v: &Value) -> (r: Option<(String, Vec<u8>)>)
    ensures
        r.deep_view() == labelled_entry(v@),
{
    match v.as_entry() {
        Some((key, value)) => match (key.as_text(), value.as_inner()) {
            (Some(label), Some(inner)) => match inner.as_bytes() {
                Some(bytes) => Some((String::from_str(label), bytes)),
                None => None,
            },
            _ => None,
        },
        None => None,
    }
}

/// Reads a mapping from 16-bit numbers to bytes. Where a number occurs more
/// than once, its last entry stands.
pub fn numbered_bytes(v: &Value) -> (r: Option<HashMap<u16, Vec<u8>>>)
    ensures
        match numbered_entries(v@) {
            Some(entries) => r is Some && held(r->Some_0@) == collected(entries),
            None => r is None,
        },
{
    match v.as_items() {
        Some(items) => {
            assert(items.deep_view() =~= contents(items@));
            let ghost views = contents(items@);
            let ghost mut entries: Seq<(u16, Seq<u8>)> = Seq::empty();
            let mut map: HashMap<u16, Vec<u8>> = HashMap::new();
            let mut i: usize = 0;
            assert(held(map@) =~= collected(entries));
            while i < items.len()
                invariant
                    i <= items.len(),
                    views == contents(items@),
                    items_of(v@) == Some(views),
                    entries.len() == i,
                    forall|j: int|
                        0 <= j < i ==> numbered_entry(#[trigger] views[j]) == Some(entries[j]),
                    held(map@) == collected(entries),
                decreases items.len() - i,
            {
                match decode_numbered(&items[i]) {
                    Some((number, bytes)) => {
                        proof {
                            let next = entries.push((number, bytes@));
                            assert(next.drop_last() =~= entries);
                            assert(held(map@.insert(number, bytes)) =~= held(map@).insert(
                                number,
                                bytes@,
                            ));
                            entries = next;
                        }
                        map.insert(number, bytes);
                    },
                    None => {
                        assert(numbered_entry(views[i as int]) is None);
                        return None;
                    },
                }
                i += 1;
            }
            assert(entries =~= numbered_entries(v@)->Some_0);
            Some(map)
        },
        None => None,
    }
}

/// Finds the first entry under the key.
fn find_label(entries: &Vec<(String, Vec<u8>)>, key: &str) -> (r: Option<usize>)
    ensures
        match first_place(entries.deep_view(), under(key@)) {
            Some(i) => r == Some(i as usize) && 0 <= i < entries.len(),
            None => r is None,
        },
{
    let ghost all = entries.deep_view();
    let ghost test = under(key@);
    let mut i: usize = 0;
    while i < entries.len()
        invariant
            i <= entries.len(),
            all == entries.deep_view(),
            test == under(key@),
            forall|j: int| 0 <= j < i ==> !test(#[trigger] all[j]),
        decreases entries.len() - i,
    {
        if same_text(entries[i].0.as_str(), key) {
            proof {
                assert(test(all[i as int]));
                place_found(all, test, i as int);
            }
            return Some(i);
        }
        assert(!test(all[i as int]));
        i += 1;
    }
    proof {
        place_found(all, test, all.len() as int);
    }
    None
}

/// Reads a mapping from names to bytes as a list that holds each name once:
/// at the place of its first entry, with the bytes of its last.
pub fn labelled_bytes(v: &Value) -> (r: Option<Vec<(String, Vec<u8>)>>)
    ensures
        r.deep_view() == (match labelled_entries(v@) {
            Some(entries) => Some(merged(entries)),
            None => None,
        }),
        r is Some ==> each_key_once(r->Some_0.deep_view()),
{
    proof {
        if labelled_entries(v@) is Some {
            merged_is_the_mapping(labelled_entries(v@)->Some_0);
        }
    }
    match v.as_items() {
        Some(items) => {
            assert(items.deep_view() =~= contents(items@));
            let ghost views = contents(items@);
            let ghost mut entries: Seq<(Seq<char>, Seq<u8>)> = Seq::empty();
            let mut list: Vec<(String, Vec<u8>)> = Vec::new();
            let mut i: usize = 0;
            assert(list.deep_view() =~= merged(entries));
            while i < items.len()
                invariant
                    i <= items.len(),
                    views == contents(items@),
                    items_of(v@) == Some(views),
                    entries.len() == i,
                    forall|j: int|
                        0 <= j < i ==> labelled_entry(#[trigger] views[j]) == Some(entries[j]),
                    list.deep_view() == merged(entries),
                decreases items.len() - i,
            {
                match decode_labelled(&items[i]) {
                    Some((label, bytes)) => {
                        let ghost before = list.deep_view();
                        let ghost entry = (label@, bytes@);
                        assert(bytes.deep_view() =~= bytes@);
                        proof {
                            let next = entries.push(entry);
                            assert(next.drop_last() =~= entries);
                            entries = next;
                        }
                        match find_label(&list, label.as_str()) {
                            Some(at) => {
                                list.set(at, (label, bytes));
                                assert(list.deep_view() =~= before.update(at as int, entry));
                            },
                            None => {
                                list.push((label, bytes));
                                assert(list.deep_view() =~= before.push(entry));
                            },
                        }
                    },
                    None => {
                        assert(labelled_entry(views[i as int]) is None);
                        return None;
                    },
                }
                i += 1;
            }
            assert(entries =~= labelled_entries(v@)->Some_0);
            Some(list)
        },
        None => None,
    }
}

/// An answer read as the entries of a mapping from numbers to bytes.
pub open spec fn numbered_in(answer: Result<ValueView, ErrorView>) -> Result<
    Seq<(u16, Seq<u8>)>,
    ErrorView,
> {
    match answer {
        Ok(v) => required(numbered_entries(v)),
        Err(e) => Err(e),
    }
}

/// An answer read as a mapping from names to bytes, each name once.
pub open spec fn labelled_in(answer: Result<ValueView, ErrorView>) -> Result<
    Seq<(Seq<char>, Seq<u8>)>,
    ErrorView,
> {
    match answer {
        Ok(v) => match labelled_entries(v) {
            Some(entries) => Ok(merged(entries)),
            None => required(None),
        },
        Err(e) => Err(e),
    }
}

/// Narrows an answer to a mapping from numbers to bytes.
pub fn expect_numbered_bytes(answer: Result<Value, Error>) -> (r: Result<
    HashMap<u16, Vec<u8>>,
    Error,
>)
    ensures
        match numbered_in(content_of(answer)) {
            Ok(entries) => r is Ok && held(r->Ok_0@) == collected(entries),
            Err(e) => r is Err && r->Err_0@ == e,
        },
{
    match answer {
        Ok(v) => match numbered_bytes(&v) {
            Some(map) => Ok(map),
            None => Err(type_mismatch()),
        },
        Err(e) => Err(e),
    }
}

/// Narrows an answer to a mapping from names to bytes.
pub fn expect_labelled_bytes(answer: Result<Value, Error>) -> (r: Result<
    Vec<(String, Vec<u8>)>,
    Error,
>)
    ensures
        content_of(r) == labelled_in(content_of(answer)),
{
    match answer {
        Ok(v) => match labelled_bytes(&v) {
            Some(list) => Ok(list),
            None => Err(type_mismatch()),
        },
        Err(e) => Err(e),
    }
}

} // verus!
