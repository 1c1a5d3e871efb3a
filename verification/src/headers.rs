//! Header maps.
//!
//! The engine keeps its headers in the header map of the `http` crate. Verus
//! sees nothing inside such a map, so [`fields`] names what one holds, and
//! the functions below say over that name what the map's methods do.

use vstd::prelude::*;
use vstd::string::{is_ascii, StringSliceAdditionalSpecFns};
use crate::text::latin;

verus! {

/// The header value of the `http` crate. Nothing is said of what one holds:
/// the engine hands bytes to the map and takes bytes from it.
#[verifier::external_type_specification]
#[verifier::external_body]
pub struct ExHeaderValue(http::header::HeaderValue);

/// The header map of the `http` crate. What one holds is named by [`fields`].
#[verifier::external_type_specification]
#[verifier::external_body]
#[verifier::reject_recursive_types(T)]
pub struct ExHeaderMap<T>(http::HeaderMap<T>);

/// The header map of the engine.
pub type Headers = http::HeaderMap<http::header::HeaderValue>;

/// What a header map holds: one entry for each name, in the order in which
/// a walk of the map meets the names, and with each name its values, in the
/// order in which the walk gives them.
pub type Fields = Seq<(Seq<u8>, Seq<Seq<u8>>)>;

/// What `map` holds: what `HeaderMap::iter` walks through, name by name.
/// Names are in lower case.
pub uninterp spec fn fields(map: http::HeaderMap<http::header::HeaderValue>) -> Seq<(Seq<u8>, Seq<Seq<u8>>)>;

/// The number of names that a header map can hold.
pub const MAX_NAMES: usize = 32768;

/// The length that a header name must stay under.
pub const NAME_LIMIT: usize = 65536;

/// Whether a header name may hold `b`: a digit, a letter, or one of
/// `! " # $ % & ' * + - . ^ _ | ~` and the backtick.
pub open spec fn is_name_byte(b: u8) -> bool {
    ||| 0x21 <= b <= 0x27
    ||| b == 0x2a
    ||| b == 0x2b
    ||| b == 0x2d
    ||| b == 0x2e
    ||| 0x30 <= b <= 0x39
    ||| 0x41 <= b <= 0x5a
    ||| 0x5e <= b <= 0x7a
    ||| b == 0x7c
    ||| b == 0x7e
}

/// Whether `name` can be a header name: it is not empty, it is shorter than
/// [`NAME_LIMIT`], and a header name may hold each of its bytes.
pub open spec fn valid_name(name: Seq<u8>) -> bool {
    &&& 0 < name.len() < NAME_LIMIT
    &&& forall|i: int| 0 <= i < name.len() ==> is_name_byte(#[trigger] name[i])
}

/// `b`, in lower case where it is a letter.
pub open spec fn lower(b: u8) -> u8 {
    if 0x41 <= b <= 0x5a {
        (b + 0x20) as u8
    } else {
        b
    }
}

/// `name` in lower case: the form in which a header map holds it.
pub open spec fn lowered(name: Seq<u8>) -> Seq<u8> {
    Seq::new(name.len(), |i: int| lower(name[i]))
}

/// Whether a header value may hold `b`: a tab, or any byte from the space
/// on but the delete character.
pub open spec fn is_value_byte(b: u8) -> bool {
    (b >= 32 && b != 127) || b == 9
}

/// Whether `value` can be a header value.
pub open spec fn valid_value(value: Seq<u8>) -> bool {
    forall|i: int| 0 <= i < value.len() ==> is_value_byte(#[trigger] value[i])
}

/// Whether `b` is a visible ASCII character, a space or a tab.
pub open spec fn is_visible_byte(b: u8) -> bool {
    (32 <= b < 127) || b == 9
}

/// Whether `value` is text: visible ASCII, spaces and tabs.
pub open spec fn visible(value: Seq<u8>) -> bool {
    forall|i: int| 0 <= i < value.len() ==> is_visible_byte(#[trigger] value[i])
}

/// Whether `f` has an entry for `name`.
pub open spec fn has(f: Fields, name: Seq<u8>) -> bool {
    exists|i: int| 0 <= i < f.len() && (#[trigger] f[i]).0 == name
}

/// Where the entry for `name` stands in `f`.
pub open spec fn index_of(f: Fields, name: Seq<u8>) -> int {
    choose|i: int| 0 <= i < f.len() && (#[trigger] f[i]).0 == name
}

/// The values of `name` in `f`.
pub open spec fn values(f: Fields, name: Seq<u8>) -> Seq<Seq<u8>> {
    if has(f, name) {
        f[index_of(f, name)].1
    } else {
        Seq::empty()
    }
}

/// The first value of `name` in `f`.
pub open spec fn first(f: Fields, name: Seq<u8>) -> Option<Seq<u8>> {
    if has(f, name) {
        Some(f[index_of(f, name)].1[0])
    } else {
        None
    }
}

/// `f` after `value` has taken the place of all values of `name`.
pub open spec fn inserted(f: Fields, name: Seq<u8>, value: Seq<u8>) -> Fields {
    if has(f, name) {
        f.update(index_of(f, name), (name, seq![value]))
    } else {
        f.push((name, seq![value]))
    }
}

/// `f` after `value` has been added to the values of `name`.
pub open spec fn appended(f: Fields, name: Seq<u8>, value: Seq<u8>) -> Fields {
    if has(f, name) {
        let i = index_of(f, name);
        f.update(i, (name, f[i].1.push(value)))
    } else {
        f.push((name, seq![value]))
    }
}

/// The header lines of one name.
pub open spec fn entry_lines(name: Seq<u8>, values: Seq<Seq<u8>>) -> Seq<(Seq<u8>, Seq<u8>)> {
    Seq::new(values.len(), |i: int| (name, values[i]))
}

/// The header lines of `f`, in the order in which a walk of the map gives
/// them: name by name, and for each name value by value.
pub open spec fn lines(f: Fields) -> Seq<(Seq<u8>, Seq<u8>)>
    decreases f.len(),
{
    if f.len() == 0 {
        Seq::empty()
    } else {
        lines(f.drop_last()) + entry_lines(f.last().0, f.last().1)
    }
}

/// What holds of the contents of every header map: no name stands twice,
/// and every name has a value.
pub open spec fn well_formed(f: Fields) -> bool {
    &&& forall|i: int, j: int| 0 <= i < j < f.len() ==> (#[trigger] f[i]).0 != (#[trigger] f[j]).0
    &&& forall|i: int| 0 <= i < f.len() ==> (#[trigger] f[i]).1.len() > 0
}

/// Whether a map with contents `f` has room for `name`.
pub open spec fn has_room(f: Fields, name: Seq<u8>) -> bool {
    f.len() < MAX_NAMES || has(f, name)
}

/// `HeaderMap::new`: an empty map.
#[verifier::external_body]
pub(crate) fn empty_map() -> (map: Headers)
    ensures
        fields(map) == Seq::<(Seq<u8>, Seq<Seq<u8>>)>::empty(),
{
    http::HeaderMap::new()
}

/// `HeaderMap::keys_len`: the number of names in the map.
#[verifier::external_body]
pub(crate) fn name_count(map: &Headers) -> (n: usize)
    ensures
        n == fields(*map).len(),
{
    map.keys_len()
}

/// `HeaderName::from_bytes`: whether it takes `name`. It takes a name that
/// is not empty and holds only bytes of its table of header characters, and
/// it does not return for a name of 65536 bytes or more, which the bound
/// leaves out.
#[verifier::external_body]
pub(crate) fn name_ok(name: &[u8]) -> (ok: bool)
    requires
        name@.len() < NAME_LIMIT,
    ensures
        ok == valid_name(name@),
{
    http::header::HeaderName::from_bytes(name).is_ok()
}

/// `HeaderValue::from_bytes`: whether it takes `value`. It takes every byte
/// from 32 on but 127, and the tab.
#[verifier::external_body]
pub(crate) fn value_ok(value: &[u8]) -> (ok: bool)
    ensures
        ok == valid_value(value@),
{
    http::header::HeaderValue::from_bytes(value).is_ok()
}

/// `HeaderMap::insert`, with the name and the value made by
/// `HeaderName::from_bytes` and `HeaderValue::from_bytes`. A name that the map
/// holds keeps its place and loses its earlier values; a new name comes
/// last. The map takes no new name once it holds 32768.
#[verifier::external_body]
pub(crate) fn map_insert(map: &mut Headers, name: &[u8], value: &[u8])
    requires
        valid_name(name@),
        valid_value(value@),
        has_room(fields(*old(map)), lowered(name@)),
    ensures
        fields(*final(map)) == inserted(fields(*old(map)), lowered(name@), value@),
{
    let name = http::header::HeaderName::from_bytes(name);
    let value = http::header::HeaderValue::from_bytes(value);
    if let (Ok(name), Ok(value)) = (name, value) {
        map.insert(name, value);
    }
}

/// `HeaderMap::append`, with the name and the value made by
/// `HeaderName::from_bytes` and `HeaderValue::from_bytes`. The value comes
/// after the values that the name has; a new name comes last. The map takes
/// no new name once it holds 32768.
#[verifier::external_body]
pub(crate) fn map_append(map: &mut Headers, name: &[u8], value: &[u8])
    requires
        valid_name(name@),
        valid_value(value@),
        has_room(fields(*old(map)), lowered(name@)),
    ensures
        fields(*final(map)) == appended(fields(*old(map)), lowered(name@), value@),
{
    let name = http::header::HeaderName::from_bytes(name);
    let value = http::header::HeaderValue::from_bytes(value);
    if let (Ok(name), Ok(value)) = (name, value) {
        map.append(name, value);
    }
}

/// `HeaderMap::get` and, on what it finds, `HeaderValue::to_str`: the first
/// value of `name` as text. The outer `None` says that the map has no such
/// name, the inner one that the value holds a byte that is neither visible
/// ASCII nor a space nor a tab.
#[verifier::external_body]
pub(crate) fn first_text(map: &Headers, name: &str) -> (r: Option<Option<String>>)
    requires
        valid_name(name.spec_bytes()),
    ensures
        match first(fields(*map), lowered(name.spec_bytes())) {
            Some(value) => match r {
                Some(Some(text)) => visible(value) && text@ == latin(value),
                Some(None) => !visible(value),
                None => false,
            },
            None => r is None,
        },
{
    map.get(name).map(|value| value.to_str().ok().map(|text| text.to_owned()))
}

/// `HeaderMap::iter`: every header line of the map, in the order of the
/// walk, each name copied from `HeaderName::as_str` and each value from
/// `HeaderValue::as_bytes`.
#[verifier::external_body]
pub(crate) fn map_lines(map: &Headers) -> (r: Vec<(Vec<u8>, Vec<u8>)>)
    ensures
        r@.len() == lines(fields(*map)).len(),
        forall|i: int| 0 <= i < r@.len() ==> (#[trigger] r@[i]).0@ == lines(fields(*map))[i].0,
        forall|i: int| 0 <= i < r@.len() ==> (#[trigger] r@[i]).1@ == lines(fields(*map))[i].1,
{
    map.iter().map(|(name, value)| (name.as_str().as_bytes().to_vec(), value.as_bytes().to_vec())).collect()
}

/// The names and the value that the engine writes of its own accord: a
/// header map takes them, and holds the names as they stand.
pub proof fn lemma_fixed_headers()
    ensures
        valid_name("connection".spec_bytes()),
        lowered("connection".spec_bytes()) == "connection".spec_bytes(),
        valid_name("host".spec_bytes()),
        lowered("host".spec_bytes()) == "host".spec_bytes(),
        valid_name("location".spec_bytes()),
        lowered("location".spec_bytes()) == "location".spec_bytes(),
        valid_value("close".spec_bytes()),
        "connection".spec_bytes() != "host".spec_bytes(),
{
    broadcast use vstd::string::is_ascii_spec_bytes;

    reveal_strlit("connection");
    reveal_strlit("host");
    reveal_strlit("location");
    reveal_strlit("close");
    assert(is_ascii("connection"));
    assert(is_ascii("host"));
    assert(is_ascii("location"));
    assert(is_ascii("close"));
    assert(lowered("connection".spec_bytes()) =~= "connection".spec_bytes());
    assert(lowered("host".spec_bytes()) =~= "host".spec_bytes());
    assert(lowered("location".spec_bytes()) =~= "location".spec_bytes());
    assert("connection".spec_bytes().len() != "host".spec_bytes().len());
}

/// A line of `lines(f)` is a value of an entry of `f` under its name.
pub proof fn lemma_lines_members(f: Fields, line: (Seq<u8>, Seq<u8>))
    ensures
        lines(f).contains(line) <==> exists|i: int, j: int|
            0 <= i < f.len() && 0 <= j < f[i].1.len() && line == (f[i].0, #[trigger] f[i].1[j]),
    decreases f.len(),
{
    if f.len() == 0 {
        assert(!lines(f).contains(line));
    } else {
        let front = f.drop_last();
        let tail = entry_lines(f.last().0, f.last().1);
        lemma_lines_members(front, line);
        if lines(f).contains(line) {
            let k = choose|k: int| 0 <= k < lines(f).len() && lines(f)[k] == line;
            if k < lines(front).len() {
                assert(lines(front)[k] == line);
                assert(lines(front).contains(line));
                let (i, j) = choose|i: int, j: int|
                    0 <= i < front.len() && 0 <= j < front[i].1.len() && line == (front[i].0, #[trigger] front[i].1[j]);
                assert(f[i] == front[i]);
                assert(0 <= i < f.len() && 0 <= j < f[i].1.len() && line == (f[i].0, f[i].1[j]));
            } else {
                let j = k - lines(front).len();
                assert(tail[j] == line);
                let i = f.len() - 1;
                assert(0 <= i < f.len() && 0 <= j < f[i].1.len() && line == (f[i].0, f[i].1[j]));
            }
        }
        if exists|i: int, j: int|
            0 <= i < f.len() && 0 <= j < f[i].1.len() && line == (f[i].0, #[trigger] f[i].1[j]) {
            let (i, j) = choose|i: int, j: int|
                0 <= i < f.len() && 0 <= j < f[i].1.len() && line == (f[i].0, #[trigger] f[i].1[j]);
            if i < f.len() - 1 {
                assert(front[i] == f[i]);
                assert(0 <= i < front.len() && 0 <= j < front[i].1.len() && line == (front[i].0, front[i].1[j]));
                assert(lines(front).contains(line));
                let k = choose|k: int| 0 <= k < lines(front).len() && lines(front)[k] == line;
                assert(lines(f)[k] == line);
            } else {
                assert(tail[j] == line);
                assert(lines(f)[lines(front).len() + j] == line);
            }
        }
    }
}

/// A map stays well formed when a value is inserted.
pub proof fn lemma_inserted_well_formed(f: Fields, name: Seq<u8>, value: Seq<u8>)
    requires
        well_formed(f),
    ensures
        well_formed(inserted(f, name, value)),
        has(inserted(f, name, value), name),
        values(inserted(f, name, value), name) == seq![value],
        inserted(f, name, value).len() == if has(f, name) { f.len() } else { f.len() + 1 },
{
    let g = inserted(f, name, value);
    if has(f, name) {
        let i = index_of(f, name);
        assert(g[i].0 == name);
        assert forall|a: int, b: int| 0 <= a < b < g.len() implies (#[trigger] g[a]).0 != (#[trigger] g[b]).0 by {
            assert(g[a].0 == f[a].0);
            assert(g[b].0 == f[b].0);
        }
        assert forall|a: int| 0 <= a < g.len() implies (#[trigger] g[a]).1.len() > 0 by {
            if a != i {
                assert(g[a] == f[a]);
            }
        }
    } else {
        let i = f.len() as int;
        assert(g[i].0 == name);
        assert forall|a: int, b: int| 0 <= a < b < g.len() implies (#[trigger] g[a]).0 != (#[trigger] g[b]).0 by {
            assert(g[a] == f[a]);
            if b < f.len() {
                assert(g[b] == f[b]);
            }
        }
        assert forall|a: int| 0 <= a < g.len() implies (#[trigger] g[a]).1.len() > 0 by {
            if a < f.len() {
                assert(g[a] == f[a]);
            }
        }
    }
    lemma_entry_is_found(g, name);
}

/// A map stays well formed when a value is appended.
pub proof fn lemma_appended_well_formed(f: Fields, name: Seq<u8>, value: Seq<u8>)
    requires
        well_formed(f),
    ensures
        well_formed(appended(f, name, value)),
        has(appended(f, name, value), name),
        values(appended(f, name, value), name) == values(f, name).push(value),
        appended(f, name, value).len() == if has(f, name) { f.len() } else { f.len() + 1 },
{
    let g = appended(f, name, value);
    if has(f, name) {
        let i = index_of(f, name);
        assert(g[i].0 == name);
        assert forall|a: int, b: int| 0 <= a < b < g.len() implies (#[trigger] g[a]).0 != (#[trigger] g[b]).0 by {
            assert(g[a].0 == f[a].0);
            assert(g[b].0 == f[b].0);
        }
        assert forall|a: int| 0 <= a < g.len() implies (#[trigger] g[a]).1.len() > 0 by {
            if a != i {
                assert(g[a] == f[a]);
            }
        }
        lemma_entry_is_found(g, name);
        assert(index_of(g, name) == i) by {
            let k = index_of(g, name);
            if k != i {
                assert(g[k].0 == g[i].0);
            }
        }
    } else {
        let i = f.len() as int;
        assert(g[i].0 == name);
        assert forall|a: int, b: int| 0 <= a < b < g.len() implies (#[trigger] g[a]).0 != (#[trigger] g[b]).0 by {
            assert(g[a] == f[a]);
            if b < f.len() {
                assert(g[b] == f[b]);
            }
        }
        assert forall|a: int| 0 <= a < g.len() implies (#[trigger] g[a]).1.len() > 0 by {
            if a < f.len() {
                assert(g[a] == f[a]);
            }
        }
        lemma_entry_is_found(g, name);
        assert(index_of(g, name) == i) by {
            let k = index_of(g, name);
            if k != i {
                assert(g[k] == f[k]);
            }
        }
        assert(values(f, name).push(value) =~= seq![value]);
    }
}

/// In a well-formed map, the entry of a name is the only one with that name.
pub proof fn lemma_entry_is_found(f: Fields, name: Seq<u8>)
    requires
        well_formed(f),
        has(f, name),
    ensures
        0 <= index_of(f, name) < f.len(),
        f[index_of(f, name)].0 == name,
        forall|i: int| 0 <= i < f.len() && (#[trigger] f[i]).0 == name ==> i == index_of(f, name),
{
}

/// Setting one header leaves the values of every other one as they are.
pub proof fn lemma_other_values(f: Fields, name: Seq<u8>, value: Seq<u8>, other: Seq<u8>)
    requires
        well_formed(f),
        other != name,
    ensures
        values(inserted(f, name, value), other) == values(f, other),
{
    let g = inserted(f, name, value);
    lemma_inserted_well_formed(f, name, value);
    if has(f, other) {
        lemma_entry_is_found(f, other);
        let i = index_of(f, other);
        assert(g[i] == f[i]);
        assert(has(g, other));
        lemma_entry_is_found(g, other);
    } else {
        if has(g, other) {
            let k = index_of(g, other);
            if k < f.len() {
                if has(f, name) && k == index_of(f, name) {
                    assert(g[k].0 == name);
                } else {
                    assert(g[k] == f[k]);
                }
            } else {
                assert(g[k].0 == name);
            }
            assert(false);
        }
    }
}

} // verus!
