//! The on-disk record format: one self-describing map per line with exactly a
//! `version` field and a payload field.
use vstd::prelude::*;
use vstd::string::{StrSliceExecFns, StringExecFns};

use crate::version::Version;

verus! {

/// The name of the version field of a record.
pub const SERIALIZE_KEY_VERSION: &'static str = "version";

/// The name of the payload field of a record that holds an aggregate.
pub const SERIALIZE_KEY_AGGREGATE: &'static str = "aggregate";

/// The name of the payload field of a record that holds an event.
pub const SERIALIZE_KEY_EVENT: &'static str = "event";

/// What is wrong with a field of a record.
#[derive(Debug, Copy, Clone, PartialEq, Eq, Structural)]
pub enum FieldErrorKind {
    /// The field occurs twice.
    Duplicate,
    /// The field does not occur.
    Missing,
    /// The field is neither the version nor the payload.
    Unknown,
}

/// A record rejected for the field `field`.
#[derive(Debug, PartialEq, Eq)]
pub struct FieldError {
    pub kind: FieldErrorKind,
    pub field: String,
}

/// The keys of `entries`, in order.
pub open spec fn keys_of<V>(entries: Seq<(String, V)>) -> Seq<Seq<char>> {
    entries.map_values(|e: (String, V)| e.0@)
}

/// Scans `keys` in order: the index of the version field and of the payload
/// field `base_key` seen so far, or the first field that is a duplicate or
/// unknown.
pub open spec fn scan_keys(keys: Seq<Seq<char>>, base_key: Seq<char>) -> Result<
    (Option<int>, Option<int>),
    (FieldErrorKind, Seq<char>),
>
    decreases keys.len(),
{
    if keys.len() == 0 {
        Ok((None, None))
    } else {
        let i = keys.len() - 1;
        match scan_keys(keys.drop_last(), base_key) {
            Err(e) => Err(e),
            Ok((v, b)) => if keys[i] == SERIALIZE_KEY_VERSION@ {
                if v is Some {
                    Err((FieldErrorKind::Duplicate, SERIALIZE_KEY_VERSION@))
                } else {
                    Ok((Some(i), b))
                }
            } else if keys[i] == base_key {
                if b is Some {
                    Err((FieldErrorKind::Duplicate, base_key))
                } else {
                    Ok((v, Some(i)))
                }
            } else {
                Err((FieldErrorKind::Unknown, keys[i]))
            },
        }
    }
}

/// The indices of the version field and of the payload field `base_key` in
/// a record with `keys`, or why the record is rejected: the first duplicate
/// or unknown field, else a missing version, else a missing payload.
pub open spec fn record_fields(keys: Seq<Seq<char>>, base_key: Seq<char>) -> Result<
    (int, int),
    (FieldErrorKind, Seq<char>),
> {
    match scan_keys(keys, base_key) {
        Err(e) => Err(e),
        Ok((None, _)) => Err((FieldErrorKind::Missing, SERIALIZE_KEY_VERSION@)),
        Ok((Some(_), None)) => Err((FieldErrorKind::Missing, base_key)),
        Ok((Some(v), Some(b))) => Ok((v, b)),
    }
}

/// Once a prefix of the keys is rejected, the whole record is rejected for
/// the same field.
proof fn lemma_scan_error_persists(keys: Seq<Seq<char>>, base_key: Seq<char>, j: int)
    requires
        0 <= j <= keys.len(),
        scan_keys(keys.subrange(0, j), base_key) is Err,
    ensures
        scan_keys(keys, base_key) == scan_keys(keys.subrange(0, j), base_key),
    decreases keys.len() - j,
{
    if j < keys.len() {
        assert(keys.subrange(0, j + 1).drop_last() == keys.subrange(0, j));
        lemma_scan_error_persists(keys, base_key, j + 1);
    } else {
        assert(keys.subrange(0, j) == keys);
    }
}

/// Whether `a` and `b` hold the same text.
pub fn same_text(a: &str, b: &str) -> (r: bool)
    ensures
        r == (a@ == b@),
{
    let n = a.unicode_len();
    if n != b.unicode_len() {
        return false;
    }
    let mut i: usize = 0;
    while i < n
        invariant
            n == a@.len() == b@.len(),
            i <= n,
            forall|k: int| 0 <= k < i ==> a@[k] == b@[k],
        decreases n - i,
    {
        if a.get_char(i) != b.get_char(i) {
            return false;
        }
        i = i + 1;
    }
    proof {
        assert(a@ =~= b@);
    }
    true
}

/// `o` as an optional mathematical index.
pub open spec fn as_index(o: Option<usize>) -> Option<int> {
    match o {
        Some(k) => Some(k as int),
        None => None,
    }
}

/// Takes the version value and the payload value out of the fields of a
/// record, given as key and value in order. The record must hold exactly one
/// field named `version` and one named `base_key`, and no other.
pub fn visit_versioned<V>(entries: Vec<(String, V)>, base_key: &str) -> (r: Result<
    (V, V),
    FieldError,
>)
    ensures
        match record_fields(keys_of(entries@), base_key@) {
            Ok((v, b)) => r matches Ok((x, y)) && x == entries@[v].1 && y == entries@[b].1,
            Err((kind, field)) => r matches Err(e) && e.kind == kind && e.field@ == field,
        },
{
    let ghost keys = keys_of(entries@);
    let mut version: Option<usize> = None;
    let mut base: Option<usize> = None;
    let mut i: usize = 0;
    while i < entries.len()
        invariant
            i <= entries.len(),
            keys == keys_of(entries@),
            scan_keys(keys.subrange(0, i as int), base_key@) == Ok::<_, (FieldErrorKind, Seq<char>)>(
                (as_index(version), as_index(base)),
            ),
            version matches Some(k) ==> k < i,
            base matches Some(k) ==> k < i,
            version matches Some(x) ==> (base matches Some(y) ==> x != y),
        decreases entries.len() - i,
    {
        proof {
            assert(keys.subrange(0, i + 1).drop_last() == keys.subrange(0, i as int));
            assert(keys[i as int] == entries@[i as int].0@);
        }
        let key = entries[i].0.as_str();
        if same_text(key, SERIALIZE_KEY_VERSION) {
            if version.is_some() {
                proof {
                    lemma_scan_error_persists(keys, base_key@, i + 1);
                }
                return Err(
                    FieldError {
                        kind: FieldErrorKind::Duplicate,
                        field: String::from_str(SERIALIZE_KEY_VERSION),
                    },
                );
            }
            version = Some(i);
        } else if same_text(key, base_key) {
            if base.is_some() {
                proof {
                    lemma_scan_error_persists(keys, base_key@, i + 1);
                }
                return Err(
                    FieldError { kind: FieldErrorKind::Duplicate, field: String::from_str(base_key) },
                );
            }
            base = Some(i);
        } else {
            proof {
                lemma_scan_error_persists(keys, base_key@, i + 1);
            }
            return Err(FieldError { kind: FieldErrorKind::Unknown, field: key.to_owned() });
        }
        i = i + 1;
    }
    proof {
        assert(keys.subrange(0, entries@.len() as int) == keys);
    }
    let v = match version {
        Some(v) => v,
        None => {
            return Err(
                FieldError {
                    kind: FieldErrorKind::Missing,
                    field: String::from_str(SERIALIZE_KEY_VERSION),
                },
            );
        },
    };
    let b = match base {
        Some(b) => b,
        None => {
            return Err(
                FieldError { kind: FieldErrorKind::Missing, field: String::from_str(base_key) },
            );
        },
    };
    let ghost before = entries@;
    let mut entries = entries;
    if v > b {
        let (_, x) = entries.remove(v);
        let (_, y) = entries.remove(b);
        Ok((x, y))
    } else {
        let (_, y) = entries.remove(b);
        let (_, x) = entries.remove(v);
        Ok((x, y))
    }
}

/// The decimal digit `d`, for `d < 10`.
pub open spec fn digit_char(d: nat) -> char {
    seq!['0', '1', '2', '3', '4', '5', '6', '7', '8', '9'][d as int]
}

/// The decimal form of `n`: its digits, most significant first, without
/// leading zeros.
pub open spec fn decimal(n: nat) -> Seq<char>
    decreases n,
{
    if n < 10 {
        seq![digit_char(n)]
    } else {
        decimal(n / 10).push(digit_char(n % 10))
    }
}

/// The decimal digit `d` as text.
fn digit_text(d: u64) -> (r: &'static str)
    requires
        d < 10,
    ensures
        r@ == seq![digit_char(d as nat)],
{
    proof {
        reveal_strlit("0");
        reveal_strlit("1");
        reveal_strlit("2");
        reveal_strlit("3");
        reveal_strlit("4");
        reveal_strlit("5");
        reveal_strlit("6");
        reveal_strlit("7");
        reveal_strlit("8");
        reveal_strlit("9");
    }
    match d {
        0 => "0",
        1 => "1",
        2 => "2",
        3 => "3",
        4 => "4",
        5 => "5",
        6 => "6",
        7 => "7",
        8 => "8",
        _ => "9",
    }
}

/// The decimal form of `n`.
pub fn decimal_string(n: u64) -> (r: String)
    ensures
        r@ == decimal(n as nat),
    decreases n,
{
    if n < 10 {
        String::from_str(digit_text(n))
    } else {
        let mut s = decimal_string(n / 10);
        s.append(digit_text(n % 10));
        s
    }
}

/// The line that records `payload` at `version`: a map whose version field
/// holds the decimal version and whose field `base_key` holds the payload,
/// as it stands, followed by a newline.
pub open spec fn record_line(version: u64, base_key: Seq<char>, payload: Seq<char>) -> Seq<char> {
    "{\"version\":"@ + decimal(version as nat) + ",\""@ + base_key + "\":"@ + payload + "}\n"@
}

/// Encodes the record, at `version`, of a payload whose serialized form is
/// `payload`, under the field name `base_key` (`event` or `aggregate`).
pub fn encode_record(version: Version, base_key: &str, payload: &str) -> (r: String)
    ensures
        r@ == record_line(version.0, base_key@, payload@),
{
    let mut line = String::from_str("{\"version\":");
    let digits = decimal_string(version.0);
    line.append(digits.as_str());
    line.append(",\"");
    line.append(base_key);
    line.append("\":");
    line.append(payload);
    line.append("}\n");
    line
}

/// `s` split at every `sep`: the texts between separators, in order. A text
/// without separator is one part; an empty text is one empty part.
pub open spec fn split_on(s: Seq<char>, sep: char) -> Seq<Seq<char>>
    decreases s.len(),
{
    if s.len() == 0 {
        seq![Seq::empty()]
    } else {
        let parts = split_on(s.drop_last(), sep);
        if s.last() == sep {
            parts.push(Seq::empty())
        } else {
            parts.update(parts.len() - 1, parts.last().push(s.last()))
        }
    }
}

/// The nested directories, under the storage root, that hold the streams of
/// the aggregate named `name`: the parts of the name between `/`.
pub fn aggregate_dir_segments(name: &str) -> (r: Vec<String>)
    ensures
        r@.map_values(|p: String| p@) == split_on(name@, '/'),
{
    let n = name.unicode_len();
    let mut parts: Vec<String> = Vec::new();
    let mut start: usize = 0;
    let mut i: usize = 0;
    proof {
        assert(parts@.map_values(|p: String| p@) == Seq::<Seq<char>>::empty());
        assert(name@.subrange(0, 0) == Seq::<char>::empty());
        assert(split_on(Seq::<char>::empty(), '/') == seq![Seq::<char>::empty()]);
        assert(Seq::<Seq<char>>::empty().push(Seq::<char>::empty()) == seq![Seq::<char>::empty()]);
    }
    while i < n
        invariant
            n == name@.len(),
            start <= i <= n,
            split_on(name@.subrange(0, i as int), '/') == parts@.map_values(|p: String| p@).push(
                name@.subrange(start as int, i as int),
            ),
        decreases n - i,
    {
        proof {
            assert(name@.subrange(0, i + 1).drop_last() == name@.subrange(0, i as int));
        }
        if name.get_char(i) == '/' {
            let part = name.substring_char(start, i).to_owned();
            let ghost before = parts@.map_values(|p: String| p@);
            parts.push(part);
            proof {
                assert(parts@.map_values(|p: String| p@) == before.push(part@));
                assert(name@.subrange(i + 1, i + 1) == Seq::<char>::empty());
            }
            start = i + 1;
        } else {
            proof {
                assert(name@.subrange(start as int, i + 1) == name@.subrange(start as int, i as int).push(
                    name@[i as int],
                ));
            }
        }
        i = i + 1;
    }
    let last = name.substring_char(start, n).to_owned();
    let ghost before = parts@.map_values(|p: String| p@);
    parts.push(last);
    proof {
        assert(parts@.map_values(|p: String| p@) == before.push(last@));
        assert(name@.subrange(0, n as int) == name@);
    }
    parts
}

} // verus!
