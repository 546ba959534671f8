use vstd::prelude::*;

use crate::text::{contains, contains_spec};

verus! {

/// White space as Unicode defines it.
pub open spec fn is_space(c: char) -> bool {
    c == ' ' || ('\t' <= c && c <= '\r') || c == '\u{85}' || c == '\u{a0}' || c == '\u{1680}'
        || ('\u{2000}' <= c && c <= '\u{200a}') || c == '\u{2028}' || c == '\u{2029}'
        || c == '\u{202f}' || c == '\u{205f}' || c == '\u{3000}'
}

fn space(c: char) -> (r: bool)
    ensures
        r == is_space(c),
{
    c == ' ' || ('\t' <= c && c <= '\r') || c == '\u{85}' || c == '\u{a0}' || c == '\u{1680}'
        || ('\u{2000}' <= c && c <= '\u{200a}') || c == '\u{2028}' || c == '\u{2029}'
        || c == '\u{202f}' || c == '\u{205f}' || c == '\u{3000}'
}

/// `s` without its leading white space.
pub open spec fn trim_start_spec(s: Seq<char>) -> Seq<char>
    decreases s.len(),
{
    if s.len() > 0 && is_space(s[0]) {
        trim_start_spec(s.drop_first())
    } else {
        s
    }
}

/// `s` without its trailing white space.
pub open spec fn trim_end_spec(s: Seq<char>) -> Seq<char>
    decreases s.len(),
{
    if s.len() > 0 && is_space(s.last()) {
        trim_end_spec(s.drop_last())
    } else {
        s
    }
}

/// `s` without white space at either end.
pub open spec fn trim_spec(s: Seq<char>) -> Seq<char> {
    trim_end_spec(trim_start_spec(s))
}

/// The characters of `s` from `from` on, without white space at either end.
fn trimmed_from(s: &str, from: usize) -> (r: String)
    requires
        from <= s@.len(),
    ensures
        r@ == trim_spec(s@.subrange(from as int, s@.len() as int)),
{
    let n = s.unicode_len();
    let mut i: usize = from;
    while i < n && space(s.get_char(i))
        invariant
            n == s@.len(),
            from <= i <= n,
            trim_start_spec(s@.subrange(from as int, n as int)) == trim_start_spec(
                s@.subrange(i as int, n as int),
            ),
        decreases n - i,
    {
        assert(s@.subrange(i as int, n as int).drop_first() =~= s@.subrange(i + 1, n as int));
        i = i + 1;
    }
    let mut j: usize = n;
    while j > i && space(s.get_char(j - 1))
        invariant
            n == s@.len(),
            from <= i <= j <= n,
            trim_spec(s@.subrange(from as int, n as int)) == trim_end_spec(
                s@.subrange(i as int, j as int),
            ),
        decreases j - i,
    {
        assert(s@.subrange(i as int, j as int).drop_last() =~= s@.subrange(i as int, j - 1));
        j = j - 1;
    }
    String::from_str(s.substring_char(i, j))
}

/// The 7z listing separator.
pub open spec fn separator_spec() -> Seq<char> {
    "------------------------"@
}

/// The column at which 7z prints an entry's path.
pub const PATH_COLUMN: usize = 53;

/// The path on a line inside the table, if it has one.
pub open spec fn entry_of(line: Seq<char>) -> Option<Seq<char>> {
    if line.len() > PATH_COLUMN && trim_spec(line.subrange(PATH_COLUMN as int, line.len() as int)).len() > 0 {
        Some(trim_spec(line.subrange(PATH_COLUMN as int, line.len() as int)))
    } else {
        None
    }
}

/// The paths read from the first `lines`, and whether they end inside the
/// table: a line holding the separator enters or leaves it.
pub open spec fn listing_spec(lines: Seq<Seq<char>>) -> (Seq<Seq<char>>, bool)
    decreases lines.len(),
{
    if lines.len() == 0 {
        (Seq::empty(), false)
    } else {
        let (paths, inside) = listing_spec(lines.drop_last());
        let line = lines.last();
        if contains_spec(line, separator_spec()) {
            (paths, !inside)
        } else if inside && entry_of(line) is Some {
            (paths.push(entry_of(line)->Some_0), inside)
        } else {
            (paths, inside)
        }
    }
}

/// The entry paths of a 7z listing (`7z l`), given as its lines: each
/// line between two separator lines that has text from the path column on.
pub fn archive_entries(lines: &Vec<String>) -> (r: Vec<String>)
    ensures
        r@.map_values(|p: String| p@) == listing_spec(lines@.map_values(|l: String| l@)).0,
{
    let ghost lv = lines@.map_values(|l: String| l@);
    let mut out: Vec<String> = Vec::new();
    let mut inside = false;
    let mut k: usize = 0;
    while k < lines.len()
        invariant
            lv == lines@.map_values(|l: String| l@),
            k <= lines@.len(),
            listing_spec(lv.take(k as int)) == (out@.map_values(|p: String| p@), inside),
        decreases lines@.len() - k,
    {
        let line = lines[k].as_str();
        assert(lv.take(k + 1).drop_last() =~= lv.take(k as int));
        assert(lv.take(k + 1).last() == line@);
        if contains(line, "------------------------") {
            inside = !inside;
        } else if inside {
            let n = line.unicode_len();
            if n > PATH_COLUMN {
                let p = trimmed_from(line, PATH_COLUMN);
                if p.as_str().unicode_len() > 0 {
                    let ghost before = out@;
                    out.push(p);
                    assert(out@.map_values(|p: String| p@) =~= before.map_values(|p: String| p@).push(
                        p@,
                    ));
                }
            }
        }
        k = k + 1;
    }
    assert(lv.take(k as int) =~= lv);
    out
}

/// The JSON text of an array of strings, as serde_json writes it.
pub uninterp spec fn json_of_strings(items: Seq<Seq<char>>) -> Seq<char>;

/// Relies on `serde_json::to_string` on a `Vec<String>`: a JSON array of the
/// strings, whose text depends on the strings alone. It fails only for a
/// failing `Serialize` impl or a map with non-string keys, neither of which a
/// `Vec<String>` has, so the result is always `Some`.
#[verifier::external_body]
fn strings_to_json(items: &Vec<String>) -> (r: Option<String>)
    ensures
        r is Some,
        r->Some_0@ == json_of_strings(items@.map_values(|s: String| s@)),
{
    serde_json::to_string(items).ok()
}

/// The entry paths of a 7z listing as a JSON array of strings.
pub fn archive_entries_json(lines: &Vec<String>) -> (r: Option<String>)
    ensures
        r is Some,
        r->Some_0@ == json_of_strings(listing_spec(lines@.map_values(|l: String| l@)).0),
{
    let entries = archive_entries(lines);
    strings_to_json(&entries)
}

} // verus!
