//! Comparison of text values.

use vstd::prelude::*;
use vstd::string::*;
use vstd::utf8::*;

verus! {

/// The characters of an optional string.
pub open spec fn optional_text(value: Option<String>) -> Option<Seq<char>> {
    match value {
        Some(text) => Some(text@),
        None => None,
    }
}

/// Two character sequences with the same UTF-8 encoding are the same
/// sequence.
pub proof fn lemma_encoding_determines_text(a: Seq<char>, b: Seq<char>)
    requires
        encode_utf8(a) == encode_utf8(b),
    ensures
        a == b,
{
    encode_utf8_decode_utf8(a);
    encode_utf8_decode_utf8(b);
}

/// Whether two string slices hold the same characters.
pub fn str_eq(a: &str, b: &str) -> (same: bool)
    ensures
        same == (a@ == b@),
{
    let x = a.as_bytes();
    let y = b.as_bytes();
    if x.len() != y.len() {
        return false;
    }
    let n = x.len();
    let mut i: usize = 0;
    while i < n
        invariant
            n == x@.len(),
            n == y@.len(),
            i <= n,
            x@ == a.spec_bytes(),
            y@ == b.spec_bytes(),
            forall|k: int| 0 <= k < i ==> x@[k] == y@[k],
        decreases n - i,
    {
        if x[i] != y[i] {
            return false;
        }
        i = i + 1;
    }
    proof {
        assert(x@ =~= y@);
        lemma_encoding_determines_text(a@, b@);
    }
    true
}

/// Where the separator first occurs in the text; the length of the text if
/// it does not occur.
pub open spec fn first_separator(s: Seq<char>, separator: char) -> int
    decreases s.len(),
{
    if s.len() == 0 || s[0] == separator {
        0
    } else {
        1 + first_separator(s.skip(1), separator)
    }
}

/// The pieces of the text between the occurrences of the separator, in
/// order. A text without separator is one piece; two separators in a row
/// have an empty piece between them.
pub open spec fn spec_split(s: Seq<char>, separator: char) -> Seq<Seq<char>>
    decreases s.len(),
{
    let i = first_separator(s, separator);
    if 0 <= i < s.len() {
        seq![s.take(i)] + spec_split(s.skip(i + 1), separator)
    } else {
        seq![s]
    }
}

/// The characters of each string, in order.
pub open spec fn texts(strings: Seq<String>) -> Seq<Seq<char>> {
    strings.map_values(|t: String| t@)
}

/// The first separator is where the text first holds it.
proof fn lemma_first_separator(s: Seq<char>, separator: char, i: int)
    requires
        0 <= i <= s.len(),
        forall|k: int| 0 <= k < i ==> s[k] != separator,
        i < s.len() ==> s[i] == separator,
    ensures
        first_separator(s, separator) == i,
    decreases i,
{
    if i > 0 {
        let rest = s.skip(1);
        assert forall|k: int| 0 <= k < i - 1 implies rest[k] != separator by {
            assert(rest[k] == s[k + 1]);
        }
        lemma_first_separator(rest, separator, i - 1);
    }
}

/// Splits a text at every occurrence of a separator.
pub fn split(text: &str, separator: char) -> (pieces: Vec<String>)
    ensures
        texts(pieces@) == spec_split(text@, separator),
{
    let n = text.unicode_len();
    let mut pieces: Vec<String> = Vec::new();
    let mut start: usize = 0;
    let mut i: usize = 0;
    proof {
        assert(text@.skip(0) =~= text@);
        assert(texts(pieces@) =~= Seq::<Seq<char>>::empty());
        assert(Seq::<Seq<char>>::empty() + spec_split(text@, separator) =~= spec_split(
            text@,
            separator,
        ));
    }
    while i < n
        invariant
            n == text@.len(),
            start <= i <= n,
            forall|k: int| start <= k < i ==> text@[k] != separator,
            texts(pieces@) + spec_split(text@.skip(start as int), separator) == spec_split(
                text@,
                separator,
            ),
        decreases n - i,
    {
        if text.get_char(i) == separator {
            let piece = text.substring_char(start, i).to_owned();
            proof {
                let rest = text@.skip(start as int);
                assert forall|k: int| 0 <= k < i - start implies rest[k] != separator by {
                    assert(rest[k] == text@[start + k]);
                }
                lemma_first_separator(rest, separator, i - start);
                assert(rest.take(i - start) =~= text@.subrange(start as int, i as int));
                assert(rest.skip(i - start + 1) =~= text@.skip(i + 1));
                assert(texts(pieces@.push(piece)) =~= texts(pieces@) + seq![piece@]);
                assert(texts(pieces@) + (seq![piece@] + spec_split(
                    text@.skip(i + 1),
                    separator,
                )) =~= texts(pieces@) + seq![piece@] + spec_split(text@.skip(i + 1), separator));
            }
            pieces.push(piece);
            start = i + 1;
        }
        i = i + 1;
    }
    let piece = text.substring_char(start, n).to_owned();
    proof {
        let rest = text@.skip(start as int);
        assert forall|k: int| 0 <= k < n - start implies rest[k] != separator by {
            assert(rest[k] == text@[start + k]);
        }
        lemma_first_separator(rest, separator, n - start);
        assert(rest =~= text@.subrange(start as int, n as int));
        assert(texts(pieces@.push(piece)) =~= texts(pieces@) + seq![piece@]);
    }
    pieces.push(piece);
    pieces
}

} // verus!
