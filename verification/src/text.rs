//! Scanning of text lines: the words that white space separates, and the
//! fields that a separator delimits.

use vstd::prelude::*;
use vstd::std_specs::iter::IteratorSpec;
use vstd::string::StringExecFns;
use vstd::string::StrSliceExecFns;

verus! {

/// The views of a sequence of strings, in order.
pub open spec fn texts(v: Seq<String>) -> Seq<Seq<char>> {
    Seq::new(v.len(), |i: int| v[i]@)
}

/// The characters of a string slice, in order.
pub fn to_chars(s: &str) -> (r: Vec<char>)
    ensures
        r@ == s@,
{
    let mut out: Vec<char> = Vec::new();
    for c in it: s.chars()
        invariant
            out@ == s@.take(it.index() as int),
            it.seq() == s@,
    {
        out.push(c);
    }
    out
}

/// Whether `c` has the Unicode property White_Space.
pub open spec fn is_space(c: char) -> bool {
    let n = c as u32;
    ||| 0x09 <= n <= 0x0d
    ||| n == 0x20
    ||| n == 0x85
    ||| n == 0xa0
    ||| n == 0x1680
    ||| 0x2000 <= n <= 0x200a
    ||| n == 0x2028
    ||| n == 0x2029
    ||| n == 0x202f
    ||| n == 0x205f
    ||| n == 0x3000
}

/// Decides `is_space`.
pub fn is_whitespace(c: char) -> (r: bool)
    ensures
        r == is_space(c),
{
    let n: u32 = c as u32;
    (0x09 <= n && n <= 0x0d) || n == 0x20 || n == 0x85 || n == 0xa0 || n == 0x1680 || (0x2000 <= n && n
        <= 0x200a) || n == 0x2028 || n == 0x2029 || n == 0x202f || n == 0x205f || n == 0x3000
}

/// The first position at or after `from` that holds no white space, or the
/// length of `s` if there is none.
pub open spec fn spaces_end(s: Seq<char>, from: int) -> int
    decreases s.len() - from,
{
    if 0 <= from < s.len() && is_space(s[from]) {
        spaces_end(s, from + 1)
    } else {
        from
    }
}

/// The first position at or after `from` that holds white space, or the
/// length of `s` if there is none.
pub open spec fn word_end(s: Seq<char>, from: int) -> int
    decreases s.len() - from,
{
    if 0 <= from < s.len() && !is_space(s[from]) {
        word_end(s, from + 1)
    } else {
        from
    }
}

/// The maximal runs of characters without white space that start at or after
/// `from`, in order.
pub open spec fn words_from(s: Seq<char>, from: int) -> Seq<Seq<char>>
    decreases s.len() - from,
    when 0 <= from
    via words_from_decreases
{
    let start = spaces_end(s, from);
    if start >= s.len() {
        Seq::empty()
    } else {
        let end = word_end(s, start);
        seq![s.subrange(start, end)] + words_from(s, end)
    }
}

#[via_fn]
proof fn words_from_decreases(s: Seq<char>, from: int) {
    if from <= s.len() {
        let start = spaces_end(s, from);
        lemma_spaces_end(s, from);
        if start < s.len() {
            lemma_word_end(s, start);
        }
    }
}

/// The words of a line: its maximal runs of characters without white space.
pub open spec fn words(s: Seq<char>) -> Seq<Seq<char>> {
    words_from(s, 0)
}

/// `spaces_end` stops inside the text, on the first character that is no
/// white space, and passes only white space.
pub proof fn lemma_spaces_end(s: Seq<char>, from: int)
    requires
        0 <= from <= s.len(),
    ensures
        from <= spaces_end(s, from) <= s.len(),
        spaces_end(s, from) < s.len() ==> !is_space(s[spaces_end(s, from)]),
        forall|i: int| from <= i < spaces_end(s, from) ==> is_space(s[i]),
    decreases s.len() - from,
{
    if from < s.len() && is_space(s[from]) {
        lemma_spaces_end(s, from + 1);
    }
}

/// `word_end` stops inside the text, on the first white space, and passes
/// only characters that are none.
pub proof fn lemma_word_end(s: Seq<char>, from: int)
    requires
        0 <= from <= s.len(),
    ensures
        from <= word_end(s, from) <= s.len(),
        from < s.len() && !is_space(s[from]) ==> from < word_end(s, from),
        word_end(s, from) < s.len() ==> is_space(s[word_end(s, from)]),
        forall|i: int| from <= i < word_end(s, from) ==> !is_space(s[i]),
    decreases s.len() - from,
{
    if from < s.len() && !is_space(s[from]) {
        lemma_word_end(s, from + 1);
    }
}

/// Splits a line into its words.
pub fn split_words(line: &str) -> (r: Vec<String>)
    ensures
        texts(r@) == words(line@),
{
    let chars = to_chars(line);
    let n = chars.len();
    let mut out: Vec<String> = Vec::new();
    let mut i: usize = 0;
    loop
        invariant
            chars@ == line@,
            n == chars.len(),
            i <= n,
            words(line@) == texts(out@) + words_from(line@, i as int),
        ensures
            texts(out@) == words(line@),
        decreases n - i,
    {
        let ghost from = i as int;
        while i < n && is_whitespace(chars[i])
            invariant
                chars@ == line@,
                n == chars.len(),
                from <= i <= n,
                spaces_end(line@, from) == spaces_end(line@, i as int),
            decreases n - i,
        {
            i += 1;
        }
        proof {
            lemma_spaces_end(line@, from);
        }
        if i >= n {
            proof {
                assert(words_from(line@, from) == Seq::<Seq<char>>::empty());
                assert(texts(out@) + Seq::<Seq<char>>::empty() =~= texts(out@));
            }
            break;
        }
        let start = i;
        while i < n && !is_whitespace(chars[i])
            invariant
                chars@ == line@,
                n == chars.len(),
                start <= i <= n,
                word_end(line@, start as int) == word_end(line@, i as int),
            decreases n - i,
        {
            i += 1;
        }
        proof {
            lemma_word_end(line@, start as int);
        }
        let word = String::from_str(line.substring_char(start, i));
        let ghost before = out@;
        out.push(word);
        proof {
            assert(words_from(line@, from) == seq![line@.subrange(start as int, i as int)]
                + words_from(line@, i as int));
            assert(texts(out@) =~= texts(before) + seq![line@.subrange(start as int, i as int)]);
            assert(texts(before) + (seq![line@.subrange(start as int, i as int)] + words_from(
                line@,
                i as int,
            )) =~= texts(out@) + words_from(line@, i as int));
        }
    }
    out
}

/// The first position at or after `from` that holds `sep`, or the length of
/// `s` if there is none.
pub open spec fn field_end(s: Seq<char>, sep: char, from: int) -> int
    decreases s.len() - from,
{
    if 0 <= from < s.len() && s[from] != sep {
        field_end(s, sep, from + 1)
    } else {
        from
    }
}

/// The pieces of `s` from `from` on that the separator `sep` delimits, in
/// order. Two separators in a row delimit an empty piece, and so does a
/// separator at the end.
pub open spec fn fields_from(s: Seq<char>, sep: char, from: int) -> Seq<Seq<char>>
    decreases s.len() - from,
    when 0 <= from <= s.len()
    via fields_from_decreases
{
    let end = field_end(s, sep, from);
    if end >= s.len() {
        seq![s.subrange(from, s.len() as int)]
    } else {
        seq![s.subrange(from, end)] + fields_from(s, sep, end + 1)
    }
}

#[via_fn]
proof fn fields_from_decreases(s: Seq<char>, sep: char, from: int) {
    lemma_field_end(s, sep, from);
}

/// The pieces of `s` that the separator `sep` delimits: at least one.
pub open spec fn fields(s: Seq<char>, sep: char) -> Seq<Seq<char>> {
    fields_from(s, sep, 0)
}

/// `field_end` stops inside the text, on the first separator, and passes
/// only characters that are none.
pub proof fn lemma_field_end(s: Seq<char>, sep: char, from: int)
    requires
        0 <= from <= s.len(),
    ensures
        from <= field_end(s, sep, from) <= s.len(),
        field_end(s, sep, from) < s.len() ==> s[field_end(s, sep, from)] == sep,
        forall|i: int| from <= i < field_end(s, sep, from) ==> s[i] != sep,
    decreases s.len() - from,
{
    if from < s.len() && s[from] != sep {
        lemma_field_end(s, sep, from + 1);
    }
}

/// Splits a token at each occurrence of `sep`.
pub fn split_fields(token: &str, sep: char) -> (r: Vec<String>)
    ensures
        texts(r@) == fields(token@, sep),
{
    let chars = to_chars(token);
    let n = chars.len();
    let mut out: Vec<String> = Vec::new();
    let mut i: usize = 0;
    loop
        invariant_except_break
            fields(token@, sep) == texts(out@) + fields_from(token@, sep, i as int),
        invariant
            chars@ == token@,
            n == chars.len(),
            i <= n,
        ensures
            texts(out@) == fields(token@, sep),
        decreases n - i,
    {
        let start = i;
        while i < n && chars[i] != sep
            invariant
                chars@ == token@,
                n == chars.len(),
                start <= i <= n,
                field_end(token@, sep, start as int) == field_end(token@, sep, i as int),
            decreases n - i,
        {
            i += 1;
        }
        proof {
            lemma_field_end(token@, sep, start as int);
        }
        let piece = String::from_str(token.substring_char(start, i));
        let ghost before = out@;
        out.push(piece);
        assert(texts(out@) =~= texts(before) + seq![token@.subrange(start as int, i as int)]);
        if i >= n {
            proof {
                assert(fields_from(token@, sep, start as int) == seq![
                    token@.subrange(start as int, i as int),
                ]);
            }
            break;
        }
        i += 1;
        proof {
            assert(fields_from(token@, sep, start as int) == seq![
                token@.subrange(start as int, i - 1),
            ] + fields_from(token@, sep, i as int));
            assert(texts(before) + (seq![token@.subrange(start as int, i - 1)] + fields_from(
                token@,
                sep,
                i as int,
            )) =~= texts(out@) + fields_from(token@, sep, i as int));
        }
    }
    out
}

/// A text has at least one field, whatever the separator.
pub proof fn lemma_fields_nonempty(s: Seq<char>, sep: char)
    ensures
        fields(s, sep).len() >= 1,
{
    lemma_field_end(s, sep, 0);
}

} // verus!
