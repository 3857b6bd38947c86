//! Quoting of object names for use inside SQL text.
//!
//! Identifiers cannot be bound as statement parameters, so every name that is
//! put into a query goes through [`escape_identifier`] first.

use vstd::prelude::*;
use crate::keywords::{is_keyword, is_keyword_text};
use crate::text::chars_of;

verus! {

/// An ASCII letter, an ASCII digit or the underscore.
pub open spec fn is_word_char(c: char) -> bool {
    ('a' <= c && c <= 'z') || ('A' <= c && c <= 'Z') || ('0' <= c && c <= '9') || c == '_'
}

/// Every character of `s` is a word character.
pub open spec fn is_word(s: Seq<char>) -> bool {
    forall|i: int| 0 <= i < s.len() ==> is_word_char(#[trigger] s[i])
}

/// A name that can stand in SQL text as it is.
pub open spec fn is_plain_identifier(s: Seq<char>) -> bool {
    is_word(s) && !is_keyword_text(s)
}

/// `s` with each double quote written twice.
pub open spec fn doubled(s: Seq<char>) -> Seq<char>
    decreases s.len(),
{
    if s.len() == 0 {
        Seq::empty()
    } else if s[0] == '"' {
        seq!['"', '"'] + doubled(s.skip(1))
    } else {
        seq![s[0]] + doubled(s.skip(1))
    }
}

/// The inverse of [`doubled`]: each pair of double quotes becomes one.
pub open spec fn undoubled(s: Seq<char>) -> Seq<char>
    decreases s.len(),
{
    if s.len() == 0 {
        Seq::empty()
    } else if s[0] == '"' && s.len() >= 2 && s[1] == '"' {
        seq!['"'] + undoubled(s.skip(2))
    } else {
        seq![s[0]] + undoubled(s.skip(1))
    }
}

/// `s` between double quotes, its own double quotes doubled.
pub open spec fn quoted(s: Seq<char>) -> Seq<char> {
    seq!['"'] + doubled(s) + seq!['"']
}

/// The form of the name `s` that is safe inside SQL text.
pub open spec fn escaped(s: Seq<char>) -> Seq<char> {
    if is_plain_identifier(s) {
        s
    } else {
        quoted(s)
    }
}

/// The name that the SQL fragment `e` denotes: what stands between the
/// delimiting double quotes, pairs of quotes read as one, or `e` itself where
/// it is not delimited.
pub open spec fn unescaped(e: Seq<char>) -> Seq<char> {
    if e.len() >= 2 && e[0] == '"' && e.last() == '"' {
        undoubled(e.subrange(1, e.len() - 1))
    } else {
        e
    }
}

/// Doubling distributes over appending one character.
pub proof fn lemma_doubled_push(s: Seq<char>, c: char)
    ensures
        doubled(s.push(c)) == doubled(s) + (if c == '"' {
            seq!['"', '"']
        } else {
            seq![c]
        }),
    decreases s.len(),
{
    if s.len() == 0 {
        assert(s.push(c).skip(1) =~= Seq::<char>::empty());
        assert(doubled(s.push(c).skip(1)) =~= Seq::<char>::empty());
        assert(doubled(s) =~= Seq::<char>::empty());
        assert(doubled(s.push(c)) =~= doubled(s) + (if c == '"' {
            seq!['"', '"']
        } else {
            seq![c]
        }));
    } else {
        lemma_doubled_push(s.skip(1), c);
        assert(s.push(c).skip(1) =~= s.skip(1).push(c));
        assert(s.push(c)[0] == s[0]);
        assert(doubled(s.push(c)) =~= doubled(s) + (if c == '"' {
            seq!['"', '"']
        } else {
            seq![c]
        }));
    }
}

/// Halving the quotes of a doubled text gives the text back.
pub proof fn lemma_undoubled_doubled(s: Seq<char>)
    ensures
        undoubled(doubled(s)) == s,
    decreases s.len(),
{
    if s.len() == 0 {
    } else {
        let rest = doubled(s.skip(1));
        lemma_undoubled_doubled(s.skip(1));
        if s[0] == '"' {
            let d = seq!['"', '"'] + rest;
            assert(d.skip(2) =~= rest);
            assert(seq!['"'] + s.skip(1) =~= s);
        } else {
            let d = seq![s[0]] + rest;
            assert(d.skip(1) =~= rest);
            assert(seq![s[0]] + s.skip(1) =~= s);
        }
    }
}

/// A plain identifier is its own escaped form.
pub proof fn lemma_plain_identifier_unchanged(s: Seq<char>)
    requires
        is_plain_identifier(s),
    ensures
        escaped(s) == s,
{
}

/// Any other name is delimited by double quotes, with its own double quotes
/// doubled in between.
pub proof fn lemma_other_name_quoted(s: Seq<char>)
    requires
        !is_plain_identifier(s),
    ensures
        escaped(s) == quoted(s),
        escaped(s).len() >= 2,
        escaped(s).first() == '"',
        escaped(s).last() == '"',
        escaped(s).subrange(1, escaped(s).len() - 1) == doubled(s),
{
    let q = quoted(s);
    assert(q.subrange(1, q.len() - 1) =~= doubled(s));
}

/// Unescaping the escaped form of a name gives the name back, whatever
/// characters it holds.
pub proof fn lemma_escape_round_trip(s: Seq<char>)
    ensures
        unescaped(escaped(s)) == s,
{
    if is_plain_identifier(s) {
        if s.len() >= 2 {
            assert(is_word_char(s[0]));
        }
    } else {
        lemma_other_name_quoted(s);
        lemma_undoubled_doubled(s);
    }
}

fn is_word_character(c: char) -> (r: bool)
    ensures
        r == is_word_char(c),
{
    ('a' <= c && c <= 'z') || ('A' <= c && c <= 'Z') || ('0' <= c && c <= '9') || c == '_'
}

fn all_word_characters(chars: &Vec<char>) -> (r: bool)
    ensures
        r == is_word(chars@),
{
    let mut i: usize = 0;
    while i < chars.len()
        invariant
            i <= chars.len(),
            forall|j: int| 0 <= j < i ==> is_word_char(#[trigger] chars@[j]),
        decreases chars.len() - i,
    {
        if !is_word_character(chars[i]) {
            return false;
        }
        i = i + 1;
    }
    true
}

/// Returns `name` unchanged where it is made of ASCII letters, digits and
/// underscores only and is no reserved word; otherwise returns it between
/// double quotes, each double quote inside it doubled.
pub fn escape_identifier(name: &str) -> (r: String)
    ensures
        r@ == escaped(name@),
        is_plain_identifier(name@) ==> r@ == name@,
        !is_plain_identifier(name@) ==> r@ == quoted(name@),
        unescaped(r@) == name@,
{
    proof {
        lemma_escape_round_trip(name@);
    }
    let chars = chars_of(name);
    if all_word_characters(&chars) && !is_keyword(name) {
        return name.to_owned();
    }
    let mut out = String::new();
    out.push('"');
    let mut i: usize = 0;
    while i < chars.len()
        invariant
            i <= chars.len(),
            chars@ == name@,
            out@ == seq!['"'] + doubled(name@.take(i as int)),
        decreases chars.len() - i,
    {
        let c = chars[i];
        proof {
            lemma_doubled_push(name@.take(i as int), c);
            assert(name@.take(i as int).push(c) =~= name@.take(i + 1));
        }
        if c == '"' {
            out.push('"');
            out.push('"');
        } else {
            out.push(c);
        }
        i = i + 1;
        assert(out@ =~= seq!['"'] + doubled(name@.take(i as int)));
    }
    assert(name@.take(i as int) =~= name@);
    out.push('"');
    assert(out@ =~= quoted(name@));
    out
}

} // verus!
