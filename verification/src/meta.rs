//! The list grammar shared by field-level and type-level annotations.
//!
//! An annotation's arguments are a comma-separated list of entries, with an
//! optional trailing comma. An entry is one of
//!
//! * a bare key: `getter`
//! * a key with a string value: `default = "Vec::new()"`
//! * a key with a parenthesized list of its own: `name(getter, setter)`
//!
//! Anything else makes the whole list malformed.

use vstd::prelude::*;
use crate::token::{Delimiter, Token};

verus! {

/// One entry of an annotation list, as a mathematical value.
pub enum Meta {
    /// A bare key.
    Path(Seq<char>),
    /// A key and the text of its string value.
    NameValue(Seq<char>, Seq<char>),
    /// A key and the tokens between its parentheses.
    List(Seq<char>, Seq<Token>),
}

/// One entry of an annotation list, borrowed from the tokens it was read from.
pub enum MetaRef<'a> {
    /// A bare key.
    Path(&'a String),
    /// A key and the text of its string value.
    NameValue(&'a String, &'a String),
    /// A key and the tokens between its parentheses.
    List(&'a String, &'a Vec<Token>),
}

impl<'a> View for MetaRef<'a> {
    type V = Meta;

    open spec fn view(&self) -> Meta {
        match *self {
            MetaRef::Path(key) => Meta::Path(key@),
            MetaRef::NameValue(key, value) => Meta::NameValue(key@, value@),
            MetaRef::List(key, inner) => Meta::List(key@, inner@),
        }
    }
}

/// The entries behind a sequence of borrowed entries.
pub open spec fn meta_views(items: Seq<MetaRef<'_>>) -> Seq<Meta> {
    Seq::new(items.len(), |i: int| items[i]@)
}

/// The entry that starts at position `i`, and the position just behind it.
///
/// `None` where no entry starts at `i`: the token there is no identifier, or
/// an `=` is not followed by a string literal.
pub open spec fn meta_at(toks: Seq<Token>, i: int) -> Option<(Meta, int)> {
    if 0 <= i < toks.len() && toks[i] is Ident {
        let key = toks[i]->Ident_0@;
        if i + 1 < toks.len() && toks[i + 1].is_punct('=') {
            if i + 2 < toks.len() && toks[i + 2] is Str {
                Some((Meta::NameValue(key, toks[i + 2]->Str_0@), i + 3))
            } else {
                None
            }
        } else if i + 1 < toks.len() && toks[i + 1] is Group && toks[i + 1]->Group_0
            == Delimiter::Parenthesis {
            Some((Meta::List(key, toks[i + 1]->Group_1@), i + 2))
        } else {
            Some((Meta::Path(key), i + 1))
        }
    } else {
        None
    }
}

/// The entries of the list that starts at position `i` and runs to the end of
/// `toks`; `None` where the tokens from `i` on are no well-formed list.
pub open spec fn metas_from(toks: Seq<Token>, i: int) -> Option<Seq<Meta>>
    decreases toks.len() - i,
{
    if i < 0 || i >= toks.len() {
        Some(Seq::empty())
    } else {
        match meta_at(toks, i) {
            None => None,
            Some((entry, next)) => {
                if next >= toks.len() {
                    Some(seq![entry])
                } else if next > i && toks[next].is_punct(',') {
                    match metas_from(toks, next + 1) {
                        Some(rest) => Some(seq![entry] + rest),
                        None => None,
                    }
                } else {
                    None
                }
            },
        }
    }
}

/// The entries of a whole argument list.
pub open spec fn metas_of(toks: Seq<Token>) -> Option<Seq<Meta>> {
    metas_from(toks, 0)
}

/// Reads the entry that starts at position `i`.
pub fn read_meta<'a>(toks: &'a Vec<Token>, i: usize) -> (found: Option<(MetaRef<'a>, usize)>)
    ensures
        match found {
            Some((entry, next)) => meta_at(toks@, i as int) == Some((entry@, next as int)),
            None => meta_at(toks@, i as int) is None,
        },
{
    let n = toks.len();
    if i >= n {
        return None;
    }
    match &toks[i] {
        Token::Ident(key) => {
            if n - i >= 2 && toks[i + 1].punct_is('=') {
                if n - i >= 3 {
                    match &toks[i + 2] {
                        Token::Str(value) => Some((MetaRef::NameValue(key, value), i + 3)),
                        _ => None,
                    }
                } else {
                    None
                }
            } else if n - i >= 2 {
                match &toks[i + 1] {
                    Token::Group(Delimiter::Parenthesis, inner) => Some(
                        (MetaRef::List(key, inner), i + 2),
                    ),
                    _ => Some((MetaRef::Path(key), i + 1)),
                }
            } else {
                Some((MetaRef::Path(key), i + 1))
            }
        },
        _ => None,
    }
}

/// Reads a whole argument list into its entries.
///
/// Succeeds exactly on the well-formed lists, and then returns the entries in
/// the order in which they were written.
pub fn parse_meta_list<'a>(toks: &'a Vec<Token>) -> (parsed: Option<Vec<MetaRef<'a>>>)
    ensures
        match parsed {
            Some(items) => metas_of(toks@) == Some(meta_views(items@)),
            None => metas_of(toks@) is None,
        },
{
    let n = toks.len();
    let mut items: Vec<MetaRef<'a>> = Vec::new();
    let mut i: usize = 0;
    while i < n
        invariant
            n == toks@.len(),
            i <= n,
            match metas_from(toks@, i as int) {
                Some(rest) => metas_of(toks@) == Some(meta_views(items@) + rest),
                None => metas_of(toks@) is None,
            },
        decreases n - i,
    {
        match read_meta(toks, i) {
            None => {
                return None;
            },
            Some((entry, next)) => {
                items.push(entry);
                if next >= n {
                    i = n;
                } else if toks[next].punct_is(',') {
                    i = next + 1;
                } else {
                    return None;
                }
            },
        }
    }
    Some(items)
}

/// Whether `part` spells the single entry `entry`: a bare key is one
/// identifier, a key with a value is the key, `=` and a string literal, and a
/// key with a list is the key and a parenthesized group.
pub open spec fn spells(part: Seq<Token>, entry: Meta) -> bool {
    match entry {
        Meta::Path(key) => part.len() == 1 && part[0].is_ident(key),
        Meta::NameValue(key, value) => {
            &&& part.len() == 3
            &&& part[0].is_ident(key)
            &&& part[1].is_punct('=')
            &&& part[2] is Str
            &&& part[2]->Str_0@ == value
        },
        Meta::List(key, inner) => {
            &&& part.len() == 2
            &&& part[0].is_ident(key)
            &&& part[1] is Group
            &&& part[1]->Group_0 == Delimiter::Parenthesis
            &&& part[1]->Group_1@ == inner
        },
    }
}

/// The parts in order, with a comma between neighbours.
pub open spec fn comma_separated(parts: Seq<Seq<Token>>) -> Seq<Token>
    decreases parts.len(),
{
    if parts.len() == 0 {
        Seq::empty()
    } else if parts.len() == 1 {
        parts[0]
    } else {
        parts[0] + seq![Token::Punct(',')] + comma_separated(parts.drop_first())
    }
}

/// The parts in order, with a comma between neighbours and, if asked for and
/// there is any part at all, one more behind the last.
pub open spec fn written(parts: Seq<Seq<Token>>, trailing_comma: bool) -> Seq<Token> {
    if trailing_comma && parts.len() > 0 {
        comma_separated(parts) + seq![Token::Punct(',')]
    } else {
        comma_separated(parts)
    }
}

/// An entry that is spelled out at position `i`, and followed by a comma or
/// by nothing, is the entry read there.
proof fn lemma_spelled_entry_is_read(toks: Seq<Token>, i: int, part: Seq<Token>, entry: Meta)
    requires
        0 <= i,
        i + part.len() <= toks.len(),
        toks.subrange(i, i + part.len()) == part,
        spells(part, entry),
        i + part.len() == toks.len() || toks[i + part.len()].is_punct(','),
    ensures
        meta_at(toks, i) == Some((entry, i + part.len())),
{
}

/// What is written behind position `i` is read back from there.
proof fn lemma_written_is_read_from(
    toks: Seq<Token>,
    i: int,
    parts: Seq<Seq<Token>>,
    entries: Seq<Meta>,
    trailing_comma: bool,
)
    requires
        0 <= i <= toks.len(),
        toks.subrange(i, toks.len() as int) == written(parts, trailing_comma),
        parts.len() == entries.len(),
        forall|k: int| 0 <= k < parts.len() ==> spells(#[trigger] parts[k], entries[k]),
    ensures
        metas_from(toks, i) == Some(entries),
    decreases parts.len(),
{
    let rest = toks.subrange(i, toks.len() as int);
    let comma = Token::Punct(',');
    if parts.len() == 0 {
        assert(rest.len() == 0);
        assert(entries =~= Seq::<Meta>::empty());
    } else {
        let part = parts[0];
        let next = i + part.len();
        assert(spells(part, entries[0]));
        if parts.len() == 1 {
            assert(comma_separated(parts) == part);
            if trailing_comma {
                assert(rest == part + seq![comma]);
                assert(rest.len() == part.len() + 1);
                assert(toks.subrange(i, next) =~= part) by {
                    assert forall|k: int| 0 <= k < part.len() implies toks[i + k] == part[k] by {
                        assert(rest[k] == part[k]);
                    }
                }
                assert(toks[next] == rest[part.len() as int]);
                lemma_spelled_entry_is_read(toks, i, part, entries[0]);
                assert(metas_from(toks, next + 1) == Some(Seq::<Meta>::empty()));
                assert(seq![entries[0]] + Seq::<Meta>::empty() =~= entries);
            } else {
                assert(rest.len() == part.len());
                assert(toks.subrange(i, next) =~= part);
                lemma_spelled_entry_is_read(toks, i, part, entries[0]);
                assert(seq![entries[0]] =~= entries);
            }
        } else {
            let tail = written(parts.drop_first(), trailing_comma);
            assert(comma_separated(parts) == part + seq![comma] + comma_separated(
                parts.drop_first(),
            ));
            assert(rest =~= part + seq![comma] + tail);
            assert(toks.subrange(i, next) =~= part) by {
                assert forall|k: int| 0 <= k < part.len() implies toks[i + k] == part[k] by {
                    assert(rest[k] == part[k]);
                }
            }
            assert(toks[next] == rest[part.len() as int]);
            lemma_spelled_entry_is_read(toks, i, part, entries[0]);
            assert(toks.subrange(next + 1, toks.len() as int) =~= tail) by {
                assert forall|k: int| 0 <= k < tail.len() implies toks[next + 1 + k] == tail[k] by {
                    assert(rest[part.len() + 1 + k] == tail[k]);
                }
            }
            assert forall|k: int| 0 <= k < parts.drop_first().len() implies spells(
                #[trigger] parts.drop_first()[k],
                entries.drop_first()[k],
            ) by {
                assert(spells(parts[k + 1], entries[k + 1]));
            }
            lemma_written_is_read_from(
                toks,
                next + 1,
                parts.drop_first(),
                entries.drop_first(),
                trailing_comma,
            );
            assert(seq![entries[0]] + entries.drop_first() =~= entries);
        }
    }
}

/// Every list that is written as the grammar says is well-formed, and is
/// read as the entries that were written: the parts in order, commas between
/// them, with or without a comma at the end.
pub proof fn lemma_written_list_is_read_back(
    parts: Seq<Seq<Token>>,
    entries: Seq<Meta>,
    trailing_comma: bool,
)
    requires
        parts.len() == entries.len(),
        forall|k: int| 0 <= k < parts.len() ==> spells(#[trigger] parts[k], entries[k]),
    ensures
        metas_of(written(parts, trailing_comma)) == Some(entries),
{
    let toks = written(parts, trailing_comma);
    assert(toks.subrange(0, toks.len() as int) =~= toks);
    lemma_written_is_read_from(toks, 0, parts, entries, trailing_comma);
}

/// The parts that the list behind position `i` is made of, one for each
/// entry read there.
pub open spec fn parts_from(toks: Seq<Token>, i: int) -> Seq<Seq<Token>>
    decreases toks.len() - i,
{
    if i < 0 || i >= toks.len() {
        Seq::empty()
    } else {
        match meta_at(toks, i) {
            None => Seq::empty(),
            Some((_, next)) => {
                if next >= toks.len() {
                    seq![toks.subrange(i, next)]
                } else if next > i && toks[next].is_punct(',') {
                    seq![toks.subrange(i, next)] + parts_from(toks, next + 1)
                } else {
                    Seq::empty()
                }
            },
        }
    }
}

/// Whether the tokens behind position `i` end in a comma.
pub open spec fn ends_in_comma(toks: Seq<Token>, i: int) -> bool {
    i < toks.len() && toks.last().is_punct(',')
}

/// What is read behind position `i` was written there.
proof fn lemma_read_was_written_from(toks: Seq<Token>, i: int, entries: Seq<Meta>)
    requires
        0 <= i <= toks.len(),
        metas_from(toks, i) == Some(entries),
    ensures
        parts_from(toks, i).len() == entries.len(),
        forall|k: int|
            0 <= k < entries.len() ==> spells(#[trigger] parts_from(toks, i)[k], entries[k]),
        toks.subrange(i, toks.len() as int) == written(
            parts_from(toks, i),
            ends_in_comma(toks, i),
        ),
    decreases toks.len() - i,
{
    let len = toks.len() as int;
    let comma = Token::Punct(',');
    let parts = parts_from(toks, i);
    if i == len {
        assert(toks.subrange(i, len) =~= Seq::<Token>::empty());
    } else {
        let (entry, next) = meta_at(toks, i)->Some_0;
        let part = toks.subrange(i, next);
        assert(spells(part, entry));
        assert(!part.last().is_punct(','));
        if next >= len {
            assert(entries == seq![entry]);
            assert(toks.last() == part.last());
            assert(comma_separated(parts) == part);
        } else {
            let rest = metas_from(toks, next + 1)->Some_0;
            let tail = parts_from(toks, next + 1);
            assert(entries == seq![entry] + rest);
            lemma_read_was_written_from(toks, next + 1, rest);
            assert(parts == seq![part] + tail);
            assert forall|k: int| 0 <= k < entries.len() implies spells(
                #[trigger] parts[k],
                entries[k],
            ) by {
                if k > 0 {
                    assert(parts[k] == tail[k - 1]);
                    assert(entries[k] == rest[k - 1]);
                }
            }
            if next + 1 == len {
                assert(tail =~= Seq::<Seq<Token>>::empty());
                assert(parts =~= seq![part]);
                assert(comma_separated(parts) == part);
                assert(toks.subrange(i, len) =~= part + seq![comma]);
            } else {
                assert(tail.len() > 0) by {
                    assert(meta_at(toks, next + 1) is Some);
                }
                assert(parts.drop_first() =~= tail);
                assert(comma_separated(parts) == part + seq![comma] + comma_separated(tail));
                assert(toks.subrange(i, len) =~= part + seq![comma] + toks.subrange(
                    next + 1,
                    len,
                ));
                assert(written(parts, ends_in_comma(toks, i)) =~= part + seq![comma] + written(
                    tail,
                    ends_in_comma(toks, next + 1),
                ));
            }
        }
    }
}

/// Only what is written as the grammar says is read as a list: well-formed
/// tokens are their entries' parts in order, commas between them, with or
/// without a comma at the end.
pub proof fn lemma_read_list_was_written(toks: Seq<Token>)
    requires
        metas_of(toks) is Some,
    ensures
        parts_from(toks, 0).len() == metas_of(toks)->Some_0.len(),
        forall|k: int|
            0 <= k < parts_from(toks, 0).len() ==> spells(
                #[trigger] parts_from(toks, 0)[k],
                metas_of(toks)->Some_0[k],
            ),
        toks == written(parts_from(toks, 0), ends_in_comma(toks, 0)),
{
    lemma_read_was_written_from(toks, 0, metas_of(toks)->Some_0);
}

} // verus!
