//! Placeholder resolution: rewriting a template string by substituting
//! `{name}` tokens from the metadata record and the filename.
//!
//! The recognized tokens form a closed set. Every occurrence of a recognized
//! token is replaced — by its formatted value when the source entry is
//! present, by the empty string otherwise — in a single left-to-right pass,
//! so braces inside substituted values are data, never new tokens.
//! Unrecognized `{...}` text is left intact.

use vstd::prelude::*;
use vstd::string::StrSliceExecFns;

use crate::metadata::{
    aperture_value, artist_value, date_time_value, focal_length_value, iso_value,
    lens_model_value, make_value, model_value, shutter_value, ImageMetadata,
};
use crate::numfmt::push_all;

verus! {

/// The recognized placeholders.
#[derive(Debug, Clone, Copy, PartialEq, Eq, Structural)]
pub enum TokenKind {
    CameraMake,
    CameraModel,
    LensModel,
    Aperture,
    ShutterSpeed,
    Iso,
    FocalLength,
    DateTime,
    Photographer,
    Filename,
}

/// The literal text of each recognized token.
pub open spec fn token_text(k: TokenKind) -> Seq<char> {
    match k {
        TokenKind::CameraMake => seq![
            '{', 'c', 'a', 'm', 'e', 'r', 'a', '_', 'm', 'a', 'k', 'e', '}',
        ],
        TokenKind::CameraModel => seq![
            '{', 'c', 'a', 'm', 'e', 'r', 'a', '_', 'm', 'o', 'd', 'e', 'l', '}',
        ],
        TokenKind::LensModel => seq!['{', 'l', 'e', 'n', 's', '_', 'm', 'o', 'd', 'e', 'l', '}'],
        TokenKind::Aperture => seq!['{', 'a', 'p', 'e', 'r', 't', 'u', 'r', 'e', '}'],
        TokenKind::ShutterSpeed => seq![
            '{', 's', 'h', 'u', 't', 't', 'e', 'r', '_', 's', 'p', 'e', 'e', 'd', '}',
        ],
        TokenKind::Iso => seq!['{', 'i', 's', 'o', '}'],
        TokenKind::FocalLength => seq![
            '{', 'f', 'o', 'c', 'a', 'l', '_', 'l', 'e', 'n', 'g', 't', 'h', '}',
        ],
        TokenKind::DateTime => seq!['{', 'd', 'a', 't', 'e', '_', 't', 'i', 'm', 'e', '}'],
        TokenKind::Photographer => seq![
            '{', 'p', 'h', 'o', 't', 'o', 'g', 'r', 'a', 'p', 'h', 'e', 'r', '}',
        ],
        TokenKind::Filename => seq!['{', 'f', 'i', 'l', 'e', 'n', 'a', 'm', 'e', '}'],
    }
}

/// What a recognized token resolves to under metadata `m` and filename `f`.
pub open spec fn token_value(k: TokenKind, m: ImageMetadata, f: Seq<char>) -> Seq<char> {
    match k {
        TokenKind::CameraMake => make_value(m),
        TokenKind::CameraModel => model_value(m),
        TokenKind::LensModel => lens_model_value(m),
        TokenKind::Aperture => aperture_value(m),
        TokenKind::ShutterSpeed => shutter_value(m),
        TokenKind::Iso => iso_value(m),
        TokenKind::FocalLength => focal_length_value(m),
        TokenKind::DateTime => date_time_value(m),
        TokenKind::Photographer => artist_value(m),
        TokenKind::Filename => f,
    }
}

/// `s` begins with `p`.
pub open spec fn starts_with(s: Seq<char>, p: Seq<char>) -> bool {
    p.len() <= s.len() && (forall|j: int| 0 <= j < p.len() ==> s[j] == p[j])
}

/// The recognized token that `s` begins with, if any. The token set is
/// prefix-free, so at most one token can match.
pub open spec fn match_token_at(s: Seq<char>) -> Option<TokenKind> {
    if starts_with(s, token_text(TokenKind::CameraMake)) {
        Some(TokenKind::CameraMake)
    } else if starts_with(s, token_text(TokenKind::CameraModel)) {
        Some(TokenKind::CameraModel)
    } else if starts_with(s, token_text(TokenKind::LensModel)) {
        Some(TokenKind::LensModel)
    } else if starts_with(s, token_text(TokenKind::Aperture)) {
        Some(TokenKind::Aperture)
    } else if starts_with(s, token_text(TokenKind::ShutterSpeed)) {
        Some(TokenKind::ShutterSpeed)
    } else if starts_with(s, token_text(TokenKind::Iso)) {
        Some(TokenKind::Iso)
    } else if starts_with(s, token_text(TokenKind::FocalLength)) {
        Some(TokenKind::FocalLength)
    } else if starts_with(s, token_text(TokenKind::DateTime)) {
        Some(TokenKind::DateTime)
    } else if starts_with(s, token_text(TokenKind::Photographer)) {
        Some(TokenKind::Photographer)
    } else if starts_with(s, token_text(TokenKind::Filename)) {
        Some(TokenKind::Filename)
    } else {
        None
    }
}

/// The resolved form of template `t`: a single left-to-right pass in which
/// each recognized token is replaced by its value and every other character
/// is kept.
pub open spec fn resolve_spec(t: Seq<char>, m: ImageMetadata, f: Seq<char>) -> Seq<char>
    decreases t.len(),
{
    if t.len() == 0 {
        Seq::empty()
    } else {
        match match_token_at(t) {
            Some(k) => token_value(k, m, f) + resolve_spec(
                t.skip(token_text(k).len() as int),
                m,
                f,
            ),
            None => seq![t[0]] + resolve_spec(t.skip(1), m, f),
        }
    }
}

/// The characters of `s`, in order.
pub fn str_to_chars(s: &str) -> (v: Vec<char>)
    ensures
        v@ == s@,
{
    let n = s.unicode_len();
    let mut v: Vec<char> = Vec::new();
    let mut i: usize = 0;
    while i < n
        invariant
            n == s@.len(),
            i <= n,
            v@ =~= s@.take(i as int),
        decreases n - i,
    {
        v.push(s.get_char(i));
        i = i + 1;
    }
    assert(v@ =~= s@);
    v
}

/// The token's text as runtime characters.
fn token_chars(k: TokenKind) -> (v: Vec<char>)
    ensures
        v@ == token_text(k),
{
    match k {
        TokenKind::CameraMake => {
            let v = vec!['{', 'c', 'a', 'm', 'e', 'r', 'a', '_', 'm', 'a', 'k', 'e', '}'];
            assert(v@ =~= token_text(k));
            v
        },
        TokenKind::CameraModel => {
            let v = vec!['{', 'c', 'a', 'm', 'e', 'r', 'a', '_', 'm', 'o', 'd', 'e', 'l', '}'];
            assert(v@ =~= token_text(k));
            v
        },
        TokenKind::LensModel => {
            let v = vec!['{', 'l', 'e', 'n', 's', '_', 'm', 'o', 'd', 'e', 'l', '}'];
            assert(v@ =~= token_text(k));
            v
        },
        TokenKind::Aperture => {
            let v = vec!['{', 'a', 'p', 'e', 'r', 't', 'u', 'r', 'e', '}'];
            assert(v@ =~= token_text(k));
            v
        },
        TokenKind::ShutterSpeed => {
            let v = vec!['{', 's', 'h', 'u', 't', 't', 'e', 'r', '_', 's', 'p', 'e', 'e', 'd', '}'];
            assert(v@ =~= token_text(k));
            v
        },
        TokenKind::Iso => {
            let v = vec!['{', 'i', 's', 'o', '}'];
            assert(v@ =~= token_text(k));
            v
        },
        TokenKind::FocalLength => {
            let v = vec!['{', 'f', 'o', 'c', 'a', 'l', '_', 'l', 'e', 'n', 'g', 't', 'h', '}'];
            assert(v@ =~= token_text(k));
            v
        },
        TokenKind::DateTime => {
            let v = vec!['{', 'd', 'a', 't', 'e', '_', 't', 'i', 'm', 'e', '}'];
            assert(v@ =~= token_text(k));
            v
        },
        TokenKind::Photographer => {
            let v = vec!['{', 'p', 'h', 'o', 't', 'o', 'g', 'r', 'a', 'p', 'h', 'e', 'r', '}'];
            assert(v@ =~= token_text(k));
            v
        },
        TokenKind::Filename => {
            let v = vec!['{', 'f', 'i', 'l', 'e', 'n', 'a', 'm', 'e', '}'];
            assert(v@ =~= token_text(k));
            v
        },
    }
}

/// Whether token `k` occurs in `t` starting at position `i`.
fn matches_kind(t: &Vec<char>, i: usize, k: TokenKind) -> (r: bool)
    requires
        i <= t@.len(),
    ensures
        r == starts_with(t@.skip(i as int), token_text(k)),
{
    let pat = token_chars(k);
    if t.len() - i < pat.len() {
        return false;
    }
    let mut j: usize = 0;
    while j < pat.len()
        invariant
            i + pat@.len() <= t@.len(),
            t@.len() <= usize::MAX,
            j <= pat@.len(),
            pat@ == token_text(k),
            forall|q: int| 0 <= q < j ==> t@[i + q] == pat@[q],
        decreases pat.len() - j,
    {
        if t[i + j] != pat[j] {
            assert(t@.skip(i as int)[j as int] == t@[i + j]);
            return false;
        }
        j = j + 1;
    }
    assert forall|q: int| 0 <= q < pat@.len() implies t@.skip(i as int)[q] == pat@[q] by {
        assert(t@.skip(i as int)[q] == t@[i + q]);
    }
    true
}

/// The recognized token occurring in `t` at position `i`, if any.
fn find_token_at(t: &Vec<char>, i: usize) -> (r: Option<TokenKind>)
    requires
        i <= t@.len(),
    ensures
        r == match_token_at(t@.skip(i as int)),
{
    if matches_kind(t, i, TokenKind::CameraMake) {
        Some(TokenKind::CameraMake)
    } else if matches_kind(t, i, TokenKind::CameraModel) {
        Some(TokenKind::CameraModel)
    } else if matches_kind(t, i, TokenKind::LensModel) {
        Some(TokenKind::LensModel)
    } else if matches_kind(t, i, TokenKind::Aperture) {
        Some(TokenKind::Aperture)
    } else if matches_kind(t, i, TokenKind::ShutterSpeed) {
        Some(TokenKind::ShutterSpeed)
    } else if matches_kind(t, i, TokenKind::Iso) {
        Some(TokenKind::Iso)
    } else if matches_kind(t, i, TokenKind::FocalLength) {
        Some(TokenKind::FocalLength)
    } else if matches_kind(t, i, TokenKind::DateTime) {
        Some(TokenKind::DateTime)
    } else if matches_kind(t, i, TokenKind::Photographer) {
        Some(TokenKind::Photographer)
    } else if matches_kind(t, i, TokenKind::Filename) {
        Some(TokenKind::Filename)
    } else {
        None
    }
}

/// The verbatim characters of an optional string entry.
fn opt_string_chars(v: &Option<String>) -> (r: Vec<char>)
    ensures
        r@ == crate::metadata::verbatim_value(*v),
{
    match v {
        Some(s) => str_to_chars(s.as_str()),
        None => Vec::new(),
    }
}

/// The value that token `k` substitutes, as runtime characters.
fn value_chars(k: TokenKind, m: &ImageMetadata, f: &Vec<char>) -> (v: Vec<char>)
    ensures
        v@ == token_value(k, *m, f@),
{
    match k {
        TokenKind::Filename => {
            let mut v: Vec<char> = Vec::new();
            push_all(&mut v, f);
            v
        },
        TokenKind::CameraMake => match &m.exif {
            Some(e) => opt_string_chars(&e.make),
            None => Vec::new(),
        },
        TokenKind::CameraModel => match &m.exif {
            Some(e) => opt_string_chars(&e.model),
            None => Vec::new(),
        },
        TokenKind::LensModel => match &m.exif {
            Some(e) => opt_string_chars(&e.lens_model),
            None => Vec::new(),
        },
        TokenKind::DateTime => match &m.exif {
            Some(e) => opt_string_chars(&e.date_time),
            None => Vec::new(),
        },
        TokenKind::Photographer => match &m.exif {
            Some(e) => opt_string_chars(&e.artist),
            None => Vec::new(),
        },
        TokenKind::Aperture => match &m.exif {
            Some(e) => match e.f_number_micro {
                Some(n) => crate::numfmt::tenths_chars(n),
                None => Vec::new(),
            },
            None => Vec::new(),
        },
        TokenKind::ShutterSpeed => match &m.exif {
            Some(e) => match e.exposure_time_micro {
                Some(n) => crate::numfmt::shutter_chars(n),
                None => Vec::new(),
            },
            None => Vec::new(),
        },
        TokenKind::Iso => match &m.exif {
            Some(e) => match e.iso {
                Some(n) => crate::numfmt::dec_chars(n),
                None => Vec::new(),
            },
            None => Vec::new(),
        },
        TokenKind::FocalLength => match &m.exif {
            Some(e) => match e.focal_length_micro {
                Some(n) => crate::numfmt::unit_chars(n),
                None => Vec::new(),
            },
            None => Vec::new(),
        },
    }
}

/// The number of characters in token `k`.
fn token_len(k: TokenKind) -> (n: usize)
    ensures
        n == token_text(k).len(),
{
    let v = token_chars(k);
    v.len()
}

/// Turns accumulated characters back into a `String`.
///
/// Relies on `String`'s `FromIterator<char>` impl: collecting characters
/// yields the string consisting of exactly those characters in order.
#[verifier::external_body]
fn chars_to_string(v: &Vec<char>) -> (s: String)
    ensures
        s@ == v@,
{
    v.iter().collect()
}

/// Rewrites `text`, substituting every recognized `{name}` token from
/// `metadata` and `filename`; an absent source contributes the empty string,
/// and unrecognized tokens are kept as they are.
pub fn replace_metadata_placeholders(text: &str, metadata: &ImageMetadata, filename: &str) -> (r:
    String)
    ensures
        r@ == resolve_spec(text@, *metadata, filename@),
{
    let t = str_to_chars(text);
    let f = str_to_chars(filename);
    let mut out: Vec<char> = Vec::new();
    let mut i: usize = 0;
    proof {
        assert(t@.skip(0) =~= t@);
        assert(out@ + resolve_spec(t@, *metadata, f@) =~= resolve_spec(text@, *metadata, filename@));
    }
    while i < t.len()
        invariant
            t@ == text@,
            f@ == filename@,
            i <= t@.len(),
            resolve_spec(text@, *metadata, filename@) == out@ + resolve_spec(
                t@.skip(i as int),
                *metadata,
                f@,
            ),
        decreases t@.len() - i,
    {
        let ghost pre = t@.skip(i as int);
        let ghost out0 = out@;
        match find_token_at(&t, i) {
            Some(k) => {
                let val = value_chars(k, metadata, &f);
                push_all(&mut out, &val);
                let step = token_len(k);
                i = i + step;
                proof {
                    assert(pre.skip(step as int) =~= t@.skip(i as int));
                    assert(resolve_spec(pre, *metadata, f@) == token_value(k, *metadata, f@)
                        + resolve_spec(t@.skip(i as int), *metadata, f@));
                    assert(out@ + resolve_spec(t@.skip(i as int), *metadata, f@) =~= out0
                        + resolve_spec(pre, *metadata, f@));
                }
            },
            None => {
                out.push(t[i]);
                i = i + 1;
                proof {
                    assert(pre.skip(1) =~= t@.skip(i as int));
                    assert(resolve_spec(pre, *metadata, f@) == seq![pre[0]] + resolve_spec(
                        t@.skip(i as int),
                        *metadata,
                        f@,
                    ));
                    assert(out@ + resolve_spec(t@.skip(i as int), *metadata, f@) =~= out0
                        + resolve_spec(pre, *metadata, f@));
                }
            },
        }
    }
    assert(t@.skip(i as int) =~= Seq::<char>::empty());
    assert(resolve_spec(text@, *metadata, filename@) =~= out@);
    chars_to_string(&out)
}

/// Every recognized token is at least five characters and opens with `{`.
pub proof fn lemma_token_text_first(k: TokenKind)
    ensures
        token_text(k).len() >= 5,
        token_text(k)[0] == '{',
{
    match k {
        TokenKind::CameraMake => assert(token_text(k)[0] == '{'),
        TokenKind::CameraModel => assert(token_text(k)[0] == '{'),
        TokenKind::LensModel => assert(token_text(k)[0] == '{'),
        TokenKind::Aperture => assert(token_text(k)[0] == '{'),
        TokenKind::ShutterSpeed => assert(token_text(k)[0] == '{'),
        TokenKind::Iso => assert(token_text(k)[0] == '{'),
        TokenKind::FocalLength => assert(token_text(k)[0] == '{'),
        TokenKind::DateTime => assert(token_text(k)[0] == '{'),
        TokenKind::Photographer => assert(token_text(k)[0] == '{'),
        TokenKind::Filename => assert(token_text(k)[0] == '{'),
    }
}

/// Law: a template with no `{` character — in particular, one of literal
/// text only — resolves to itself, whatever the metadata and filename.
pub proof fn lemma_resolve_literal(t: Seq<char>, m: ImageMetadata, f: Seq<char>)
    requires
        forall|i: int| 0 <= i < t.len() ==> t[i] != '{',
    ensures
        resolve_spec(t, m, f) == t,
    decreases t.len(),
{
    if t.len() == 0 {
        assert(resolve_spec(t, m, f) =~= t);
    } else {
        assert forall|k: TokenKind| !starts_with(t, token_text(k)) by {
            lemma_token_text_first(k);
            if starts_with(t, token_text(k)) {
                assert(t[0] == token_text(k)[0]);
            }
        }
        assert(match_token_at(t) is None);
        lemma_resolve_literal(t.skip(1), m, f);
        assert(resolve_spec(t, m, f) =~= t);
    }
}

/// The resolved text contains no `{` when every `{` in the template opens a
/// recognized token and no substituted value contains a `{`.
#[verifier::rlimit(60)]
proof fn lemma_resolve_no_brace(t: Seq<char>, m: ImageMetadata, f: Seq<char>)
    requires
        forall|i: int| 0 <= i < t.len() && #[trigger] t[i] == '{' ==> match_token_at(t.skip(i))
            is Some,
        forall|k: TokenKind, j: int|
            0 <= j < token_value(k, m, f).len() ==> #[trigger] token_value(k, m, f)[j] != '{',
    ensures
        forall|j: int| 0 <= j < resolve_spec(t, m, f).len() ==> resolve_spec(t, m, f)[j] != '{',
    decreases t.len(),
{
    if t.len() == 0 {
    } else {
        match match_token_at(t) {
            Some(k) => {
                let l = token_text(k).len() as int;
                let rest = t.skip(l);
                assert forall|i: int|
                    0 <= i < rest.len() && #[trigger] rest[i] == '{' implies match_token_at(
                    rest.skip(i),
                ) is Some by {
                    assert(t[l + i] == '{');
                    assert(rest.skip(i) =~= t.skip(l + i));
                }
                lemma_resolve_no_brace(rest, m, f);
                assert forall|j: int|
                    0 <= j < resolve_spec(t, m, f).len() implies resolve_spec(t, m, f)[j]
                    != '{' by {
                    let v = token_value(k, m, f);
                    if j < v.len() {
                        assert(resolve_spec(t, m, f)[j] == v[j]);
                    } else {
                        assert(resolve_spec(t, m, f)[j] == resolve_spec(rest, m, f)[j - v.len()]);
                    }
                }
            },
            None => {
                if t[0] == '{' {
                    assert(match_token_at(t.skip(0)) is Some);
                    assert(t.skip(0) =~= t);
                    assert(false);
                }
                let rest = t.skip(1);
                assert forall|i: int|
                    0 <= i < rest.len() && #[trigger] rest[i] == '{' implies match_token_at(
                    rest.skip(i),
                ) is Some by {
                    assert(t[1 + i] == '{');
                    assert(rest.skip(i) =~= t.skip(1 + i));
                }
                lemma_resolve_no_brace(rest, m, f);
                assert forall|j: int|
                    0 <= j < resolve_spec(t, m, f).len() implies resolve_spec(t, m, f)[j]
                    != '{' by {
                    if j == 0 {
                        assert(resolve_spec(t, m, f)[0] == t[0]);
                    } else {
                        assert(resolve_spec(t, m, f)[j] == resolve_spec(rest, m, f)[j - 1]);
                    }
                }
            },
        }
    }
}

/// Law: resolving twice is resolving once, provided every `{` in the
/// template opens a recognized token and no substituted value contains a
/// brace. (Without that proviso a value may splice with surrounding text
/// into a new recognized token, which a second pass would then replace.)
pub proof fn lemma_resolve_idempotent(t: Seq<char>, m: ImageMetadata, f: Seq<char>)
    requires
        forall|i: int| 0 <= i < t.len() && #[trigger] t[i] == '{' ==> match_token_at(t.skip(i))
            is Some,
        forall|k: TokenKind, j: int|
            0 <= j < token_value(k, m, f).len() ==> #[trigger] token_value(k, m, f)[j] != '{',
    ensures
        resolve_spec(resolve_spec(t, m, f), m, f) == resolve_spec(t, m, f),
{
    lemma_resolve_no_brace(t, m, f);
    lemma_resolve_literal(resolve_spec(t, m, f), m, f);
}

/// A whitespace character: the set that trimming removes.
pub open spec fn is_space_char(c: char) -> bool {
    c == ' ' || c == '\t' || c == '\n' || c == '\r' || c == '\u{b}' || c == '\u{c}' || c
        == '\u{85}' || c == '\u{a0}' || c == '\u{1680}' || c == '\u{2000}' || c == '\u{2001}' || c
        == '\u{2002}' || c == '\u{2003}' || c == '\u{2004}' || c == '\u{2005}' || c == '\u{2006}'
        || c == '\u{2007}' || c == '\u{2008}' || c == '\u{2009}' || c == '\u{200a}' || c
        == '\u{2028}' || c == '\u{2029}' || c == '\u{202f}' || c == '\u{205f}' || c == '\u{3000}'
}

/// Whether `s` trims to the empty string: every character is whitespace.
pub open spec fn spec_is_blank(s: Seq<char>) -> bool {
    forall|i: int| 0 <= i < s.len() ==> is_space_char(s[i])
}

/// Whether every character of `s` is whitespace, so that trimming `s`
/// leaves nothing.
pub fn is_blank(s: &str) -> (r: bool)
    ensures
        r == spec_is_blank(s@),
{
    let n = s.unicode_len();
    let mut i: usize = 0;
    while i < n
        invariant
            n == s@.len(),
            i <= n,
            forall|q: int| 0 <= q < i ==> is_space_char(s@[q]),
        decreases n - i,
    {
        let c = s.get_char(i);
        if !(c == ' ' || c == '\t' || c == '\n' || c == '\r' || c == '\u{b}' || c == '\u{c}' || c
            == '\u{85}' || c == '\u{a0}' || c == '\u{1680}' || c == '\u{2000}' || c == '\u{2001}'
            || c == '\u{2002}' || c == '\u{2003}' || c == '\u{2004}' || c == '\u{2005}' || c
            == '\u{2006}' || c == '\u{2007}' || c == '\u{2008}' || c == '\u{2009}' || c
            == '\u{200a}' || c == '\u{2028}' || c == '\u{2029}' || c == '\u{202f}' || c
            == '\u{205f}' || c == '\u{3000}') {
            return false;
        }
        i = i + 1;
    }
    true
}

} // verus!
