//! The normal form of a theme's spelling: lowercase, letters and digits only.

use vstd::prelude::*;

verus! {

/// The lowercase equivalent of a text by the Unicode rules, as
/// `str::to_lowercase` computes it.
pub uninterp spec fn unicode_lowercase(text: Seq<char>) -> Seq<char>;

/// Whether a character is alphabetic or numeric by the Unicode tables, as
/// `char::is_alphanumeric` decides it.
pub uninterp spec fn unicode_alphanumeric(c: char) -> bool;

/// Whether a character belongs to ASCII.
pub open spec fn is_ascii_char(c: char) -> bool {
    c <= '\u{7f}'
}

/// Whether every character of a text belongs to ASCII.
pub open spec fn all_ascii(text: Seq<char>) -> bool {
    forall|i: int| 0 <= i < text.len() ==> is_ascii_char(#[trigger] text[i])
}

/// An ASCII capital as its small letter; any other character as it is.
pub open spec fn ascii_lowercase(c: char) -> char {
    if 'A' <= c <= 'Z' {
        ((c as u8) + 32) as char
    } else {
        c
    }
}

/// A text with each ASCII capital replaced by its small letter.
pub open spec fn ascii_lowercase_text(text: Seq<char>) -> Seq<char> {
    text.map_values(|c: char| ascii_lowercase(c))
}

/// Whether a character is an ASCII letter or an ASCII digit.
pub open spec fn ascii_alphanumeric(c: char) -> bool {
    ||| 'a' <= c <= 'z'
    ||| 'A' <= c <= 'Z'
    ||| '0' <= c <= '9'
}

/// The lowercase form of a text. Text that is all ASCII has its capitals
/// replaced one for one; any other text is lowercased by the Unicode rules.
pub open spec fn lowercase(text: Seq<char>) -> Seq<char> {
    if all_ascii(text) {
        ascii_lowercase_text(text)
    } else {
        unicode_lowercase(text)
    }
}

/// Whether a character is a letter or a digit: by the ASCII ranges for an
/// ASCII character, by the Unicode tables for any other.
pub open spec fn alphanumeric(c: char) -> bool {
    if is_ascii_char(c) {
        ascii_alphanumeric(c)
    } else {
        unicode_alphanumeric(c)
    }
}

/// The test that normalization applies to each character.
pub open spec fn kept() -> spec_fn(char) -> bool {
    |c: char| alphanumeric(c)
}

/// The normal form of a text: its lowercase form without the characters
/// that are neither letters nor digits.
pub open spec fn normal_form(text: Seq<char>) -> Seq<char> {
    lowercase(text).filter(kept())
}

/// Calls `str::to_lowercase` of the standard library. Its contract is
/// taken on trust: the result is the Unicode lowercase equivalent of the
/// text, which depends on the text alone; for text that is all ASCII it is
/// the text with each capital `A` to `Z` replaced by its small letter.
#[verifier::external_body]
fn to_lowercase(text: &str) -> (lowered: String)
    ensures
        lowered@ == unicode_lowercase(text@),
        all_ascii(text@) ==> lowered@ == ascii_lowercase_text(text@),
{
    text.to_lowercase()
}

/// Calls `char::is_alphanumeric` of the standard library. Its contract is
/// taken on trust: the result says whether the character is alphabetic or
/// numeric by the Unicode tables, which depends on the character alone;
/// among the ASCII characters these are the letters `a` to `z` and `A` to
/// `Z` and the digits `0` to `9`.
#[verifier::external_body]
fn is_alphanumeric(c: char) -> (yes: bool)
    ensures
        yes == unicode_alphanumeric(c),
        is_ascii_char(c) ==> yes == ascii_alphanumeric(c),
{
    c.is_alphanumeric()
}

/// Brings a text into normal form.
pub fn normalize(text: &str) -> (normal: Vec<char>)
    ensures
        normal@ == normal_form(text@),
{
    let lowered = to_lowercase(text);
    let mut normal: Vec<char> = Vec::new();
    for c in it: lowered.as_str().chars()
        invariant
            it.seq() == lowered@,
            normal@ == lowered@.take(it.index() as int).filter(kept()),
    {
        let keep = is_alphanumeric(c);
        proof {
            let seen = lowered@.take(it.index() as int);
            assert(lowered@.take(it.index() + 1) =~= seen.push(c));
            seen.lemma_filter_push(c, kept());
        }
        if keep {
            normal.push(c);
        }
    }
    proof {
        assert(lowered@.take(lowered@.len() as int) =~= lowered@);
    }
    normal
}

/// Whether a character is a small ASCII letter or an ASCII digit: a
/// character that normalization leaves as it is.
pub open spec fn is_plain(c: char) -> bool {
    'a' <= c <= 'z' || '0' <= c <= '9'
}

/// Whether two texts match place by place: at each place they hold the
/// same letter or digit, in whatever case, or both hold a character that
/// is neither.
pub open spec fn alike(a: Seq<char>, b: Seq<char>) -> bool {
    &&& a.len() == b.len()
    &&& forall|i: int|
        0 <= i < a.len() ==> {
            ||| ascii_lowercase(#[trigger] a[i]) == ascii_lowercase(b[i])
            ||| !ascii_alphanumeric(a[i]) && !ascii_alphanumeric(b[i])
        }
}

/// The normal form of ASCII text is made piece by piece: that of a
/// concatenation is the concatenation of the normal forms.
pub proof fn normal_form_of_ascii_concatenation(a: Seq<char>, b: Seq<char>)
    requires
        all_ascii(a),
        all_ascii(b),
    ensures
        normal_form(a + b) == normal_form(a) + normal_form(b),
{
    assert(all_ascii(a + b));
    assert(ascii_lowercase_text(a + b) =~= ascii_lowercase_text(a) + ascii_lowercase_text(b));
    Seq::filter_distributes_over_add(ascii_lowercase_text(a), ascii_lowercase_text(b), kept());
}

/// Text made of small ASCII letters and ASCII digits is its own normal
/// form.
pub proof fn normal_form_of_plain_text(text: Seq<char>)
    requires
        forall|i: int| 0 <= i < text.len() ==> is_plain(#[trigger] text[i]),
    ensures
        normal_form(text) == text,
    decreases text.len(),
{
    assert(all_ascii(text));
    assert(ascii_lowercase_text(text) =~= text);
    if text.len() == 0 {
        reveal(Seq::filter);
    } else {
        let front = text.drop_last();
        normal_form_of_plain_text(front);
        assert(all_ascii(front));
        assert(ascii_lowercase_text(front) =~= front);
        assert(text =~= front.push(text.last()));
        front.lemma_filter_push(text.last(), kept());
    }
}

/// An ASCII character that is neither a letter nor a digit, such as a
/// space, a hyphen or an underscore, leaves no trace in the normal form of
/// ASCII text.
pub proof fn normal_form_ignores_ascii_separator(a: Seq<char>, separator: char, b: Seq<char>)
    requires
        all_ascii(a),
        all_ascii(b),
        is_ascii_char(separator),
        !ascii_alphanumeric(separator),
    ensures
        normal_form(a + seq![separator] + b) == normal_form(a + b),
{
    let gap = seq![separator];
    assert(all_ascii(gap));
    assert(all_ascii(a + gap));
    normal_form_of_ascii_concatenation(a + gap, b);
    normal_form_of_ascii_concatenation(a, gap);
    normal_form_of_ascii_concatenation(a, b);
    assert(normal_form(gap) =~= Seq::<char>::empty()) by {
        assert(ascii_lowercase_text(gap) =~= gap);
        assert(gap =~= Seq::<char>::empty().push(separator));
        Seq::<char>::empty().lemma_filter_push(separator, kept());
        reveal(Seq::filter);
    }
    assert(normal_form(a) + Seq::<char>::empty() =~= normal_form(a));
}

/// The normal form of ASCII text depends neither on the case of its
/// letters nor on which character separates them: texts that are alike
/// have the same normal form.
pub proof fn normal_form_of_alike_ascii_texts(a: Seq<char>, b: Seq<char>)
    requires
        all_ascii(a),
        all_ascii(b),
        alike(a, b),
    ensures
        normal_form(a) == normal_form(b),
    decreases a.len(),
{
    if a.len() == 0 {
        assert(a =~= b);
    } else {
        let (a_front, a_last) = (a.drop_last(), a.last());
        let (b_front, b_last) = (b.drop_last(), b.last());
        assert(all_ascii(a_front) && all_ascii(b_front));
        assert(alike(a_front, b_front)) by {
            assert forall|i: int| 0 <= i < a_front.len() implies {
                ||| ascii_lowercase(#[trigger] a_front[i]) == ascii_lowercase(b_front[i])
                ||| !ascii_alphanumeric(a_front[i]) && !ascii_alphanumeric(b_front[i])
            } by {
                assert(a_front[i] == a[i] && b_front[i] == b[i]);
            }
        }
        normal_form_of_alike_ascii_texts(a_front, b_front);
        let (low_a, low_b) = (ascii_lowercase(a_last), ascii_lowercase(b_last));
        assert(ascii_lowercase_text(a) =~= ascii_lowercase_text(a_front).push(low_a));
        assert(ascii_lowercase_text(b) =~= ascii_lowercase_text(b_front).push(low_b));
        ascii_lowercase_text(a_front).lemma_filter_push(low_a, kept());
        ascii_lowercase_text(b_front).lemma_filter_push(low_b, kept());
        assert(a_last == a[a.len() - 1] && b_last == b[b.len() - 1]);
    }
}

} // verus!
