//! Character-level helpers shared by the tokenizer, the alias table and the
//! export builder: splitting, joining, trimming, padding and decimal numbers.
//!
//! Every function is specified over `Seq<char>`, the view of `str` and `String`.
use vstd::prelude::*;

verus! {

/// `String::push` appends exactly one character to the end of the string.
pub assume_specification[ String::push ](s: &mut String, c: char)
    ensures
        final(s)@ == old(s)@.push(c),
;

/// The views of a sequence of strings, element by element.
pub open spec fn texts(v: Seq<String>) -> Seq<Seq<char>> {
    Seq::new(v.len(), |i: int| v[i]@)
}

/// The view of an optional string.
pub open spec fn optional_text(text: Option<String>) -> Option<Seq<char>> {
    match text {
        Some(text) => Some(text@),
        None => None,
    }
}

/// Whether `c` is Unicode white space (the code points with the `White_Space` property).
pub open spec fn is_whitespace(c: char) -> bool {
    ||| '\u{9}' <= c <= '\u{d}'
    ||| c == ' '
    ||| c == '\u{85}'
    ||| c == '\u{a0}'
    ||| c == '\u{1680}'
    ||| '\u{2000}' <= c <= '\u{200a}'
    ||| c == '\u{2028}'
    ||| c == '\u{2029}'
    ||| c == '\u{202f}'
    ||| c == '\u{205f}'
    ||| c == '\u{3000}'
}

/// What separates the pieces of a text.
#[derive(Clone, Copy, Debug, PartialEq, Eq, Structural)]
pub enum Separator {
    /// Exactly the space character, U+0020.
    Space,
    /// Any white-space character.
    Whitespace,
    /// Exactly the comma.
    Comma,
    /// Exactly the full stop.
    Dot,
}

impl Separator {
    /// Whether `c` separates two pieces.
    pub open spec fn matches(self, c: char) -> bool {
        match self {
            Separator::Space => c == ' ',
            Separator::Whitespace => is_whitespace(c),
            Separator::Comma => c == ',',
            Separator::Dot => c == '.',
        }
    }

    /// Executable form of [`Separator::matches`].
    pub fn test(self, c: char) -> (b: bool)
        ensures
            b == self.matches(c),
    {
        match self {
            Separator::Space => c == ' ',
            Separator::Whitespace => char_is_whitespace(c),
            Separator::Comma => c == ',',
            Separator::Dot => c == '.',
        }
    }
}

/// Executable form of [`is_whitespace`].
pub fn char_is_whitespace(c: char) -> (b: bool)
    ensures
        b == is_whitespace(c),
{
    (c >= '\u{9}' && c <= '\u{d}') || c == ' ' || c == '\u{85}' || c == '\u{a0}' || c
        == '\u{1680}' || (c >= '\u{2000}' && c <= '\u{200a}') || c == '\u{2028}' || c
        == '\u{2029}' || c == '\u{202f}' || c == '\u{205f}' || c == '\u{3000}'
}

/// The pieces of `s` between separators. A text with `n` separators has `n + 1`
/// pieces; two adjacent separators enclose an empty piece, and so do a leading
/// or trailing separator and the end of the text.
pub open spec fn fields(s: Seq<char>, sep: Separator) -> Seq<Seq<char>>
    decreases s.len(),
{
    if s.len() == 0 {
        seq![Seq::<char>::empty()]
    } else {
        let before = fields(s.drop_last(), sep);
        if sep.matches(s.last()) {
            before.push(Seq::<char>::empty())
        } else {
            before.drop_last().push(before.last().push(s.last()))
        }
    }
}

/// The maximal runs of characters of `s` that hold no white space, in order.
pub open spec fn words(s: Seq<char>) -> Seq<Seq<char>> {
    fields(s, Separator::Whitespace).filter(|f: Seq<char>| f.len() > 0)
}

/// The concatenation of `parts` with `sep` between each two neighbours.
pub open spec fn join(parts: Seq<Seq<char>>, sep: Seq<char>) -> Seq<char>
    decreases parts.len(),
{
    if parts.len() == 0 {
        Seq::<char>::empty()
    } else if parts.len() == 1 {
        parts[0]
    } else {
        join(parts.drop_last(), sep) + sep + parts.last()
    }
}

/// `fields` never returns an empty sequence.
pub proof fn lemma_fields_nonempty(s: Seq<char>, sep: Separator)
    ensures
        fields(s, sep).len() >= 1,
    decreases s.len(),
{
    if s.len() > 0 {
        lemma_fields_nonempty(s.drop_last(), sep);
    }
}

/// A text without separators is a single piece.
pub proof fn lemma_fields_of_unbroken(s: Seq<char>, sep: Separator)
    requires
        forall|i: int| 0 <= i < s.len() ==> !sep.matches(#[trigger] s[i]),
    ensures
        fields(s, sep) == seq![s],
    decreases s.len(),
{
    if s.len() == 0 {
        assert(s == Seq::<char>::empty());
    } else {
        lemma_fields_of_unbroken(s.drop_last(), sep);
        assert(s.drop_last().push(s.last()) == s);
    }
}

/// No piece of a text holds a separator.
pub proof fn lemma_fields_are_unbroken(s: Seq<char>, sep: Separator)
    ensures
        forall|k: int, i: int|
            0 <= k < fields(s, sep).len() && 0 <= i < fields(s, sep)[k].len() ==> !sep.matches(
                #[trigger] fields(s, sep)[k][i],
            ),
    decreases s.len(),
{
    if s.len() > 0 {
        lemma_fields_are_unbroken(s.drop_last(), sep);
        lemma_fields_nonempty(s.drop_last(), sep);
    }
}

/// Joining pieces that hold no white space, with a separator that holds none,
/// gives a text that holds none.
pub proof fn lemma_join_is_unbroken(parts: Seq<Seq<char>>, sep: Seq<char>)
    requires
        forall|k: int, i: int|
            0 <= k < parts.len() && 0 <= i < parts[k].len() ==> !is_whitespace(
                #[trigger] parts[k][i],
            ),
        forall|i: int| 0 <= i < sep.len() ==> !is_whitespace(#[trigger] sep[i]),
    ensures
        forall|i: int|
            0 <= i < join(parts, sep).len() ==> !is_whitespace(#[trigger] join(parts, sep)[i]),
    decreases parts.len(),
{
    if parts.len() >= 2 {
        let head = parts.drop_last();
        assert forall|k: int, i: int|
            0 <= k < head.len() && 0 <= i < head[k].len() implies !is_whitespace(
            #[trigger] head[k][i],
        ) by {
            assert(head[k] == parts[k]);
        }
        lemma_join_is_unbroken(head, sep);
        let left = join(head, sep);
        let whole = join(parts, sep);
        assert forall|i: int| 0 <= i < whole.len() implies !is_whitespace(#[trigger] whole[i]) by {
            if i < left.len() {
                assert(whole[i] == left[i]);
            } else if i < left.len() + sep.len() {
                assert(whole[i] == sep[i - left.len()]);
            } else {
                assert(whole[i] == parts.last()[i - left.len() - sep.len()]);
            }
        }
    }
}

/// The one character that a separator other than white space stands for.
pub open spec fn separator_char(sep: Separator) -> char {
    match sep {
        Separator::Comma => ',',
        Separator::Dot => '.',
        _ => ' ',
    }
}

/// Splitting a text at one character and joining the pieces with that
/// character gives the text back.
pub proof fn lemma_join_of_fields(s: Seq<char>, sep: Separator)
    requires
        sep != Separator::Whitespace,
    ensures
        join(fields(s, sep), seq![separator_char(sep)]) == s,
    decreases s.len(),
{
    let glue = seq![separator_char(sep)];
    if s.len() > 0 {
        let before = fields(s.drop_last(), sep);
        lemma_join_of_fields(s.drop_last(), sep);
        lemma_fields_nonempty(s.drop_last(), sep);
        if sep.matches(s.last()) {
            assert(before.push(Seq::<char>::empty()).drop_last() == before);
        } else {
            let head = before.drop_last();
            assert(head.push(before.last().push(s.last())).drop_last() == head);
            if head.len() > 0 {
                assert(join(head, glue) + glue + before.last().push(s.last()) == (join(head, glue)
                    + glue + before.last()).push(s.last()));
            }
        }
    }
}

/// The characters of `s`, in order.
pub fn chars_of(s: &str) -> (out: Vec<char>)
    ensures
        out@ == s@,
{
    let mut out: Vec<char> = Vec::new();
    for c in iter: s.chars()
        invariant
            iter.seq() == s@,
            out@ == s@.take(iter.index()),
    {
        out.push(c);
    }
    out
}

/// The string made of `chars[from..to]`.
pub fn string_of(chars: &Vec<char>, from: usize, to: usize) -> (s: String)
    requires
        from <= to <= chars.len(),
    ensures
        s@ == chars@.subrange(from as int, to as int),
{
    let mut s = String::new();
    let mut i: usize = from;
    while i < to
        invariant
            from <= i <= to <= chars.len(),
            s@ == chars@.subrange(from as int, i as int),
        decreases to - i,
    {
        s.push(chars[i]);
        i += 1;
    }
    s
}

/// Whether two texts hold the same characters.
pub fn same_text(a: &str, b: &str) -> (r: bool)
    ensures
        r == (a@ == b@),
{
    let x = String::from_str(a);
    let y = String::from_str(b);
    x.eq(&y)
}

/// Splits `s` at every separator, keeping empty pieces.
pub fn split_fields(s: &str, sep: Separator) -> (out: Vec<String>)
    ensures
        texts(out@) == fields(s@, sep),
{
    let chars = chars_of(s);
    let mut out: Vec<String> = Vec::new();
    let mut start: usize = 0;
    let mut i: usize = 0;
    assert(chars@.subrange(0, 0) == Seq::<char>::empty());
    while i < chars.len()
        invariant
            start <= i <= chars.len(),
            chars@ == s@,
            texts(out@).push(chars@.subrange(start as int, i as int)) == fields(
                chars@.take(i as int),
                sep,
            ),
        decreases chars.len() - i,
    {
        let ghost current = chars@.subrange(start as int, i as int);
        assert(chars@.take(i + 1).drop_last() == chars@.take(i as int));
        if sep.test(chars[i]) {
            let piece = string_of(&chars, start, i);
            out.push(piece);
            start = i + 1;
            assert(chars@.subrange(start as int, i + 1) == Seq::<char>::empty());
        } else {
            assert(chars@.subrange(start as int, i + 1) == current.push(chars@[i as int]));
        }
        i += 1;
    }
    assert(chars@.take(chars@.len() as int) == chars@);
    let piece = string_of(&chars, start, i);
    out.push(piece);
    out
}

/// Splits `s` at white space and keeps the pieces that are not empty.
pub fn split_words(s: &str) -> (out: Vec<String>)
    ensures
        texts(out@) == words(s@),
{
    let pieces = split_fields(s, Separator::Whitespace);
    let ghost keep = |f: Seq<char>| f.len() > 0;
    let mut out: Vec<String> = Vec::new();
    let mut i: usize = 0;
    proof {
        reveal(Seq::filter);
    }
    while i < pieces.len()
        invariant
            i <= pieces.len(),
            texts(pieces@) == fields(s@, Separator::Whitespace),
            keep == |f: Seq<char>| f.len() > 0,
            texts(out@) == texts(pieces@).take(i as int).filter(keep),
        decreases pieces.len() - i,
    {
        let piece = &pieces[i];
        let n = piece.as_str().unicode_len();
        proof {
            let head = texts(pieces@).take(i as int);
            assert(texts(pieces@).take(i + 1) == head.push(piece@));
            head.lemma_filter_push(piece@, keep);
        }
        if n > 0 {
            out.push(piece.clone());
        }
        i += 1;
    }
    assert(texts(pieces@).take(pieces@.len() as int) == texts(pieces@));
    out
}

/// Concatenates `parts`, writing `sep` between each two neighbours.
pub fn join_with(parts: &Vec<String>, sep: &str) -> (out: String)
    ensures
        out@ == join(texts(parts@), sep@),
{
    let mut out = String::new();
    let mut i: usize = 0;
    while i < parts.len()
        invariant
            i <= parts.len(),
            out@ == join(texts(parts@).take(i as int), sep@),
        decreases parts.len() - i,
    {
        assert(texts(parts@).take(i + 1).drop_last() == texts(parts@).take(i as int));
        if i > 0 {
            out.append(sep);
        }
        out.append(parts[i].as_str());
        i += 1;
    }
    assert(texts(parts@).take(parts@.len() as int) == texts(parts@));
    out
}

/// `s` without its leading white space.
pub open spec fn trim_start(s: Seq<char>) -> Seq<char>
    decreases s.len(),
{
    if s.len() > 0 && is_whitespace(s.first()) {
        trim_start(s.drop_first())
    } else {
        s
    }
}

/// `s` without its trailing white space.
pub open spec fn trim_end(s: Seq<char>) -> Seq<char>
    decreases s.len(),
{
    if s.len() > 0 && is_whitespace(s.last()) {
        trim_end(s.drop_last())
    } else {
        s
    }
}

/// `s` without its leading and trailing white space.
pub open spec fn trim(s: Seq<char>) -> Seq<char> {
    trim_end(trim_start(s))
}

/// Removes leading and trailing white space.
pub fn trimmed(s: &str) -> (out: String)
    ensures
        out@ == trim(s@),
{
    let chars = chars_of(s);
    let mut start: usize = 0;
    assert(chars@.skip(0) == chars@);
    while start < chars.len() && char_is_whitespace(chars[start])
        invariant
            start <= chars.len(),
            trim_start(chars@) == trim_start(chars@.skip(start as int)),
        decreases chars.len() - start,
    {
        assert(chars@.skip(start as int).drop_first() == chars@.skip(start + 1));
        start += 1;
    }
    let mut end: usize = chars.len();
    while end > start && char_is_whitespace(chars[end - 1])
        invariant
            start <= end <= chars.len(),
            trim(chars@) == trim_end(chars@.subrange(start as int, end as int)),
        decreases end,
    {
        assert(chars@.subrange(start as int, end as int).drop_last() == chars@.subrange(
            start as int,
            end - 1,
        ));
        end -= 1;
    }
    string_of(&chars, start, end)
}

/// `s` followed by as many spaces as it takes to reach `width` characters;
/// `s` itself where it is that long already.
pub open spec fn padded(s: Seq<char>, width: nat) -> Seq<char> {
    if s.len() >= width {
        s
    } else {
        s + Seq::new((width - s.len()) as nat, |i: int| ' ')
    }
}

/// Pads `s` on the right with spaces to `width` characters.
pub fn pad_right(s: &str, width: usize) -> (out: String)
    ensures
        out@ == padded(s@, width as nat),
{
    let mut out = String::from_str(s);
    let mut n: usize = s.unicode_len();
    while n < width
        invariant
            n >= s@.len(),
            n <= width || n == s@.len(),
            out@ == s@ + Seq::new((n - s@.len()) as nat, |i: int| ' '),
        decreases width - n,
    {
        out.push(' ');
        n += 1;
    }
    out
}

/// Whether `s` begins with the option marker, two hyphens.
pub open spec fn has_option_marker(s: Seq<char>) -> bool {
    s.len() >= 2 && s[0] == '-' && s[1] == '-'
}

/// Executable form of [`has_option_marker`].
pub fn starts_with_marker(s: &str) -> (b: bool)
    ensures
        b == has_option_marker(s@),
{
    let chars = chars_of(s);
    chars.len() >= 2 && chars[0] == '-' && chars[1] == '-'
}

/// The decimal digit for `d`, which is below ten.
pub open spec fn digit_char(d: nat) -> char {
    ('0' as nat + d) as char
}

/// `n` written in decimal, without a sign or leading zeros.
pub open spec fn decimal(n: nat) -> Seq<char>
    decreases n,
{
    if n < 10 {
        seq![digit_char(n)]
    } else {
        decimal(n / 10).push(digit_char(n % 10))
    }
}

/// Appends `n` in decimal to `out`.
pub fn push_decimal(out: &mut String, n: usize)
    ensures
        final(out)@ == old(out)@ + decimal(n as nat),
    decreases n,
{
    if n >= 10 {
        push_decimal(out, n / 10);
    }
    let d: u8 = (n % 10) as u8;
    out.push((48u8 + d) as char);
}

/// `n` written in decimal.
pub fn decimal_string(n: usize) -> (out: String)
    ensures
        out@ == decimal(n as nat),
{
    let mut out = String::new();
    push_decimal(&mut out, n);
    out
}

/// Whether `c` is one of the ten ASCII digits.
pub open spec fn is_digit(c: char) -> bool {
    '0' <= c <= '9'
}

/// The number that a text of ASCII digits denotes in decimal; 0 for the empty text.
pub open spec fn decimal_value(s: Seq<char>) -> nat
    decreases s.len(),
{
    if s.len() == 0 {
        0
    } else {
        decimal_value(s.drop_last()) * 10 + (s.last() as nat - '0' as nat) as nat
    }
}

/// Whether `s` is a decimal number: at least one character, ASCII digits only.
pub open spec fn is_decimal(s: Seq<char>) -> bool {
    s.len() > 0 && forall|i: int| 0 <= i < s.len() ==> is_digit(#[trigger] s[i])
}

/// Executable form of [`is_decimal`].
pub fn is_decimal_number(s: &str) -> (b: bool)
    ensures
        b == is_decimal(s@),
{
    let chars = chars_of(s);
    if chars.len() == 0 {
        return false;
    }
    let mut i: usize = 0;
    while i < chars.len()
        invariant
            i <= chars.len(),
            chars@ == s@,
            forall|j: int| 0 <= j < i ==> is_digit(#[trigger] chars@[j]),
        decreases chars.len() - i,
    {
        let c = chars[i];
        if !(c >= '0' && c <= '9') {
            return false;
        }
        i += 1;
    }
    true
}

/// Reads a decimal number. The result is `None` where `s` is not a decimal
/// number or the number does not fit a `usize`.
pub fn parse_decimal(s: &str) -> (r: Option<usize>)
    ensures
        r == if is_decimal(s@) && decimal_value(s@) <= usize::MAX {
            Some(decimal_value(s@) as usize)
        } else {
            None
        },
{
    let chars = chars_of(s);
    if chars.len() == 0 {
        return None;
    }
    let mut value: usize = 0;
    let mut i: usize = 0;
    while i < chars.len()
        invariant
            i <= chars.len(),
            chars@ == s@,
            forall|j: int| 0 <= j < i ==> is_digit(#[trigger] chars@[j]),
            value == decimal_value(chars@.take(i as int)),
        decreases chars.len() - i,
    {
        let c = chars[i];
        if !(c >= '0' && c <= '9') {
            return None;
        }
        let d: usize = (c as u32 - 48u32) as usize;
        proof {
            assert(chars@.take(i + 1).drop_last() == chars@.take(i as int));
            if is_decimal(chars@) {
                lemma_decimal_value_grows(chars@, i + 1);
            }
        }
        let next = match value.checked_mul(10) {
            Some(tenfold) => tenfold.checked_add(d),
            None => None,
        };
        match next {
            Some(v) => {
                value = v;
            },
            None => {
                return None;
            },
        }
        i += 1;
    }
    assert(chars@.take(chars@.len() as int) == chars@);
    Some(value)
}

/// The number that `s` denotes as an unsigned decimal number, which may begin
/// with a plus sign; `None` where `s` is no such number or the number does not
/// fit a `usize`.
pub open spec fn unsigned_value(s: Seq<char>) -> Option<usize> {
    let digits = if s.len() > 0 && s[0] == '+' {
        s.skip(1)
    } else {
        s
    };
    if is_decimal(digits) && decimal_value(digits) <= usize::MAX {
        Some(decimal_value(digits) as usize)
    } else {
        None
    }
}

/// Reads an unsigned decimal number, which may begin with a plus sign.
pub fn parse_unsigned(s: &str) -> (r: Option<usize>)
    ensures
        r == unsigned_value(s@),
{
    let chars = chars_of(s);
    if chars.len() > 0 && chars[0] == '+' {
        let digits = string_of(&chars, 1, chars.len());
        parse_decimal(digits.as_str())
    } else {
        parse_decimal(s)
    }
}

/// A number written in decimal is a decimal number, and it denotes that number.
pub proof fn lemma_decimal_round_trip(n: nat)
    ensures
        is_decimal(decimal(n)),
        decimal_value(decimal(n)) == n,
    decreases n,
{
    let last = digit_char(n % 10);
    if n >= 10 {
        lemma_decimal_round_trip(n / 10);
        let head = decimal(n / 10);
        let whole = head.push(last);
        assert(whole.drop_last() == head);
        assert forall|i: int| 0 <= i < whole.len() implies is_digit(#[trigger] whole[i]) by {
            if i < head.len() {
                assert(whole[i] == head[i]);
            }
        }
    } else {
        let whole = seq![last];
        assert(decimal_value(whole.drop_last()) == 0);
    }
}

/// Reading more digits never makes the number smaller.
pub proof fn lemma_decimal_value_grows(s: Seq<char>, n: int)
    requires
        0 <= n <= s.len(),
        forall|j: int| 0 <= j < s.len() ==> '0' <= #[trigger] s[j],
    ensures
        decimal_value(s.take(n)) <= decimal_value(s),
    decreases s.len() - n,
{
    if n < s.len() {
        lemma_decimal_value_grows(s.drop_last(), n);
        assert(s.drop_last().take(n) == s.take(n));
    } else {
        assert(s.take(n) == s);
    }
}

} // verus!
