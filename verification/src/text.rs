//! Character-level text helpers shared by the wire protocol, the path
//! helpers and the rule builders.
//!
//! Every specification here is stated over `Seq<char>`, the view of `str` and
//! `String`.

use vstd::prelude::*;

verus! {

// ---------------------------------------------------------------------------
// Plain conversions and comparisons
// ---------------------------------------------------------------------------

/// The characters of `s` as a vector.
pub fn chars_of(s: &str) -> (v: Vec<char>)
    ensures
        v@ == s@,
{
    let mut v: Vec<char> = Vec::new();
    for c in it: s.chars()
        invariant
            v@ == it.seq().take(it.index() as int),
            it.seq() == s@,
    {
        v.push(c);
    }
    v
}

/// Whether two string slices hold the same characters.
pub fn same_text(a: &str, b: &str) -> (r: bool)
    ensures
        r == (a@ == b@),
{
    let x = chars_of(a);
    let y = chars_of(b);
    if x.len() != y.len() {
        return false;
    }
    let mut i: usize = 0;
    while i < x.len()
        invariant
            x@ == a@,
            y@ == b@,
            x.len() == y.len(),
            i <= x.len(),
            forall|k: int| 0 <= k < i ==> x@[k] == y@[k],
        decreases x.len() - i,
    {
        if x[i] != y[i] {
            assert(a@[i as int] != b@[i as int]);
            return false;
        }
        i += 1;
    }
    assert(x@ =~= y@);
    true
}

/// Code point of `c` with the ASCII capitals mapped onto the small letters.
pub open spec fn fold_ascii(c: char) -> int {
    if 'A' <= c <= 'Z' {
        c as int + 32
    } else {
        c as int
    }
}

/// Equality of two texts up to the case of ASCII letters.
pub open spec fn eq_ignore_ascii_case(a: Seq<char>, b: Seq<char>) -> bool {
    &&& a.len() == b.len()
    &&& forall|i: int| 0 <= i < a.len() ==> fold_ascii(#[trigger] a[i]) == fold_ascii(b[i])
}

fn fold(c: char) -> (r: u32)
    ensures
        r == fold_ascii(c),
{
    if 'A' <= c && c <= 'Z' {
        c as u32 + 32
    } else {
        c as u32
    }
}

/// Whether two string slices are equal up to the case of ASCII letters.
pub fn same_text_ignore_ascii_case(a: &str, b: &str) -> (r: bool)
    ensures
        r == eq_ignore_ascii_case(a@, b@),
{
    let x = chars_of(a);
    let y = chars_of(b);
    if x.len() != y.len() {
        return false;
    }
    let mut i: usize = 0;
    while i < x.len()
        invariant
            x@ == a@,
            y@ == b@,
            x.len() == y.len(),
            i <= x.len(),
            forall|k: int| 0 <= k < i ==> fold_ascii(#[trigger] x@[k]) == fold_ascii(y@[k]),
        decreases x.len() - i,
    {
        if fold(x[i]) != fold(y[i]) {
            assert(fold_ascii(a@[i as int]) != fold_ascii(b@[i as int]));
            return false;
        }
        i += 1;
    }
    true
}

/// Whether `s` holds the character `c`.
pub open spec fn has_char(s: Seq<char>, c: char) -> bool {
    exists|i: int| 0 <= i < s.len() && s[i] == c
}

// ---------------------------------------------------------------------------
// Splitting and joining
// ---------------------------------------------------------------------------

/// The fields of `s` when it is cut at every `sep`.
///
/// Defined from the right: the empty text has one empty field, a trailing
/// `sep` opens a new empty field, any other trailing character extends the
/// last field.
pub open spec fn split(s: Seq<char>, sep: char) -> Seq<Seq<char>>
    decreases s.len(),
{
    if s.len() == 0 {
        seq![Seq::<char>::empty()]
    } else {
        let before = split(s.drop_last(), sep);
        if s.last() == sep {
            before.push(Seq::<char>::empty())
        } else {
            before.drop_last().push(before.last().push(s.last()))
        }
    }
}

/// The fields put together again with `sep` between neighbours.
pub open spec fn join(fields: Seq<Seq<char>>, sep: char) -> Seq<char>
    decreases fields.len(),
{
    if fields.len() == 0 {
        Seq::<char>::empty()
    } else if fields.len() == 1 {
        fields[0]
    } else {
        join(fields.drop_last(), sep) + seq![sep] + fields.last()
    }
}

/// The views of a vector of string slices.
pub open spec fn views(v: Seq<&str>) -> Seq<Seq<char>> {
    Seq::new(v.len(), |i: int| v[i]@)
}

/// The views of a vector of owned strings.
pub open spec fn string_views(v: Seq<String>) -> Seq<Seq<char>> {
    Seq::new(v.len(), |i: int| v[i]@)
}

/// A split always yields at least one field.
pub proof fn lemma_split_nonempty(s: Seq<char>, sep: char)
    ensures
        split(s, sep).len() >= 1,
    decreases s.len(),
{
    if s.len() > 0 {
        lemma_split_nonempty(s.drop_last(), sep);
    }
}

/// A text without the separator is its own single field.
pub proof fn lemma_split_plain(s: Seq<char>, sep: char)
    requires
        !has_char(s, sep),
    ensures
        split(s, sep) == seq![s],
    decreases s.len(),
{
    if s.len() > 0 {
        let t = s.drop_last();
        assert forall|i: int| 0 <= i < t.len() implies t[i] != sep by {
            assert(t[i] == s[i]);
        }
        lemma_split_plain(t, sep);
        assert(s.last() == s[s.len() - 1]);
        assert(t.push(s.last()) =~= s);
        assert(split(s, sep) =~= seq![s]);
    } else {
        assert(s =~= Seq::<char>::empty());
    }
}

/// Appending a separator and a field that holds none adds exactly that field.
pub proof fn lemma_split_append(a: Seq<char>, b: Seq<char>, sep: char)
    requires
        !has_char(b, sep),
    ensures
        split(a + seq![sep] + b, sep) == split(a, sep).push(b),
    decreases b.len(),
{
    let whole = a + seq![sep] + b;
    if b.len() == 0 {
        assert(whole.drop_last() =~= a);
        assert(whole.last() == sep);
        assert(b =~= Seq::<char>::empty());
    } else {
        let b0 = b.drop_last();
        assert forall|i: int| 0 <= i < b0.len() implies b0[i] != sep by {
            assert(b0[i] == b[i]);
        }
        lemma_split_append(a, b0, sep);
        assert(whole.drop_last() =~= a + seq![sep] + b0);
        assert(whole.last() == b.last());
        assert(b.last() == b[b.len() - 1]);
        assert(b0.push(b.last()) =~= b);
        let before = split(a, sep).push(b0);
        assert(before.drop_last() =~= split(a, sep));
        assert(before.last() == b0);
    }
}

/// Splitting undoes joining, as long as there is a field and none of the
/// fields holds the separator.
pub proof fn lemma_split_join(fields: Seq<Seq<char>>, sep: char)
    requires
        fields.len() >= 1,
        forall|i: int| 0 <= i < fields.len() ==> !has_char(#[trigger] fields[i], sep),
    ensures
        split(join(fields, sep), sep) == fields,
    decreases fields.len(),
{
    if fields.len() == 1 {
        lemma_split_plain(fields[0], sep);
        assert(seq![fields[0]] =~= fields);
    } else {
        let init = fields.drop_last();
        assert forall|i: int| 0 <= i < init.len() implies !has_char(#[trigger] init[i], sep) by {
            assert(init[i] == fields[i]);
        }
        lemma_split_join(init, sep);
        lemma_split_append(join(init, sep), fields.last(), sep);
        assert(init.push(fields.last()) =~= fields);
    }
}

/// Joining undoes splitting.
pub proof fn lemma_join_split(s: Seq<char>, sep: char)
    ensures
        join(split(s, sep), sep) == s,
    decreases s.len(),
{
    if s.len() == 0 {
        assert(join(seq![Seq::<char>::empty()], sep) =~= s);
    } else {
        let t = s.drop_last();
        lemma_join_split(t, sep);
        lemma_split_nonempty(t, sep);
        let before = split(t, sep);
        assert(t.push(s.last()) =~= s);
        if s.last() == sep {
            let after = before.push(Seq::<char>::empty());
            assert(after.drop_last() =~= before);
            assert(join(after, sep) =~= join(before, sep) + seq![sep] + Seq::<char>::empty());
            assert(join(after, sep) =~= s);
        } else {
            let grown = before.last().push(s.last());
            let after = before.drop_last().push(grown);
            if before.len() == 1 {
                assert(join(before, sep) == before[0]);
                assert(join(after, sep) == grown);
            } else {
                assert(after.drop_last() =~= before.drop_last());
                assert(join(after, sep) =~= join(before.drop_last(), sep) + seq![sep] + grown);
                assert(join(before, sep) =~= join(before.drop_last(), sep) + seq![sep]
                    + before.last());
                assert(join(after, sep) =~= join(before, sep).push(s.last()));
            }
        }
    }
}

/// No field of a split holds the separator.
pub proof fn lemma_split_fields_plain(s: Seq<char>, sep: char)
    ensures
        forall|i: int| 0 <= i < split(s, sep).len() ==> !has_char(#[trigger] split(s, sep)[i], sep),
    decreases s.len(),
{
    if s.len() > 0 {
        let before = split(s.drop_last(), sep);
        lemma_split_fields_plain(s.drop_last(), sep);
        lemma_split_nonempty(s.drop_last(), sep);
        assert forall|i: int| 0 <= i < split(s, sep).len() implies !has_char(
            #[trigger] split(s, sep)[i],
            sep,
        ) by {
            let field = split(s, sep)[i];
            if i < before.len() - 1 {
                assert(field == before[i]);
            } else if s.last() == sep {
                if i == before.len() - 1 {
                    assert(field == before[i]);
                }
            } else {
                let grown = before.last().push(s.last());
                assert(field == grown);
                assert forall|k: int| 0 <= k < grown.len() implies grown[k] != sep by {
                    if k < before.last().len() {
                        assert(grown[k] == before.last()[k]);
                        assert(!has_char(before[before.len() - 1], sep));
                    }
                }
            }
        }
    } else {
        assert(split(s, sep)[0].len() == 0);
    }
}

/// Joining one more field appends the separator and the field.
pub proof fn lemma_join_push(fields: Seq<Seq<char>>, field: Seq<char>, sep: char)
    requires
        fields.len() >= 1,
    ensures
        join(fields.push(field), sep) == join(fields, sep) + seq![sep] + field,
{
    assert(fields.push(field).drop_last() =~= fields);
}

/// Cuts `s` at every `sep`; the fields borrow from `s`.
pub fn split_text<'a>(s: &'a str, sep: char) -> (fields: Vec<&'a str>)
    ensures
        views(fields@) == split(s@, sep),
{
    let chars = chars_of(s);
    let mut fields: Vec<&'a str> = Vec::new();
    let mut start: usize = 0;
    let mut i: usize = 0;
    assert(s@.take(0) =~= Seq::<char>::empty());
    assert(views(fields@).push(s@.subrange(0, 0)) =~= split(s@.take(0), sep));
    while i < chars.len()
        invariant
            chars@ == s@,
            start <= i <= chars.len(),
            views(fields@).push(s@.subrange(start as int, i as int)) == split(
                s@.take(i as int),
                sep,
            ),
        decreases chars.len() - i,
    {
        let ghost before = split(s@.take(i as int), sep);
        proof {
            let next = s@.take(i + 1);
            assert(next.drop_last() =~= s@.take(i as int));
            assert(next.last() == s@[i as int]);
            assert(before.drop_last() =~= views(fields@));
            assert(before.last() == s@.subrange(start as int, i as int));
        }
        if chars[i] == sep {
            let field = s.substring_char(start, i);
            let ghost old_fields = fields@;
            fields.push(field);
            start = i + 1;
            proof {
                assert(views(fields@) =~= views(old_fields).push(field@));
                assert(s@.subrange(start as int, i + 1) =~= Seq::<char>::empty());
            }
        } else {
            proof {
                assert(s@.subrange(start as int, i + 1) =~= s@.subrange(
                    start as int,
                    i as int,
                ).push(s@[i as int]));
            }
        }
        i += 1;
    }
    let field = s.substring_char(start, i);
    let ghost old_fields = fields@;
    fields.push(field);
    proof {
        assert(views(fields@) =~= views(old_fields).push(field@));
        assert(s@.take(i as int) =~= s@);
    }
    fields
}

/// The fields put together again with the text `sep` between neighbours.
pub open spec fn join_with(fields: Seq<Seq<char>>, sep: Seq<char>) -> Seq<char>
    decreases fields.len(),
{
    if fields.len() == 0 {
        Seq::<char>::empty()
    } else if fields.len() == 1 {
        fields[0]
    } else {
        join_with(fields.drop_last(), sep) + sep + fields.last()
    }
}

/// Joining with a text of one character is joining with that character.
pub proof fn lemma_join_with_char(fields: Seq<Seq<char>>, sep: char)
    ensures
        join_with(fields, seq![sep]) == join(fields, sep),
    decreases fields.len(),
{
    if fields.len() > 1 {
        lemma_join_with_char(fields.drop_last(), sep);
    }
}

/// Joins owned strings with `sep` between neighbours.
pub fn join_text(fields: &Vec<String>, sep: &str) -> (out: String)
    ensures
        out@ == join_with(string_views(fields@), sep@),
{
    let mut out = String::new();
    let mut i: usize = 0;
    assert(string_views(fields@).take(0) =~= Seq::<Seq<char>>::empty());
    while i < fields.len()
        invariant
            i <= fields.len(),
            out@ == join_with(string_views(fields@).take(i as int), sep@),
        decreases fields.len() - i,
    {
        proof {
            let all = string_views(fields@);
            let next = all.take(i + 1);
            assert(next.drop_last() =~= all.take(i as int));
            assert(next.last() == fields@[i as int]@);
        }
        if i > 0 {
            out.append(sep);
        }
        out.append(fields[i].as_str());
        i += 1;
    }
    assert(string_views(fields@).take(i as int) =~= string_views(fields@));
    out
}

// ---------------------------------------------------------------------------
// White space
// ---------------------------------------------------------------------------

/// The characters with the Unicode property `White_Space`.
pub open spec fn is_space(c: char) -> bool {
    let n = c as int;
    ||| 0x09 <= n <= 0x0d
    ||| n == 0x20
    ||| n == 0x85
    ||| n == 0xa0
    ||| n == 0x1680
    ||| 0x2000 <= n <= 0x200a
    ||| n == 0x2028
    ||| n == 0x2029
    ||| n == 0x202f
    ||| n == 0x205f
    ||| n == 0x3000
}

/// `s` without its leading white space.
pub open spec fn trim_start(s: Seq<char>) -> Seq<char>
    decreases s.len(),
{
    if s.len() > 0 && is_space(s[0]) {
        trim_start(s.drop_first())
    } else {
        s
    }
}

/// `s` without its trailing white space.
pub open spec fn trim_end(s: Seq<char>) -> Seq<char>
    decreases s.len(),
{
    if s.len() > 0 && is_space(s.last()) {
        trim_end(s.drop_last())
    } else {
        s
    }
}

/// `s` without leading and trailing white space.
pub open spec fn trim(s: Seq<char>) -> Seq<char> {
    trim_end(trim_start(s))
}

fn space(c: char) -> (r: bool)
    ensures
        r == is_space(c),
{
    let n: u32 = c as u32;
    (0x09 <= n && n <= 0x0d) || n == 0x20 || n == 0x85 || n == 0xa0 || n == 0x1680 || (0x2000 <= n
        && n <= 0x200a) || n == 0x2028 || n == 0x2029 || n == 0x202f || n == 0x205f || n == 0x3000
}

/// A text that neither starts nor ends with white space is its own trim.
pub proof fn lemma_trim_plain(s: Seq<char>)
    requires
        forall|i: int| 0 <= i < s.len() ==> !is_space(#[trigger] s[i]),
    ensures
        trim(s) == s,
{
}

/// Strips leading and trailing white space.
pub fn trim_text<'a>(s: &'a str) -> (r: &'a str)
    ensures
        r@ == trim(s@),
{
    let chars = chars_of(s);
    let mut start: usize = 0;
    assert(s@.skip(0) =~= s@);
    while start < chars.len() && space(chars[start])
        invariant
            chars@ == s@,
            start <= chars.len(),
            trim_start(s@) == trim_start(s@.skip(start as int)),
        decreases chars.len() - start,
    {
        proof {
            assert(s@.skip(start as int).drop_first() =~= s@.skip(start + 1));
        }
        start += 1;
    }
    let ghost body = s@.skip(start as int);
    assert(trim_start(s@) == body);
    let mut end: usize = chars.len();
    assert(body.take(end - start) =~= body);
    while end > start && space(chars[end - 1])
        invariant
            chars@ == s@,
            start <= end <= chars.len(),
            body == s@.skip(start as int),
            trim_end(body) == trim_end(body.take(end - start)),
        decreases end,
    {
        proof {
            assert(body.take(end - start).drop_last() =~= body.take(end - start - 1));
        }
        end -= 1;
    }
    proof {
        let kept = body.take(end - start);
        assert(kept =~= s@.subrange(start as int, end as int));
        if kept.len() > 0 {
            assert(kept.last() == s@[end - 1]);
        }
    }
    s.substring_char(start, end)
}

// ---------------------------------------------------------------------------
// Decimal numbers
// ---------------------------------------------------------------------------

/// The ASCII decimal digits.
pub open spec fn is_digit(c: char) -> bool {
    '0' <= c <= '9'
}

/// Whether every character of `s` is a decimal digit.
pub open spec fn all_digits(s: Seq<char>) -> bool {
    forall|i: int| 0 <= i < s.len() ==> is_digit(#[trigger] s[i])
}

/// The value of a decimal digit.
pub open spec fn digit_value(c: char) -> int {
    c as int - 48
}

/// The digit that stands for `d`, for `d` below ten.
pub open spec fn digit_char(d: int) -> char {
    if d == 0 {
        '0'
    } else if d == 1 {
        '1'
    } else if d == 2 {
        '2'
    } else if d == 3 {
        '3'
    } else if d == 4 {
        '4'
    } else if d == 5 {
        '5'
    } else if d == 6 {
        '6'
    } else if d == 7 {
        '7'
    } else if d == 8 {
        '8'
    } else {
        '9'
    }
}

/// The number that a run of decimal digits denotes.
pub open spec fn decimal_value(s: Seq<char>) -> int
    decreases s.len(),
{
    if s.len() == 0 {
        0
    } else {
        decimal_value(s.drop_last()) * 10 + digit_value(s.last())
    }
}

/// The shortest decimal notation of `n`.
pub open spec fn decimal(n: nat) -> Seq<char>
    decreases n,
{
    if n < 10 {
        seq![digit_char(n as int)]
    } else {
        decimal(n / 10).push(digit_char((n % 10) as int))
    }
}

/// What a text denotes as an unsigned 32-bit number: an optional `+`, then
/// one or more decimal digits whose value fits.
pub open spec fn parse_u32(s: Seq<char>) -> Option<u32> {
    let body = if s.len() > 0 && s[0] == '+' {
        s.skip(1)
    } else {
        s
    };
    if body.len() > 0 && all_digits(body) && decimal_value(body) <= u32::MAX {
        Some(decimal_value(body) as u32)
    } else {
        None
    }
}

/// The value of a run of digits never shrinks when digits are appended.
pub proof fn lemma_decimal_value_grows(s: Seq<char>, k: int)
    requires
        all_digits(s),
        0 <= k <= s.len(),
    ensures
        0 <= decimal_value(s.take(k)) <= decimal_value(s),
    decreases s.len() - k,
{
    lemma_decimal_value_nonnegative(s.take(k));
    if k < s.len() {
        lemma_decimal_value_grows(s, k + 1);
        let t = s.take(k + 1);
        assert(t.drop_last() =~= s.take(k));
        assert(is_digit(s[k]));
        assert(t.last() == s[k]);
    } else {
        assert(s.take(k) =~= s);
    }
}

/// A run of digits denotes a natural number.
pub proof fn lemma_decimal_value_nonnegative(s: Seq<char>)
    requires
        all_digits(s),
    ensures
        0 <= decimal_value(s),
    decreases s.len(),
{
    if s.len() > 0 {
        let t = s.drop_last();
        assert forall|i: int| 0 <= i < t.len() implies is_digit(#[trigger] t[i]) by {
            assert(t[i] == s[i]);
        }
        lemma_decimal_value_nonnegative(t);
        assert(is_digit(s[s.len() - 1]));
    }
}

/// The decimal notation of a number is a non-empty run of digits that
/// denotes the number.
pub proof fn lemma_decimal_round_trip(n: nat)
    ensures
        decimal(n).len() >= 1,
        all_digits(decimal(n)),
        decimal_value(decimal(n)) == n,
    decreases n,
{
    if n < 10 {
        let s = decimal(n);
        assert(s.drop_last() =~= Seq::<char>::empty());
        assert(s.last() == digit_char(n as int));
        assert(decimal_value(s.drop_last()) == 0);
        assert(digit_value(digit_char(n as int)) == n);
    } else {
        lemma_decimal_round_trip(n / 10);
        let s = decimal(n);
        let d = digit_char((n % 10) as int);
        assert(s.drop_last() =~= decimal(n / 10));
        assert(s.last() == d);
        assert(digit_value(d) == n % 10);
        assert(decimal_value(s) == decimal_value(decimal(n / 10)) * 10 + digit_value(d));
        assert forall|i: int| 0 <= i < s.len() implies is_digit(#[trigger] s[i]) by {
            if i < s.len() - 1 {
                assert(s[i] == decimal(n / 10)[i]);
            }
        }
    }
}

/// Reading back the decimal notation of a 32-bit number gives the number,
/// with or without white space around it.
pub proof fn lemma_parse_decimal(n: u32)
    ensures
        trim(decimal(n as nat)) == decimal(n as nat),
        parse_u32(decimal(n as nat)) == Some(n),
        !has_char(decimal(n as nat), ':'),
{
    let s = decimal(n as nat);
    lemma_decimal_round_trip(n as nat);
    assert(is_digit(s[0]));
    assert forall|i: int| 0 <= i < s.len() implies !is_space(#[trigger] s[i]) by {
        assert(is_digit(s[i]));
    }
    lemma_trim_plain(s);
    assert forall|i: int| 0 <= i < s.len() implies s[i] != ':' by {
        assert(is_digit(s[i]));
    }
}

fn digit_text(d: u32) -> (r: &'static str)
    requires
        d < 10,
    ensures
        r@ == seq![digit_char(d as int)],
{
    proof {
        reveal_strlit("0");
        reveal_strlit("1");
        reveal_strlit("2");
        reveal_strlit("3");
        reveal_strlit("4");
        reveal_strlit("5");
        reveal_strlit("6");
        reveal_strlit("7");
        reveal_strlit("8");
        reveal_strlit("9");
    }
    let r = if d == 0 {
        "0"
    } else if d == 1 {
        "1"
    } else if d == 2 {
        "2"
    } else if d == 3 {
        "3"
    } else if d == 4 {
        "4"
    } else if d == 5 {
        "5"
    } else if d == 6 {
        "6"
    } else if d == 7 {
        "7"
    } else if d == 8 {
        "8"
    } else {
        "9"
    };
    assert(r@ =~= seq![digit_char(d as int)]);
    r
}

/// Appends the decimal notation of `n` to `out`.
pub fn push_decimal(out: &mut String, n: u32)
    ensures
        final(out)@ == old(out)@ + decimal(n as nat),
    decreases n,
{
    if n >= 10 {
        push_decimal(out, n / 10);
    }
    out.append(digit_text(n % 10));
    proof {
        if n >= 10 {
            assert(decimal(n as nat) =~= decimal((n / 10) as nat) + seq![
                digit_char((n % 10) as int),
            ]);
        }
    }
}

/// The decimal notation of `n`.
pub fn decimal_text(n: u32) -> (out: String)
    ensures
        out@ == decimal(n as nat),
{
    let mut out = String::new();
    push_decimal(&mut out, n);
    out
}

/// Reads an unsigned 32-bit number: an optional `+`, then decimal digits.
pub fn parse_u32_text(s: &str) -> (r: Option<u32>)
    ensures
        r == parse_u32(s@),
{
    let chars = chars_of(s);
    let start: usize = if chars.len() > 0 && chars[0] == '+' {
        1
    } else {
        0
    };
    if start == chars.len() {
        return None;
    }
    let ghost body = s@.skip(start as int);
    proof {
        if start == 0 {
            assert(body =~= s@);
        }
    }
    let mut acc: u64 = 0;
    let mut i: usize = start;
    assert(body.take(0) =~= Seq::<char>::empty());
    while i < chars.len()
        invariant
            chars@ == s@,
            start <= i <= chars.len(),
            body == s@.skip(start as int),
            start == 0 ==> body == s@,
            start == 1 <==> s@.len() > 0 && s@[0] == '+',
            start <= 1,
            body.len() > 0,
            all_digits(body.take(i - start)),
            acc == decimal_value(body.take(i - start)),
            acc <= u32::MAX,
        decreases chars.len() - i,
    {
        let c = chars[i];
        proof {
            let t = body.take(i - start + 1);
            assert(t.drop_last() =~= body.take(i - start));
            assert(t.last() == c);
            assert(body[i - start] == c);
        }
        if !('0' <= c && c <= '9') {
            assert(!all_digits(body));
            return None;
        }
        let d: u64 = (c as u32 - 48) as u64;
        let next: u64 = acc * 10 + d;
        proof {
            let t = body.take(i - start + 1);
            assert forall|k: int| 0 <= k < t.len() implies is_digit(#[trigger] t[k]) by {
                if k < i - start {
                    assert(t[k] == body.take(i - start)[k]);
                }
            }
        }
        if next > 0xffff_ffff {
            proof {
                if all_digits(body) {
                    lemma_decimal_value_grows(body, i - start + 1);
                }
            }
            return None;
        }
        acc = next;
        i += 1;
    }
    assert(body.take(i - start) =~= body);
    Some(acc as u32)
}

} // verus!
