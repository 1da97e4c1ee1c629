//! Helpers on strings, stated over their sequences of characters: equality,
//! decimal numbers, splitting at a separator and padding.

use vstd::prelude::*;
use vstd::string::*;
use vstd::utf8::*;

verus! {

/// The characters of an optional string.
pub open spec fn opt_text(o: Option<String>) -> Option<Seq<char>> {
    match o {
        Some(s) => Some(s@),
        None => None,
    }
}

/// The character that writes a decimal digit.
pub open spec fn digit_char(d: nat) -> char
    recommends
        d < 10,
{
    if d == 0 {
        '0'
    } else if d == 1 {
        '1'
    } else if d == 2 {
        '2'
    } else if d == 3 {
        '3'
    } else if d == 4 {
        '4'
    } else if d == 5 {
        '5'
    } else if d == 6 {
        '6'
    } else if d == 7 {
        '7'
    } else if d == 8 {
        '8'
    } else {
        '9'
    }
}

/// Whether a character is one of the ten ASCII digits.
pub open spec fn is_digit(c: char) -> bool {
    '0' <= c && c <= '9'
}

/// The value of an ASCII digit.
pub open spec fn digit_value(c: char) -> nat
    recommends
        is_digit(c),
{
    (c as nat - '0' as nat) as nat
}

/// Whether every character of `s` is an ASCII digit.
pub open spec fn all_digits(s: Seq<char>) -> bool {
    forall|i: int| 0 <= i < s.len() ==> is_digit(#[trigger] s[i])
}

/// The number that a sequence of digits writes in base ten.
pub open spec fn digits_value(s: Seq<char>) -> nat
    decreases s.len(),
{
    if s.len() == 0 {
        0
    } else {
        digits_value(s.drop_last()) * 10 + digit_value(s.last())
    }
}

/// The shortest decimal writing of `n`.
pub open spec fn decimal_spec(n: nat) -> Seq<char>
    decreases n,
{
    if n < 10 {
        seq![digit_char(n)]
    } else {
        decimal_spec(n / 10).push(digit_char(n % 10))
    }
}

/// The decimal writing of `n`, with a leading zero where it has one digit only.
pub open spec fn two_digit_spec(n: nat) -> Seq<char> {
    if n < 10 {
        seq!['0', digit_char(n)]
    } else {
        decimal_spec(n)
    }
}

/// What reading `s` as a 16-bit unsigned number gives: an optional plus sign,
/// then one digit or more, and a value that fits.
pub open spec fn parse_u16_spec(s: Seq<char>) -> Option<u16> {
    let body = if s.len() > 0 && s[0] == '+' {
        s.skip(1)
    } else {
        s
    };
    if body.len() > 0 && all_digits(body) && digits_value(body) <= u16::MAX {
        Some(digits_value(body) as u16)
    } else {
        None
    }
}

/// What reading `s` as an unsigned number of the machine's word size gives:
/// an optional plus sign, then one digit or more, and a value that fits.
pub open spec fn parse_usize_spec(s: Seq<char>) -> Option<usize> {
    let body = if s.len() > 0 && s[0] == '+' {
        s.skip(1)
    } else {
        s
    };
    if body.len() > 0 && all_digits(body) && digits_value(body) <= usize::MAX {
        Some(digits_value(body) as usize)
    } else {
        None
    }
}

/// The pieces of `s` between the occurrences of `sep`; there is always one piece at least.
pub open spec fn split_spec(s: Seq<char>, sep: char) -> Seq<Seq<char>>
    decreases s.len(),
{
    if s.len() == 0 {
        seq![Seq::<char>::empty()]
    } else {
        let before = split_spec(s.drop_last(), sep);
        if s.last() == sep {
            before.push(Seq::<char>::empty())
        } else {
            before.drop_last().push(before.last().push(s.last()))
        }
    }
}

/// The non-empty pieces of a path between its slashes.
pub open spec fn components_spec(path: Seq<char>) -> Seq<Seq<char>> {
    split_spec(path, '/').filter(|piece: Seq<char>| piece.len() > 0)
}

/// Whether a text can name an entry of a directory: it is one normal part of
/// a path, so not empty, not `.` or `..`, and without a slash or a NUL.
pub open spec fn is_dir_name(name: Seq<char>) -> bool {
    &&& name.len() > 0
    &&& name != seq!['.']
    &&& name != seq!['.', '.']
    &&& forall|i: int| 0 <= i < name.len() ==> name[i] != '/' && name[i] != '\0'
}

/// Whether each of the texts can name an entry of a directory.
pub open spec fn all_dir_names(names: Seq<Seq<char>>) -> bool {
    forall|i: int| 0 <= i < names.len() ==> is_dir_name(#[trigger] names[i])
}

/// A path under `base`: the two joined by a slash.
pub open spec fn join_spec(base: Seq<char>, name: Seq<char>) -> Seq<char> {
    base + seq!['/'] + name
}

/// `n` blanks.
pub open spec fn blanks(n: nat) -> Seq<char> {
    Seq::new(n, |i: int| ' ')
}

/// Whether `a` comes before `b`, or equals it, in the order of a dictionary.
pub open spec fn text_le(a: Seq<char>, b: Seq<char>) -> bool
    decreases a.len(),
{
    if a.len() == 0 {
        true
    } else if b.len() == 0 {
        false
    } else if a[0] != b[0] {
        a[0] < b[0]
    } else {
        text_le(a.skip(1), b.skip(1))
    }
}

/// Two texts without the separator, with the separator between them, are
/// cut into these two.
pub proof fn lemma_split_pair(a: Seq<char>, b: Seq<char>, sep: char)
    requires
        !a.contains(sep),
        !b.contains(sep),
    ensures
        split_spec(a + seq![sep] + b, sep) == seq![a, b],
    decreases b.len(),
{
    let s = a + seq![sep] + b;
    if b.len() == 0 {
        assert(s.drop_last() =~= a);
        lemma_split_plain(a, sep);
        assert(b =~= Seq::<char>::empty());
    } else {
        let shorter = b.drop_last();
        lemma_split_pair(a, shorter, sep);
        assert(s.drop_last() =~= a + seq![sep] + shorter);
        assert(shorter.push(b.last()) =~= b);
    }
}

/// A text without the separator is its own single piece.
pub proof fn lemma_split_plain(s: Seq<char>, sep: char)
    requires
        !s.contains(sep),
    ensures
        split_spec(s, sep) == seq![s],
    decreases s.len(),
{
    if s.len() > 0 {
        let t = s.drop_last();
        lemma_split_plain(t, sep);
        assert(t.push(s.last()) =~= s);
    } else {
        assert(s =~= Seq::<char>::empty());
    }
}

/// The decimal writing of a number is made of digits, and is worth the number.
pub proof fn lemma_decimal_digits(n: nat)
    ensures
        decimal_spec(n).len() >= 1,
        all_digits(decimal_spec(n)),
        digits_value(decimal_spec(n)) == n,
        n >= 10 ==> decimal_spec(n).len() >= 2,
        decimal_spec(n)[0] != '+',
    decreases n,
{
    if n < 10 {
        let s = decimal_spec(n);
        assert(digits_value(s.drop_last()) == 0);
    } else {
        lemma_decimal_digits(n / 10);
        let p = decimal_spec(n / 10);
        let s = decimal_spec(n);
        assert(s.drop_last() =~= p);
    }
}

/// Reading back the two-digit writing of a number gives the number.
pub proof fn lemma_parse_two_digit(n: u16)
    ensures
        parse_u16_spec(two_digit_spec(n as nat)) == Some(n),
{
    let s = two_digit_spec(n as nat);
    if n < 10 {
        let t = s.drop_last();
        assert(digits_value(t.drop_last()) == 0);
        assert(digits_value(t) == 0);
    } else {
        lemma_decimal_digits(n as nat);
    }
}

/// Tells whether two string slices hold the same characters.
pub fn same_text(a: &str, b: &str) -> (r: bool)
    ensures
        r == (a@ == b@),
{
    let x = a.as_bytes();
    let y = b.as_bytes();
    proof {
        encode_utf8_decode_utf8(a@);
        encode_utf8_decode_utf8(b@);
    }
    if x.len() != y.len() {
        return false;
    }
    let mut i: usize = 0;
    while i < x.len()
        invariant
            i <= x@.len(),
            x@.len() == y@.len(),
            x@ == a.spec_bytes(),
            y@ == b.spec_bytes(),
            forall|k: int| 0 <= k < i ==> x@[k] == y@[k],
        decreases x@.len() - i,
    {
        if x[i] != y[i] {
            return false;
        }
        i += 1;
    }
    assert(x@ =~= y@);
    true
}

/// Copies an optional string.
pub fn copy_opt_text(a: &Option<String>) -> (r: Option<String>)
    ensures
        opt_text(r) == opt_text(*a),
{
    match a {
        Some(x) => Some(x.clone()),
        None => None,
    }
}

/// Copies a string slice into a vector of its characters.
pub fn chars_of(s: &str) -> (r: Vec<char>)
    ensures
        r@ == s@,
{
    let mut out: Vec<char> = Vec::new();
    for c in it: s.chars()
        invariant
            out@ == it.seq().take(it.index()),
    {
        out.push(c);
    }
    out
}

/// The text of one decimal digit.
fn digit_text(d: u16) -> (r: &'static str)
    requires
        d < 10,
    ensures
        r@ == seq![digit_char(d as nat)],
{
    proof {
        reveal_strlit("0");
        reveal_strlit("1");
        reveal_strlit("2");
        reveal_strlit("3");
        reveal_strlit("4");
        reveal_strlit("5");
        reveal_strlit("6");
        reveal_strlit("7");
        reveal_strlit("8");
        reveal_strlit("9");
    }
    let r = if d == 0 {
        "0"
    } else if d == 1 {
        "1"
    } else if d == 2 {
        "2"
    } else if d == 3 {
        "3"
    } else if d == 4 {
        "4"
    } else if d == 5 {
        "5"
    } else if d == 6 {
        "6"
    } else if d == 7 {
        "7"
    } else if d == 8 {
        "8"
    } else {
        "9"
    };
    r
}

/// Writes `n` in base ten.
pub fn decimal(n: u16) -> (r: String)
    ensures
        r@ == decimal_spec(n as nat),
    decreases n,
{
    if n < 10 {
        digit_text(n).to_owned()
    } else {
        let head = decimal(n / 10);
        let r = head.concat(digit_text(n % 10));
        r
    }
}

/// Writes `n` in base ten with two digits at least.
pub fn two_digit(n: u16) -> (r: String)
    ensures
        r@ == two_digit_spec(n as nat),
{
    if n < 10 {
        proof {
            reveal_strlit("0");
        }
        let r = "0".to_owned().concat(digit_text(n));
        r
    } else {
        decimal(n)
    }
}

/// Reads a 16-bit unsigned number as `str::parse` does: `None` where the
/// text is no such number.
pub fn parse_u16(s: &str) -> (r: Option<u16>)
    ensures
        r == parse_u16_spec(s@),
{
    let chars = chars_of(s);
    let start: usize = if chars.len() > 0 && chars[0] == '+' {
        1
    } else {
        0
    };
    let ghost body = chars@.skip(start as int);
    if start == chars.len() {
        return None;
    }
    let mut acc: u32 = 0;
    let mut i: usize = start;
    while i < chars.len()
        invariant
            start <= i <= chars@.len(),
            chars@ == s@,
            start < chars@.len(),
            body == (if s@.len() > 0 && s@[0] == '+' {
                s@.skip(1)
            } else {
                s@
            }),
            body == chars@.skip(start as int),
            all_digits(body.take(i - start)),
            acc == digits_value(body.take(i - start)),
            acc <= u16::MAX,
        decreases chars@.len() - i,
    {
        let c = chars[i];
        let ghost seen = body.take(i - start);
        let ghost next = body.take(i - start + 1);
        proof {
            assert(next.drop_last() =~= seen);
        }
        if !('0' <= c && c <= '9') {
            return None;
        }
        let d: u32 = c as u32 - '0' as u32;
        let value: u32 = acc * 10 + d;
        if value > 65535 {
            proof {
                lemma_digits_value_grows(body, i - start + 1);
            }
            return None;
        }
        acc = value;
        i += 1;
    }
    proof {
        assert(body.take(i - start) =~= body);
    }
    Some(acc as u16)
}

/// Reads the characters from `from` to `to` as an unsigned number of the
/// machine's word size, as `str::parse` does: `None` where they are no such
/// number.
pub fn parse_usize(chars: &Vec<char>, from: usize, to: usize) -> (r: Option<usize>)
    requires
        from <= to <= chars@.len(),
    ensures
        r == parse_usize_spec(chars@.subrange(from as int, to as int)),
{
    let ghost s = chars@.subrange(from as int, to as int);
    let start: usize = if from < to && chars[from] == '+' {
        from + 1
    } else {
        from
    };
    let ghost body = chars@.subrange(start as int, to as int);
    proof {
        assert(body =~= (if s.len() > 0 && s[0] == '+' {
            s.skip(1)
        } else {
            s
        }));
    }
    if start == to {
        return None;
    }
    let mut acc: usize = 0;
    let mut i: usize = start;
    while i < to
        invariant
            from <= start <= i <= to <= chars@.len(),
            start < to,
            s == chars@.subrange(from as int, to as int),
            body == chars@.subrange(start as int, to as int),
            body == (if s.len() > 0 && s[0] == '+' {
                s.skip(1)
            } else {
                s
            }),
            all_digits(body.take(i - start)),
            acc == digits_value(body.take(i - start)),
        decreases to - i,
    {
        let c = chars[i];
        let ghost seen = body.take(i - start);
        let ghost next = body.take(i - start + 1);
        proof {
            assert(next.drop_last() =~= seen);
        }
        if !('0' <= c && c <= '9') {
            assert(!is_digit(body[i - start]));
            return None;
        }
        let d: usize = (c as u32 - '0' as u32) as usize;
        let value = match acc.checked_mul(10) {
            Some(tens) => tens.checked_add(d),
            None => None,
        };
        match value {
            Some(value) => {
                acc = value;
            },
            None => {
                proof {
                    lemma_digits_value_grows(body, i - start + 1);
                }
                return None;
            },
        }
        i += 1;
    }
    proof {
        assert(body.take(i - start) =~= body);
    }
    Some(acc)
}

/// A digit sequence is worth at least as much as each of its beginnings.
pub proof fn lemma_digits_value_grows(s: Seq<char>, k: int)
    requires
        0 <= k <= s.len(),
    ensures
        digits_value(s.take(k)) <= digits_value(s),
    decreases s.len() - k,
{
    if k < s.len() {
        lemma_digits_value_grows(s, k + 1);
        let next = s.take(k + 1);
        assert(next.drop_last() =~= s.take(k));
    } else {
        assert(s.take(k) =~= s);
    }
}

/// Tells whether a text can name an entry of a directory.
pub fn valid_name(name: &str) -> (r: bool)
    ensures
        r == is_dir_name(name@),
{
    let chars = chars_of(name);
    if chars.len() == 0 {
        return false;
    }
    if chars.len() == 1 && chars[0] == '.' {
        assert(name@ =~= seq!['.']);
        return false;
    }
    if chars.len() == 2 && chars[0] == '.' && chars[1] == '.' {
        assert(name@ =~= seq!['.', '.']);
        return false;
    }
    assert(name@ != seq!['.']) by {
        if name@ == seq!['.'] {
            assert(seq!['.'].len() == 1 && seq!['.'][0] == '.');
        }
    }
    assert(name@ != seq!['.', '.']) by {
        if name@ == seq!['.', '.'] {
            assert(seq!['.', '.'].len() == 2 && seq!['.', '.'][0] == '.' && seq!['.', '.'][1]
                == '.');
        }
    }
    let mut i: usize = 0;
    while i < chars.len()
        invariant
            i <= chars@.len(),
            chars@ == name@,
            forall|k: int| 0 <= k < i ==> name@[k] != '/' && name@[k] != '\0',
        decreases chars@.len() - i,
    {
        if chars[i] == '/' || chars[i] == '\0' {
            return false;
        }
        i += 1;
    }
    true
}

/// Joins a directory and a name below it by a slash.
pub fn join_path(base: &str, name: &str) -> (r: String)
    ensures
        r@ == join_spec(base@, name@),
{
    proof {
        reveal_strlit("/");
    }
    let r = base.to_owned().concat("/").concat(name);
    r
}

/// A string of `n` blanks.
pub fn spaces(n: usize) -> (r: String)
    ensures
        r@ == blanks(n as nat),
{
    let mut out = String::new();
    let mut i: usize = 0;
    proof {
        reveal_strlit(" ");
    }
    while i < n
        invariant
            i <= n,
            out@ == blanks(i as nat),
            " "@ == seq![' '],
        decreases n - i,
    {
        out.append(" ");
        i += 1;
    }
    out
}

/// Cuts `s` at every occurrence of `sep`.
pub fn split(s: &str, sep: char) -> (r: Vec<String>)
    ensures
        r.deep_view() == split_spec(s@, sep),
{
    let chars = chars_of(s);
    let mut out: Vec<String> = Vec::new();
    let mut start: usize = 0;
    let mut i: usize = 0;
    proof {
        assert(s@.take(0) =~= Seq::<char>::empty());
    }
    while i < chars.len()
        invariant
            start <= i <= chars@.len(),
            chars@ == s@,
            split_spec(s@.take(i as int), sep) == out.deep_view().push(
                s@.subrange(start as int, i as int),
            ),
        decreases chars@.len() - i,
    {
        let ghost now = s@.take(i + 1);
        proof {
            assert(now.drop_last() =~= s@.take(i as int));
        }
        if chars[i] == sep {
            let piece = s.substring_char(start, i).to_owned();
            out.push(piece);
            proof {
                assert(s@.subrange(i + 1, i + 1) =~= Seq::<char>::empty());
            }
            start = i + 1;
        } else {
            proof {
                assert(s@.subrange(start as int, i + 1) =~= s@.subrange(
                    start as int,
                    i as int,
                ).push(s@[i as int]));
            }
        }
        i += 1;
    }
    let piece = s.substring_char(start, i).to_owned();
    out.push(piece);
    proof {
        assert(s@.take(i as int) =~= s@);
    }
    out
}

/// The non-empty pieces of a path between its slashes.
pub fn components(path: &str) -> (r: Vec<String>)
    ensures
        r.deep_view() == components_spec(path@),
{
    let pieces = split(path, '/');
    let mut out: Vec<String> = Vec::new();
    let ghost keep = |piece: Seq<char>| piece.len() > 0;
    let mut i: usize = 0;
    while i < pieces.len()
        invariant
            i <= pieces@.len(),
            keep == (|piece: Seq<char>| piece.len() > 0),
            out.deep_view() == pieces.deep_view().take(i as int).filter(keep),
        decreases pieces@.len() - i,
    {
        let ghost seen = pieces.deep_view().take(i as int);
        proof {
            assert(pieces.deep_view().take(i + 1) =~= seen.push(pieces@[i as int]@));
            seen.lemma_filter_push(pieces@[i as int]@, keep);
        }
        if pieces[i].as_str().unicode_len() > 0 {
            let piece = pieces[i].clone();
            out.push(piece);
        }
        i += 1;
    }
    proof {
        assert(pieces.deep_view().take(i as int) =~= pieces.deep_view());
    }
    out
}

/// Tells whether `a` comes before `b`, or equals it, in the order of a dictionary.
pub fn text_before(a: &str, b: &str) -> (r: bool)
    ensures
        r == text_le(a@, b@),
{
    let x = chars_of(a);
    let y = chars_of(b);
    let mut i: usize = 0;
    proof {
        assert(a@.skip(0) =~= a@);
        assert(b@.skip(0) =~= b@);
    }
    while i < x.len() && i < y.len()
        invariant
            i <= x@.len(),
            i <= y@.len(),
            x@ == a@,
            y@ == b@,
            text_le(a@, b@) == text_le(a@.skip(i as int), b@.skip(i as int)),
        decreases x@.len() - i,
    {
        let ghost p = a@.skip(i as int);
        let ghost q = b@.skip(i as int);
        proof {
            assert(p.skip(1) =~= a@.skip(i + 1));
            assert(q.skip(1) =~= b@.skip(i + 1));
        }
        if x[i] != y[i] {
            return x[i] < y[i];
        }
        i += 1;
    }
    i == x.len()
}

/// Whether the texts stand in the order of a dictionary.
pub open spec fn sorted(texts: Seq<Seq<char>>) -> bool {
    forall|i: int, j: int| 0 <= i < j < texts.len() ==> text_le(texts[i], texts[j])
}

/// Of two texts one comes before the other, or they are equal.
pub proof fn lemma_text_le_total(a: Seq<char>, b: Seq<char>)
    ensures
        text_le(a, b) || text_le(b, a),
    decreases a.len(),
{
    if a.len() > 0 && b.len() > 0 && a[0] == b[0] {
        lemma_text_le_total(a.skip(1), b.skip(1));
    }
}

/// The order of a dictionary goes on: what comes before one text comes
/// before all that follow it.
pub proof fn lemma_text_le_trans(a: Seq<char>, b: Seq<char>, c: Seq<char>)
    requires
        text_le(a, b),
        text_le(b, c),
    ensures
        text_le(a, c),
    decreases a.len(),
{
    if a.len() > 0 && b.len() > 0 && c.len() > 0 && a[0] == b[0] && b[0] == c[0] {
        lemma_text_le_trans(a.skip(1), b.skip(1), c.skip(1));
    }
}

/// Two texts of which each comes before the other are the same text.
pub proof fn lemma_text_le_antisym(a: Seq<char>, b: Seq<char>)
    requires
        text_le(a, b),
        text_le(b, a),
    ensures
        a == b,
    decreases a.len(),
{
    if a.len() > 0 && b.len() > 0 {
        lemma_text_le_antisym(a.skip(1), b.skip(1));
        assert(a =~= seq![a[0]] + a.skip(1));
    }
}

/// The order of a dictionary, as a relation.
pub open spec fn dictionary_order() -> spec_fn(Seq<char>, Seq<char>) -> bool {
    |a: Seq<char>, b: Seq<char>| text_le(a, b)
}

/// The texts in the order of a dictionary.
pub open spec fn sorted_texts(texts: Seq<Seq<char>>) -> Seq<Seq<char>> {
    texts.sort_by(dictionary_order())
}

/// The order of a dictionary is a total order.
pub proof fn lemma_dictionary_order_total()
    ensures
        vstd::relations::total_ordering(dictionary_order()),
{
    let r = dictionary_order();
    assert forall|x: Seq<char>, y: Seq<char>| #[trigger] r(x, y) && #[trigger] r(y, x) implies x
        == y by {
        lemma_text_le_antisym(x, y);
    }
    assert forall|x: Seq<char>, y: Seq<char>, z: Seq<char>| #[trigger]
        r(x, y) && #[trigger] r(y, z) implies r(x, z) by {
        lemma_text_le_trans(x, y, z);
    }
    assert forall|x: Seq<char>, y: Seq<char>| #[trigger] r(x, y) || #[trigger] r(y, x) by {
        lemma_text_le_total(x, y);
    }
}

/// What `sorted_texts` gives stands in the order of a dictionary and holds
/// the same texts, each as often as before.
pub proof fn lemma_sorted_texts(texts: Seq<Seq<char>>)
    ensures
        sorted(sorted_texts(texts)),
        sorted_texts(texts).to_multiset() == texts.to_multiset(),
        sorted_texts(texts).len() == texts.len(),
{
    lemma_dictionary_order_total();
    texts.lemma_sort_by_ensures(dictionary_order());
    let out = sorted_texts(texts);
    assert forall|i: int, j: int| 0 <= i < j < out.len() implies text_le(out[i], out[j]) by {
        assert(dictionary_order()(out[i], out[j]));
    }
    vstd::seq_lib::to_multiset_len(texts);
    vstd::seq_lib::to_multiset_len(out);
}

/// Puts the texts into the order of a dictionary.
pub fn sort_texts(texts: Vec<String>) -> (r: Vec<String>)
    ensures
        r.deep_view() == sorted_texts(texts.deep_view()),
{
    let mut out: Vec<String> = Vec::new();
    let mut i: usize = 0;
    proof {
        assert(texts.deep_view().take(0) =~= Seq::<Seq<char>>::empty());
        assert(out.deep_view() =~= Seq::<Seq<char>>::empty());
    }
    while i < texts.len()
        invariant
            i <= texts@.len(),
            sorted(out.deep_view()),
            out.deep_view().to_multiset() == texts.deep_view().take(i as int).to_multiset(),
        decreases texts@.len() - i,
    {
        let x = texts[i].clone();
        let mut p: usize = 0;
        while p < out.len() && text_before(out[p].as_str(), x.as_str())
            invariant
                p <= out@.len(),
                forall|k: int| 0 <= k < p ==> text_le(#[trigger] out.deep_view()[k], x@),
            decreases out@.len() - p,
        {
            p += 1;
        }
        let ghost before = out.deep_view();
        proof {
            if p < out@.len() {
                lemma_text_le_total(before[p as int], x@);
            }
        }
        out.insert(p, x);
        proof {
            let after = out.deep_view();
            assert(after =~= before.insert(p as int, x@));
            assert forall|a: int, b: int| 0 <= a < b < after.len() implies text_le(
                after[a],
                after[b],
            ) by {
                if a == p && b - 1 > p {
                    lemma_text_le_trans(x@, before[p as int], before[b - 1]);
                }
            }
            vstd::seq_lib::to_multiset_insert(before, p as int, x@);
            let seen = texts.deep_view().take(i as int);
            assert(texts.deep_view().take(i + 1) =~= seen.push(x@));
            vstd::seq_lib::to_multiset_build(seen, x@);
        }
        i += 1;
    }
    proof {
        assert(texts.deep_view().take(i as int) =~= texts.deep_view());
        lemma_dictionary_order_total();
        lemma_sorted_texts(texts.deep_view());
        let got = out.deep_view();
        let want = sorted_texts(texts.deep_view());
        vstd::seq_lib::lemma_sorted_unique(got, want, dictionary_order());
    }
    out
}

} // verus!
