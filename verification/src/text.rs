//! Character-level helpers shared by the query builders and the parsers.
use vstd::prelude::*;
use vstd::string::*;

verus! {

/// `String::push`: appends one character to the end of the string, as its
/// documentation says.
#[verifier::external_body]
pub fn push_char(s: &mut String, c: char)
    ensures
        final(s)@ == old(s)@.push(c),
{
    s.push(c);
}

/// The characters of a string slice, in order.
pub fn chars_of(s: &str) -> (v: Vec<char>)
    ensures
        v@ == s@,
{
    let mut v: Vec<char> = Vec::new();
    for c in it: s.chars()
        invariant
            v@ == it.seq().take(it.index() as int),
            it.seq() == s@,
    {
        v.push(c);
    }
    v
}

} // verus!

verus! {

/// The character of a decimal digit.
pub open spec fn digit_char(d: nat) -> char {
    if d == 0 { '0' }
    else if d == 1 { '1' }
    else if d == 2 { '2' }
    else if d == 3 { '3' }
    else if d == 4 { '4' }
    else if d == 5 { '5' }
    else if d == 6 { '6' }
    else if d == 7 { '7' }
    else if d == 8 { '8' }
    else { '9' }
}

/// The decimal digits of a natural number, most significant first, without
/// leading zeros ("0" for zero).
pub open spec fn decimal(n: nat) -> Seq<char>
    decreases n,
{
    if n < 10 {
        seq![digit_char(n)]
    } else {
        decimal(n / 10).push(digit_char(n % 10))
    }
}

/// How Rust's `Display` writes an integer: an optional minus sign followed by
/// the decimal digits of its magnitude.
pub open spec fn int_text(i: int) -> Seq<char> {
    if i < 0 {
        seq!['-'] + decimal((-i) as nat)
    } else {
        decimal(i as nat)
    }
}

fn digit_to_char(d: u64) -> (c: char)
    requires
        d < 10,
    ensures
        c == digit_char(d as nat),
{
    if d == 0 { '0' }
    else if d == 1 { '1' }
    else if d == 2 { '2' }
    else if d == 3 { '3' }
    else if d == 4 { '4' }
    else if d == 5 { '5' }
    else if d == 6 { '6' }
    else if d == 7 { '7' }
    else if d == 8 { '8' }
    else { '9' }
}

fn push_decimal(s: &mut String, n: u64)
    ensures
        final(s)@ == old(s)@ + decimal(n as nat),
    decreases n,
{
    if n >= 10 {
        push_decimal(s, n / 10);
    }
    push_char(s, digit_to_char(n % 10));
    proof {
        if n >= 10 {
            assert(decimal(n as nat) == decimal((n / 10) as nat).push(digit_char((n % 10) as nat)));
        }
    }
}

/// Appends the decimal text of `v` to `s`.
pub fn push_int(s: &mut String, v: i64)
    ensures
        final(s)@ == old(s)@ + int_text(v as int),
{
    if v < 0 {
        push_char(s, '-');
        let m: u64 = if v == i64::MIN { 9223372036854775808u64 } else { (-v) as u64 };
        push_decimal(s, m);
        assert(old(s)@.push('-') + decimal(m as nat) =~= old(s)@ + (seq!['-'] + decimal(m as nat)));
    } else {
        push_decimal(s, v as u64);
    }
}

/// The decimal text of an integer, as `to_string` writes it.
pub fn int_to_string(v: i64) -> (s: String)
    ensures
        s@ == int_text(v as int),
{
    let mut s = String::new();
    push_int(&mut s, v);
    assert(Seq::<char>::empty() + int_text(v as int) =~= int_text(v as int));
    s
}

} // verus!

verus! {

/// Whether a character is one of the ASCII digits `0`..`9`.
pub open spec fn is_digit(c: char) -> bool {
    '0' <= c && c <= '9'
}

/// The value of a digit character.
pub open spec fn digit_value(c: char) -> int {
    (c as int) - ('0' as int)
}

/// Whether every character of `s` is a digit.
pub open spec fn all_digits(s: Seq<char>) -> bool {
    forall|i: int| 0 <= i < s.len() ==> is_digit(#[trigger] s[i])
}

/// The value of a run of decimal digits, most significant first.
pub open spec fn digits_value(s: Seq<char>) -> int
    decreases s.len(),
{
    if s.len() == 0 {
        0
    } else {
        digits_value(s.drop_last()) * 10 + digit_value(s.last())
    }
}

/// The unsigned part of a numeral: the text after one leading sign, if any.
pub open spec fn numeral_body(s: Seq<char>) -> Seq<char> {
    if s.len() > 0 && (s[0] == '-' || s[0] == '+') {
        s.drop_first()
    } else {
        s
    }
}

/// Whether a numeral starts with a minus sign.
pub open spec fn numeral_negative(s: Seq<char>) -> bool {
    s.len() > 0 && s[0] == '-'
}

/// What `str::parse::<i32>` gives: an optional `+` or `-`, then at least one
/// decimal digit and nothing else, whose value fits in an `i32`.
pub open spec fn parse_i32_spec(s: Seq<char>) -> Option<i32> {
    let body = numeral_body(s);
    let magnitude = digits_value(body);
    let value = if numeral_negative(s) { -magnitude } else { magnitude };
    if body.len() == 0 || !all_digits(body) {
        None
    } else if value < i32::MIN || value > i32::MAX {
        None
    } else {
        Some(value as i32)
    }
}

proof fn lemma_digits_value_nonneg(s: Seq<char>)
    requires
        all_digits(s),
    ensures
        digits_value(s) >= 0,
    decreases s.len(),
{
    if s.len() > 0 {
        assert(all_digits(s.drop_last())) by {
            assert forall|i: int| 0 <= i < s.drop_last().len() implies is_digit(#[trigger] s.drop_last()[i]) by {
                assert(s.drop_last()[i] == s[i]);
            }
        }
        lemma_digits_value_nonneg(s.drop_last());
        assert(is_digit(s[s.len() - 1]));
    }
}

/// The value of a run of digits never falls when the run grows.
proof fn lemma_digits_value_prefix(s: Seq<char>, i: int)
    requires
        all_digits(s),
        0 <= i <= s.len(),
    ensures
        digits_value(s.take(i)) <= digits_value(s),
    decreases s.len() - i,
{
    if i < s.len() {
        lemma_digits_value_prefix(s, i + 1);
        let t = s.take(i + 1);
        assert(t.drop_last() =~= s.take(i));
        assert(all_digits(s.take(i))) by {
            assert forall|k: int| 0 <= k < s.take(i).len() implies is_digit(#[trigger] s.take(i)[k]) by {
                assert(s.take(i)[k] == s[k]);
            }
        }
        lemma_digits_value_nonneg(s.take(i));
        assert(is_digit(s[i]));
        assert(t.last() == s[i]);
    } else {
        assert(s.take(i) =~= s);
    }
}

/// Parses a decimal `i32` the way `str::parse::<i32>` does.
pub fn parse_i32(s: &str) -> (r: Option<i32>)
    ensures
        r == parse_i32_spec(s@),
{
    let cs = chars_of(s);
    let n = cs.len();
    let negative = n > 0 && cs[0] == '-';
    let start: usize = if n > 0 && (cs[0] == '-' || cs[0] == '+') { 1 } else { 0 };
    let ghost body = numeral_body(s@);
    assert(body =~= cs@.subrange(start as int, n as int));
    if start == n {
        return None;
    }
    let mut acc: u64 = 0;
    let mut i = start;
    while i < n
        invariant
            start <= i <= n,
            n == cs@.len(),
            cs@ == s@,
            body == cs@.subrange(start as int, n as int),
            body == numeral_body(s@),
            body.len() > 0,
            all_digits(body.take(i - start)),
            acc as int == digits_value(body.take(i - start)),
            acc <= 2147483648,
        decreases n - i,
    {
        let c = cs[i];
        if !('0' <= c && c <= '9') {
            assert(body[i - start] == c);
            assert(!is_digit(body[i - start]));
            assert(!all_digits(body));
            return None;
        }
        let d: u64 = (c as u32 - '0' as u32) as u64;
        let ghost prefix = body.take(i - start);
        let ghost next = body.take(i - start + 1);
        assert(next.drop_last() =~= prefix);
        assert(next.last() == c);
        assert(all_digits(next)) by {
            assert forall|k: int| 0 <= k < next.len() implies is_digit(#[trigger] next[k]) by {
                if k < prefix.len() {
                    assert(next[k] == prefix[k]);
                }
            }
        }
        acc = acc * 10 + d;
        i = i + 1;
        if acc > 2147483648 {
            proof {
                if all_digits(body) {
                    lemma_digits_value_prefix(body, i - start);
                    assert(digits_value(body) > 2147483648);
                }
                assert(body.len() > 0);
            }
            return None;
        }
    }
    assert(body.take(n - start) =~= body);
    if negative {
        let v: i64 = -(acc as i64);
        Some(v as i32)
    } else if acc > 2147483647 {
        None
    } else {
        Some(acc as i32)
    }
}

} // verus!

verus! {

/// Whether two string slices hold the same characters.
pub fn str_eq(a: &str, b: &str) -> (r: bool)
    ensures
        r == (a@ == b@),
{
    let x = chars_of(a);
    let y = chars_of(b);
    chars_eq(&x, &y)
}

/// Whether two character vectors are equal.
pub fn chars_eq(x: &Vec<char>, y: &Vec<char>) -> (r: bool)
    ensures
        r == (x@ == y@),
{
    if x.len() != y.len() {
        return false;
    }
    let mut i: usize = 0;
    while i < x.len()
        invariant
            x@.len() == y@.len(),
            i <= x@.len(),
            forall|k: int| 0 <= k < i ==> x@[k] == y@[k],
        decreases x@.len() - i,
    {
        if x[i] != y[i] {
            return false;
        }
        i = i + 1;
    }
    assert(x@ =~= y@);
    true
}

/// Whether the characters `x[from..to]` spell the string slice `b`.
pub fn chars_range_eq(x: &Vec<char>, from: usize, to: usize, b: &str) -> (r: bool)
    requires
        from <= to <= x@.len(),
    ensures
        r == (x@.subrange(from as int, to as int) == b@),
{
    let y = chars_of(b);
    if to - from != y.len() {
        return false;
    }
    let mut i: usize = 0;
    while i < y.len()
        invariant
            from <= to <= x@.len(),
            to - from == y@.len(),
            y@ == b@,
            i <= y@.len(),
            forall|k: int| 0 <= k < i ==> x@[from + k] == y@[k],
        decreases y@.len() - i,
    {
        if x[from + i] != y[i] {
            assert(x@.subrange(from as int, to as int)[i as int] == x@[from + i]);
            assert(x@.subrange(from as int, to as int)[i as int] != y@[i as int]);
            return false;
        }
        i = i + 1;
    }
    assert(x@.subrange(from as int, to as int) =~= y@);
    true
}

/// A new string holding the characters `x[from..to]`.
pub fn string_from_range(x: &Vec<char>, from: usize, to: usize) -> (s: String)
    requires
        from <= to <= x@.len(),
    ensures
        s@ == x@.subrange(from as int, to as int),
{
    let mut s = String::new();
    let mut i = from;
    while i < to
        invariant
            from <= i <= to <= x@.len(),
            s@ == x@.subrange(from as int, i as int),
        decreases to - i,
    {
        push_char(&mut s, x[i]);
        assert(x@.subrange(from as int, i + 1) =~= x@.subrange(from as int, i as int).push(x@[i as int]));
        i = i + 1;
    }
    s
}

/// The position of the first `c` in `s`, or the length of `s` when there is none.
pub open spec fn char_index(s: Seq<char>, c: char) -> nat
    decreases s.len(),
{
    if s.len() == 0 {
        0
    } else if s[0] == c {
        0
    } else {
        1 + char_index(s.drop_first(), c)
    }
}

/// `char_index` is the first position holding `c`.
pub proof fn lemma_char_index(s: Seq<char>, c: char, k: int)
    requires
        0 <= k <= s.len(),
        k < s.len() ==> s[k] == c,
        forall|j: int| 0 <= j < k ==> s[j] != c,
    ensures
        char_index(s, c) == k,
    decreases s.len(),
{
    if s.len() > 0 && k > 0 {
        assert forall|j: int| 0 <= j < k - 1 implies s.drop_first()[j] != c by {
            assert(s.drop_first()[j] == s[j + 1]);
        }
        lemma_char_index(s.drop_first(), c, k - 1);
    }
}

/// `char_index` never points past the end.
pub proof fn lemma_char_index_bound(s: Seq<char>, c: char)
    ensures
        char_index(s, c) <= s.len(),
    decreases s.len(),
{
    if s.len() > 0 && s[0] != c {
        lemma_char_index_bound(s.drop_first(), c);
    }
}

/// Whether `s` holds the character `c`.
pub open spec fn has_char(s: Seq<char>, c: char) -> bool {
    char_index(s, c) < s.len()
}

/// Finds the first `c` in `x[from..]`, or gives `x.len()` when there is none.
pub fn find_char(x: &Vec<char>, from: usize, c: char) -> (k: usize)
    requires
        from <= x@.len(),
    ensures
        from <= k <= x@.len(),
        k - from == char_index(x@.skip(from as int), c),
{
    let mut k = from;
    while k < x.len() && x[k] != c
        invariant
            from <= k <= x@.len(),
            forall|j: int| from <= j < k ==> x@[j] != c,
        decreases x@.len() - k,
    {
        k = k + 1;
    }
    proof {
        let s = x@.skip(from as int);
        assert forall|j: int| 0 <= j < k - from implies s[j] != c by {
            assert(s[j] == x@[from + j]);
        }
        lemma_char_index(s, c, k - from);
    }
    k
}

} // verus!

verus! {

/// The characters of each string in a sequence.
pub open spec fn strings_view(v: Seq<String>) -> Seq<Seq<char>> {
    v.map_values(|s: String| s@)
}

/// Appends a copy of `msg` to a list of strings.
pub fn push_str_copy(v: &mut Vec<String>, msg: &str)
    ensures
        strings_view(final(v)@) == strings_view(old(v)@).push(msg@),
{
    v.push(String::from_str(msg));
    assert(strings_view(v@) =~= strings_view(old(v)@).push(msg@));
}

/// Appends a string to a list of strings.
pub fn push_string(v: &mut Vec<String>, s: String)
    ensures
        strings_view(final(v)@) == strings_view(old(v)@).push(s@),
{
    let ghost sv = s@;
    v.push(s);
    assert(strings_view(v@) =~= strings_view(old(v)@).push(sv));
}

/// Moves every string of `w` to the end of `v`.
pub fn append_strings(v: &mut Vec<String>, w: &mut Vec<String>)
    ensures
        strings_view(final(v)@) == strings_view(old(v)@) + strings_view(old(w)@),
{
    let ghost ov = v@;
    let ghost ow = w@;
    v.append(w);
    assert(v@ == ov + ow);
    assert(strings_view(v@) =~= strings_view(ov) + strings_view(ow));
}

} // verus!

verus! {

/// For a `flag=value` argument, the text before the first `=`.
pub open spec fn arg_key(arg: Seq<char>) -> Seq<char> {
    arg.take(char_index(arg, '=') as int)
}

/// For a `flag=value` argument, the text between the first `=` and the next
/// `=` (or the end): the second piece of `arg.split('=')`.
pub open spec fn arg_value(arg: Seq<char>) -> Seq<char> {
    let rest = arg.skip(char_index(arg, '=') as int + 1);
    rest.take(char_index(rest, '=') as int)
}

/// Locates the key and the value of a `flag=value` argument: `None` when the
/// argument holds no `=`, otherwise the positions `(k, m)` such that the key
/// is `arg[..k]` and the value is `arg[k + 1..m]`.
pub fn argument_parts(arg: &Vec<char>) -> (r: Option<(usize, usize)>)
    ensures
        r is None <==> !has_char(arg@, '='),
        r matches Some((k, m)) ==> {
            &&& k < m + 1 && m <= arg@.len()
            &&& k + 1 <= m
            &&& arg@.subrange(0, k as int) == arg_key(arg@)
            &&& arg@.subrange(k + 1, m as int) == arg_value(arg@)
        },
{
    let k = find_char(arg, 0, '=');
    assert(arg@.skip(0) =~= arg@);
    if k == arg.len() {
        return None;
    }
    let m = find_char(arg, k + 1, '=');
    assert(arg@.subrange(0, k as int) =~= arg_key(arg@));
    assert(arg@.subrange(k + 1, m as int) =~= arg_value(arg@));
    Some((k, m))
}

} // verus!

verus! {

/// What one command-line argument does to the settings parsed so far.
pub enum ArgStep<T, E> {
    /// Parsing goes on with the new settings.
    Continue(T),
    /// Parsing ends here with the new settings.
    Stop(T),
    /// The argument is rejected.
    Fail(E),
}

/// What a whole list of command-line arguments comes to.
pub enum ArgsOutcome<T, E> {
    /// Every argument was read.
    Finished(T),
    /// An argument ended the parsing early.
    Stopped(T),
    /// An argument was rejected.
    Failed(E),
}

/// The executable side of [`ArgStep`]: what the caller does next.
#[derive(PartialEq, Eq, Structural, Debug)]
pub enum StepKind<E> {
    Continue,
    Stop,
    Fail(E),
}

} // verus!

verus! {

/// How `Display` writes a `bool`.
pub open spec fn bool_text(b: bool) -> Seq<char> {
    if b { "true"@ } else { "false"@ }
}

/// Appends the text of a `bool` to `s`.
pub fn push_bool(s: &mut String, b: bool)
    ensures
        final(s)@ == old(s)@ + bool_text(b),
{
    if b {
        s.append("true");
    } else {
        s.append("false");
    }
}

/// `prefix` followed by `rest`, as a new string.
pub fn concat_str(prefix: &str, rest: &str) -> (s: String)
    ensures
        s@ == prefix@ + rest@,
{
    let mut s = String::from_str(prefix);
    s.append(rest);
    s
}

} // verus!

verus! {

/// The pieces written one after another.
pub open spec fn concat_all(pieces: Seq<Seq<char>>) -> Seq<char>
    decreases pieces.len(),
{
    if pieces.len() == 0 {
        Seq::empty()
    } else {
        concat_all(pieces.drop_last()) + pieces.last()
    }
}

/// The pieces written one after another with `sep` between neighbours, as
/// `join` on a slice of strings gives them.
pub open spec fn join(pieces: Seq<Seq<char>>, sep: Seq<char>) -> Seq<char>
    decreases pieces.len(),
{
    if pieces.len() == 0 {
        Seq::empty()
    } else if pieces.len() == 1 {
        pieces[0]
    } else {
        join(pieces.drop_last(), sep) + sep + pieces.last()
    }
}

/// A string without its last character, as `String::pop` leaves it (an
/// empty string stays empty).
pub open spec fn drop_last_char(s: Seq<char>) -> Seq<char> {
    if s.len() == 0 { s } else { s.drop_last() }
}

/// Removes the last character of a string, if there is one.
pub fn pop_char(s: &mut String)
    ensures
        final(s)@ == drop_last_char(old(s)@),
{
    let cs = chars_of(s.as_str());
    if cs.len() > 0 {
        *s = string_from_range(&cs, 0, cs.len() - 1);
        assert(cs@.subrange(0, cs@.len() - 1) =~= cs@.drop_last());
    }
}

} // verus!

verus! {

/// Appends the decimal text of a count to `s`.
pub fn push_count(s: &mut String, n: usize)
    ensures
        final(s)@ == old(s)@ + decimal(n as nat),
{
    push_decimal(s, n as u64);
}

} // verus!

verus! {

proof fn lemma_digit_char(d: nat)
    requires
        d < 10,
    ensures
        is_digit(digit_char(d)),
        digit_value(digit_char(d)) == d,
{
}

proof fn lemma_decimal(n: nat)
    ensures
        decimal(n).len() > 0,
        all_digits(decimal(n)),
        digits_value(decimal(n)) == n,
    decreases n,
{
    lemma_digit_char(n % 10);
    if n >= 10 {
        lemma_decimal(n / 10);
        let s = decimal(n / 10);
        let t = decimal(n);
        assert(t == s.push(digit_char(n % 10)));
        assert(t.drop_last() =~= s);
        assert(t.last() == digit_char(n % 10));
        assert(digits_value(t) == digits_value(s) * 10 + digit_value(t.last()));
        assert(n == (n / 10) * 10 + n % 10);
        assert forall|i: int| 0 <= i < t.len() implies is_digit(#[trigger] t[i]) by {
            if i < s.len() {
                assert(t[i] == s[i]);
            }
        }
    } else {
        let t = decimal(n);
        assert(t.drop_last() =~= Seq::<char>::empty());
        assert(t.last() == digit_char(n));
        assert(digits_value(t) == digits_value(t.drop_last()) * 10 + digit_value(t.last()));
    }
}

/// Reading back what `int_to_string` writes gives the same `i32`:
/// `parse_i32` undoes `int_to_string` on every `i32`.
pub proof fn lemma_parse_i32_reads_int_text(i: i32)
    ensures
        parse_i32_spec(int_text(i as int)) == Some(i),
{
    let s = int_text(i as int);
    if i < 0 {
        let m = (-i) as nat;
        lemma_decimal(m);
        assert(s[0] == '-');
        assert(s.drop_first() =~= decimal(m));
        assert(numeral_body(s) == decimal(m));
        assert(numeral_negative(s));
    } else {
        lemma_decimal(i as nat);
        assert(is_digit(s[0]));
        assert(numeral_body(s) == s);
        assert(!numeral_negative(s));
    }
}

} // verus!

verus! {

/// `key=value` splits back into `key` and `value` when neither holds an `=`.
pub proof fn lemma_key_value_split(key: Seq<char>, value: Seq<char>)
    requires
        forall|j: int| 0 <= j < key.len() ==> key[j] != '=',
        !has_char(value, '='),
    ensures
        has_char(key + "="@ + value, '='),
        arg_key(key + "="@ + value) == key,
        arg_value(key + "="@ + value) == value,
{
    reveal_strlit("=");
    let arg = key + "="@ + value;
    assert(arg[key.len() as int] == '=');
    assert forall|j: int| 0 <= j < key.len() implies arg[j] != '=' by {
        assert(arg[j] == key[j]);
    }
    lemma_char_index(arg, '=', key.len() as int);
    assert(arg_key(arg) =~= key);
    let rest = arg.skip(key.len() + 1int);
    assert(rest =~= value);
    lemma_char_index_bound(value, '=');
    assert(value.take(value.len() as int) =~= value);
}

/// A text none of whose characters is `=` holds no `=`.
pub proof fn lemma_no_equals_sign(s: Seq<char>)
    requires
        forall|j: int| 0 <= j < s.len() ==> s[j] != '=',
    ensures
        !has_char(s, '='),
{
    lemma_char_index(s, '=', s.len() as int);
}

} // verus!

verus! {

proof fn lemma_digit_char_value(d: nat)
    requires
        d < 10,
    ensures
        is_digit(digit_char(d)),
        digit_value(digit_char(d)) == d,
{
}

/// The decimal text of a number is made of digits, starts with a non-zero
/// digit unless the number is zero, and reads back as the number.
pub proof fn lemma_decimal_reads_back(n: nat)
    ensures
        decimal(n).len() > 0,
        all_digits(decimal(n)),
        digits_value(decimal(n)) == n,
        n > 0 ==> decimal(n)[0] != '0',
    decreases n,
{
    if n < 10 {
        lemma_digit_char_value(n);
        assert(decimal(n).drop_last() =~= Seq::<char>::empty());
        assert(digits_value(decimal(n)) == digits_value(Seq::<char>::empty()) * 10 + digit_value(digit_char(n)));
    } else {
        let q = n / 10;
        let r = n % 10;
        lemma_decimal_reads_back(q);
        lemma_digit_char_value(r as nat);
        let d = decimal(n);
        assert(d == decimal(q).push(digit_char(r as nat)));
        assert(d.drop_last() =~= decimal(q));
        assert forall|i: int| 0 <= i < d.len() implies is_digit(#[trigger] d[i]) by {
            if i < d.len() - 1 {
                assert(d[i] == decimal(q)[i]);
            }
        }
        assert(n == q * 10 + r) by (nonlinear_arith)
            requires
                q == n / 10,
                r == n % 10,
        ;
        assert(d[0] == decimal(q)[0]);
        assert(d.last() == digit_char(r as nat));
        assert(digits_value(d) == digits_value(decimal(q)) * 10 + digit_value(digit_char(r as nat)));
    }
}

/// Reading the text of an `i32` with `parse_i32_spec` gives the number back.
pub proof fn lemma_int_text_parses_back(v: i32)
    ensures
        parse_i32_spec(int_text(v as int)) == Some(v),
{
    if v < 0 {
        let m = (-(v as int)) as nat;
        lemma_decimal_reads_back(m);
        let t = int_text(v as int);
        assert(t == seq!['-'] + decimal(m));
        assert(numeral_body(t) =~= decimal(m));
        assert(numeral_negative(t));
    } else {
        lemma_decimal_reads_back(v as nat);
        let t = int_text(v as int);
        assert(is_digit(t[0]));
        assert(numeral_body(t) == t);
        assert(!numeral_negative(t));
    }
}

} // verus!
