//! Text primitives shared by the descriptor rules, the mount grammar and the
//! builders of runtime requests: character scans, splitting, decimal
//! rendering and decimal reading. Every contract is stated over `Seq<char>`.

use vstd::prelude::*;
use vstd::string::*;

verus! {

/// The characters of `s`, in order.
pub fn chars_of(s: &str) -> (chars: Vec<char>)
    ensures
        chars@ == s@,
{
    let mut chars: Vec<char> = Vec::new();
    for c in it: s.chars()
        invariant
            it.seq() == s@,
            chars@ == it.seq().take(it.index() as int),
    {
        chars.push(c);
    }
    chars
}

/// Whether the two texts hold the same characters.
pub fn same_text(a: &str, b: &str) -> (same: bool)
    ensures
        same == (a@ == b@),
{
    let left = chars_of(a);
    let right = chars_of(b);
    if left.len() != right.len() {
        return false;
    }
    let mut i: usize = 0;
    while i < left.len()
        invariant
            left@ == a@,
            right@ == b@,
            left.len() == right.len(),
            i <= left.len(),
            left@.take(i as int) == right@.take(i as int),
        decreases left.len() - i,
    {
        if left[i] != right[i] {
            assert(a@[i as int] != b@[i as int]);
            return false;
        }
        assert(left@.take(i + 1) == left@.take(i as int).push(left@[i as int]));
        assert(right@.take(i + 1) == right@.take(i as int).push(right@[i as int]));
        i = i + 1;
    }
    assert(left@ == left@.take(i as int));
    assert(right@ == right@.take(i as int));
    true
}

/// Position of the first `sep` in `s`; the length of `s` where it holds none.
pub open spec fn first_index_of(s: Seq<char>, sep: char) -> nat
    decreases s.len(),
{
    if s.len() == 0 || s[0] == sep {
        0
    } else {
        1 + first_index_of(s.skip(1), sep)
    }
}

/// `first_index_of` is the one position before which no `sep` stands and at
/// which `sep` stands or the text ends.
pub proof fn lemma_first_index_of(s: Seq<char>, sep: char, k: int)
    requires
        0 <= k <= s.len(),
        forall|j: int| 0 <= j < k ==> s[j] != sep,
        k == s.len() || s[k] == sep,
    ensures
        first_index_of(s, sep) == k,
    decreases s.len(),
{
    if k > 0 {
        let rest = s.skip(1);
        assert forall|j: int| 0 <= j < k - 1 implies rest[j] != sep by {
            assert(rest[j] == s[j + 1]);
        }
        lemma_first_index_of(rest, sep, k - 1);
    }
}

/// What `first_index_of` finds: it stays inside the text, nothing before it is
/// `sep`, and it is a `sep` unless it is the end.
pub proof fn lemma_first_index_of_bounds(s: Seq<char>, sep: char)
    ensures
        first_index_of(s, sep) <= s.len(),
        forall|j: int| 0 <= j < first_index_of(s, sep) ==> s[j] != sep,
        first_index_of(s, sep) < s.len() ==> s[first_index_of(s, sep) as int] == sep,
        first_index_of(s, sep) == s.len() <==> !s.contains(sep),
    decreases s.len(),
{
    if s.len() == 0 || s[0] == sep {
    } else {
        let rest = s.skip(1);
        lemma_first_index_of_bounds(rest, sep);
        let k = first_index_of(s, sep);
        assert forall|j: int| 0 <= j < k implies s[j] != sep by {
            if j > 0 {
                assert(rest[j - 1] == s[j]);
            }
        }
        if k < s.len() {
            assert(rest[k - 1] == s[k as int]);
        }
        if rest.contains(sep) {
            let w = choose|w: int| 0 <= w < rest.len() && rest[w] == sep;
            assert(s[w + 1] == sep);
        }
        if s.contains(sep) {
            let w = choose|w: int| 0 <= w < s.len() && s[w] == sep;
            assert(rest[w - 1] == sep);
        }
    }
}

/// Scans `chars` from `from` for the first `sep`.
pub fn find_char(chars: &Vec<char>, from: usize, sep: char) -> (at: usize)
    requires
        from <= chars.len(),
    ensures
        from <= at <= chars.len(),
        at == from + first_index_of(chars@.skip(from as int), sep),
{
    let mut at: usize = from;
    while at < chars.len() && chars[at] != sep
        invariant
            from <= at <= chars.len(),
            forall|j: int| from <= j < at ==> chars@[j] != sep,
        decreases chars.len() - at,
    {
        at = at + 1;
    }
    proof {
        lemma_first_index_of(chars@.skip(from as int), sep, at - from);
    }
    at
}

/// Whether `sep` occurs in `s`.
pub fn contains_char(s: &str, sep: char) -> (found: bool)
    ensures
        found == s@.contains(sep),
{
    let chars = chars_of(s);
    let at = find_char(&chars, 0, sep);
    proof {
        assert(chars@.skip(0) == chars@);
        lemma_first_index_of_bounds(s@, sep);
    }
    at < chars.len()
}

/// The pieces of `s` between occurrences of `sep`: the text up to the first
/// `sep`, then the pieces of what follows it. A text with n separators has
/// n + 1 pieces, empty ones included.
pub open spec fn split(s: Seq<char>, sep: char) -> Seq<Seq<char>>
    decreases s.len(),
{
    let i = first_index_of(s, sep);
    if i >= s.len() {
        seq![s]
    } else {
        seq![s.take(i as int)] + split(s.skip(i as int + 1), sep)
    }
}

/// Splits `s` at every `sep`.
pub fn split_text(s: &str, sep: char) -> (parts: Vec<String>)
    ensures
        parts.deep_view() == split(s@, sep),
        parts.len() >= 1,
{
    let chars = chars_of(s);
    let mut parts: Vec<String> = Vec::new();
    let mut start: usize = 0;
    proof {
        assert(s@.skip(0) == s@);
        assert(parts.deep_view() =~= Seq::<Seq<char>>::empty());
    }
    loop
        invariant_except_break
            chars@ == s@,
            start <= chars.len(),
            split(s@, sep) == parts.deep_view() + split(s@.skip(start as int), sep),
        ensures
            parts.deep_view() == split(s@, sep),
            parts.len() >= 1,
        decreases chars.len() - start,
    {
        let end = find_char(&chars, start, sep);
        let piece = String::from_str(s.substring_char(start, end));
        let ghost before = parts.deep_view();
        let ghost rest = s@.skip(start as int);
        parts.push(piece);
        proof {
            assert(parts.deep_view() =~= before.push(piece@));
            assert(piece@ == rest.take(end - start));
            if end < chars.len() {
                assert(rest.skip(end - start + 1) == s@.skip(end + 1));
                assert(before + (seq![piece@] + split(s@.skip(end + 1), sep))
                    == before.push(piece@) + split(s@.skip(end + 1), sep));
            } else {
                assert(rest.take(end - start) == rest);
                assert(before + seq![rest] == before.push(rest));
            }
        }
        if end >= chars.len() {
            break;
        }
        start = end + 1;
    }
    parts
}

/// Whether `s` begins with `prefix`.
pub fn starts_with(s: &str, prefix: &str) -> (yes: bool)
    ensures
        yes == prefix@.is_prefix_of(s@),
{
    let text = chars_of(s);
    let head = chars_of(prefix);
    if head.len() > text.len() {
        return false;
    }
    let mut i: usize = 0;
    while i < head.len()
        invariant
            text@ == s@,
            head@ == prefix@,
            head.len() <= text.len(),
            i <= head.len(),
            head@.take(i as int) == text@.take(i as int),
        decreases head.len() - i,
    {
        if head[i] != text[i] {
            assert(head@[i as int] != text@.subrange(0, head@.len() as int)[i as int]);
            return false;
        }
        assert(head@.take(i + 1) == head@.take(i as int).push(head@[i as int]));
        assert(text@.take(i + 1) == text@.take(i as int).push(text@[i as int]));
        i = i + 1;
    }
    assert(head@ == head@.take(i as int));
    assert(text@.take(i as int) == text@.subrange(0, head@.len() as int));
    true
}

/// The characters that Unicode gives the property White_Space.
pub open spec fn is_white_space(c: char) -> bool {
    let n = c as u32;
    ||| 0x09 <= n <= 0x0D
    ||| n == 0x20
    ||| n == 0x85
    ||| n == 0xA0
    ||| n == 0x1680
    ||| 0x2000 <= n <= 0x200A
    ||| n == 0x2028
    ||| n == 0x2029
    ||| n == 0x202F
    ||| n == 0x205F
    ||| n == 0x3000
}

/// A text is blank when nothing but white space is left in it: what is left
/// after trimming is empty.
pub open spec fn is_blank(s: Seq<char>) -> bool {
    forall|i: int| 0 <= i < s.len() ==> is_white_space(#[trigger] s[i])
}

/// Tests one character for White_Space.
pub fn white_space(c: char) -> (yes: bool)
    ensures
        yes == is_white_space(c),
{
    let n: u32 = c as u32;
    (0x09 <= n && n <= 0x0D) || n == 0x20 || n == 0x85 || n == 0xA0 || n == 0x1680 || (0x2000 <= n
        && n <= 0x200A) || n == 0x2028 || n == 0x2029 || n == 0x202F || n == 0x205F || n == 0x3000
}

/// Whether `s` is empty or holds white space only.
pub fn blank(s: &str) -> (yes: bool)
    ensures
        yes == is_blank(s@),
{
    let chars = chars_of(s);
    let mut i: usize = 0;
    while i < chars.len()
        invariant
            chars@ == s@,
            i <= chars.len(),
            forall|j: int| 0 <= j < i ==> is_white_space(#[trigger] s@[j]),
        decreases chars.len() - i,
    {
        if !white_space(chars[i]) {
            return false;
        }
        i = i + 1;
    }
    true
}

/// The character of the decimal digit `d`.
pub open spec fn digit_char(d: int) -> char {
    (d + 48) as u8 as char
}

/// The decimal digits of `n`, most significant first, without leading zeros.
pub open spec fn digits(n: nat) -> Seq<char>
    decreases n,
{
    if n < 10 {
        seq![digit_char(n as int)]
    } else {
        digits(n / 10).push(digit_char((n % 10) as int))
    }
}

/// The decimal numeral of `n`: a minus sign for a negative number, then the
/// digits of its magnitude.
pub open spec fn decimal(n: int) -> Seq<char> {
    if n < 0 {
        seq!['-'] + digits((-n) as nat)
    } else {
        digits(n as nat)
    }
}

fn digit_text(d: u64) -> (t: &'static str)
    requires
        d < 10,
    ensures
        t@ == seq![digit_char(d as int)],
{
    proof {
        reveal_strlit("0");
        reveal_strlit("1");
        reveal_strlit("2");
        reveal_strlit("3");
        reveal_strlit("4");
        reveal_strlit("5");
        reveal_strlit("6");
        reveal_strlit("7");
        reveal_strlit("8");
        reveal_strlit("9");
    }
    let t = if d == 0 {
        "0"
    } else if d == 1 {
        "1"
    } else if d == 2 {
        "2"
    } else if d == 3 {
        "3"
    } else if d == 4 {
        "4"
    } else if d == 5 {
        "5"
    } else if d == 6 {
        "6"
    } else if d == 7 {
        "7"
    } else if d == 8 {
        "8"
    } else {
        "9"
    };
    assert(t@ =~= seq![digit_char(d as int)]);
    t
}

fn push_digits(n: u64, out: &mut String)
    ensures
        final(out)@ == old(out)@ + digits(n as nat),
    decreases n,
{
    if n >= 10 {
        push_digits(n / 10, out);
    }
    out.append(digit_text(n % 10));
    proof {
        let d = seq![digit_char((n % 10) as int)];
        if n >= 10 {
            assert(old(out)@ + digits((n / 10) as nat) + d == old(out)@ + digits(
                (n / 10) as nat,
            ).push(digit_char((n % 10) as int)));
        }
    }
}

/// Renders `n` as its decimal numeral.
pub fn decimal_text(n: i64) -> (t: String)
    ensures
        t@ == decimal(n as int),
{
    let mut t = String::new();
    if n < 0 {
        t.append("-");
        let magnitude: u64 = ((-(n + 1)) as u64) + 1;
        push_digits(magnitude, &mut t);
        proof {
            reveal_strlit("-");
            assert("-"@ == seq!['-']);
            assert(Seq::<char>::empty() + "-"@ == seq!['-']);
        }
    } else {
        push_digits(n as u64, &mut t);
        assert(Seq::<char>::empty() + digits(n as nat) == digits(n as nat));
    }
    t
}

/// Why a text is no decimal numeral of a port.
#[derive(Clone, Copy, Debug, PartialEq, Eq, Structural)]
pub enum NumberError {
    /// The text is empty.
    Empty,
    /// A character that is no decimal digit, or a sign with nothing behind it.
    InvalidDigit,
    /// The number does not fit in sixteen bits.
    Overflow,
}

/// Whether `c` is one of `0` to `9`.
pub open spec fn is_digit(c: char) -> bool {
    48 <= c as u32 <= 57
}

/// Reads the digits of `s` from the left onto the value `acc`, and stops at
/// the first character that is no digit or that takes the value past 65535.
pub open spec fn read_digits(s: Seq<char>, acc: int) -> Result<u16, NumberError>
    decreases s.len(),
{
    if s.len() == 0 {
        Ok(acc as u16)
    } else if !is_digit(s[0]) {
        Err(NumberError::InvalidDigit)
    } else if acc * 10 + (s[0] as u32 - 48) > 0xffff {
        Err(NumberError::Overflow)
    } else {
        read_digits(s.skip(1), acc * 10 + (s[0] as u32 - 48))
    }
}

/// The port that the numeral `s` stands for: an optional `+`, then at least
/// one digit, nothing else, and a value of at most 65535.
pub open spec fn port_number(s: Seq<char>) -> Result<u16, NumberError> {
    if s.len() == 0 {
        Err(NumberError::Empty)
    } else {
        let body = if s[0] == '+' {
            s.skip(1)
        } else {
            s
        };
        if body.len() == 0 {
            Err(NumberError::InvalidDigit)
        } else {
            read_digits(body, 0)
        }
    }
}

/// Reads a port from its decimal numeral.
pub fn parse_port(s: &str) -> (port: Result<u16, NumberError>)
    ensures
        port == port_number(s@),
{
    let chars = chars_of(s);
    if chars.len() == 0 {
        return Err(NumberError::Empty);
    }
    let first: usize = if chars[0] == '+' {
        1
    } else {
        0
    };
    if first >= chars.len() {
        return Err(NumberError::InvalidDigit);
    }
    let mut acc: u32 = 0;
    let mut i: usize = first;
    proof {
        assert(chars@.skip(0) == chars@);
    }
    while i < chars.len()
        invariant
            chars@ == s@,
            first <= i <= chars.len(),
            acc <= 0xffff,
            port_number(s@) == read_digits(s@.skip(i as int), acc as int),
        decreases chars.len() - i,
    {
        let c = chars[i];
        let n: u32 = c as u32;
        proof {
            assert(s@.skip(i as int)[0] == c);
            assert(s@.skip(i as int).skip(1) == s@.skip(i + 1));
        }
        if n < 48 || n > 57 {
            return Err(NumberError::InvalidDigit);
        }
        let next: u32 = acc * 10 + (n - 48);
        if next > 0xffff {
            return Err(NumberError::Overflow);
        }
        acc = next;
        i = i + 1;
    }
    Ok(acc as u16)
}

/// What the standard library prints for each reason.
pub open spec fn number_error_text(e: NumberError) -> Seq<char> {
    match e {
        NumberError::Empty => "cannot parse integer from empty string"@,
        NumberError::InvalidDigit => "invalid digit found in string"@,
        NumberError::Overflow => "number too large to fit in target type"@,
    }
}

impl NumberError {
    /// The reason in words.
    pub fn message(&self) -> (m: String)
        ensures
            m@ == number_error_text(*self),
    {
        match self {
            NumberError::Empty => String::from_str("cannot parse integer from empty string"),
            NumberError::InvalidDigit => String::from_str("invalid digit found in string"),
            NumberError::Overflow => String::from_str("number too large to fit in target type"),
        }
    }
}

/// `c` with an upper-case letter of ASCII turned into its lower-case letter.
pub open spec fn ascii_lower(c: char) -> char {
    if 65 <= c as u32 <= 90 {
        ((c as u32 + 32) as u8) as char
    } else {
        c
    }
}

/// `s` with every upper-case letter of ASCII in lower case.
pub open spec fn lowered(s: Seq<char>) -> Seq<char> {
    Seq::new(s.len(), |i: int| ascii_lower(s[i]))
}

fn lower_char(c: char) -> (l: char)
    ensures
        l == ascii_lower(c),
{
    let n: u32 = c as u32;
    if 65 <= n && n <= 90 {
        ((n + 32) as u8) as char
    } else {
        c
    }
}

/// Whether the two texts are the same once the case of ASCII letters is set
/// aside.
pub fn same_text_ignoring_case(a: &str, b: &str) -> (same: bool)
    ensures
        same == (lowered(a@) == lowered(b@)),
{
    let left = chars_of(a);
    let right = chars_of(b);
    if left.len() != right.len() {
        assert(lowered(a@).len() != lowered(b@).len());
        return false;
    }
    let mut i: usize = 0;
    while i < left.len()
        invariant
            left@ == a@,
            right@ == b@,
            left.len() == right.len(),
            i <= left.len(),
            forall|j: int| 0 <= j < i ==> ascii_lower(a@[j]) == ascii_lower(b@[j]),
        decreases left.len() - i,
    {
        if lower_char(left[i]) != lower_char(right[i]) {
            assert(lowered(a@)[i as int] != lowered(b@)[i as int]);
            return false;
        }
        i = i + 1;
    }
    assert(lowered(a@) =~= lowered(b@));
    true
}

/// `a` followed by `b`.
pub fn concat(a: &str, b: &str) -> (t: String)
    ensures
        t@ == a@ + b@,
{
    let mut t = String::from_str(a);
    t.append(b);
    t
}

/// A copy of an optional text.
pub fn copy_option(s: &Option<String>) -> (copy: Option<String>)
    ensures
        copy.deep_view() == s.deep_view(),
{
    match s {
        Some(text) => Some(text.clone()),
        None => None,
    }
}

/// A copy of a list of texts.
pub fn copy_texts(list: &Vec<String>) -> (copy: Vec<String>)
    ensures
        copy.deep_view() == list.deep_view(),
{
    let copy = list.clone();
    assert(copy.deep_view() =~= list.deep_view());
    copy
}

/// A copy of an optional list of texts.
pub fn copy_texts_option(list: &Option<Vec<String>>) -> (copy: Option<Vec<String>>)
    ensures
        copy.deep_view() == list.deep_view(),
{
    match list {
        Some(texts) => Some(copy_texts(texts)),
        None => None,
    }
}

/// Adds the texts of `more` to the end of `list`.
pub fn append_texts(list: &mut Vec<String>, more: &Vec<String>)
    ensures
        final(list).deep_view() == old(list).deep_view() + more.deep_view(),
{
    let mut i: usize = 0;
    assert(more.deep_view().take(0) =~= Seq::<Seq<char>>::empty());
    assert(list.deep_view() + Seq::<Seq<char>>::empty() =~= list.deep_view());
    while i < more.len()
        invariant
            i <= more.len(),
            list.deep_view() == old(list).deep_view() + more.deep_view().take(i as int),
        decreases more.len() - i,
    {
        let ghost before = list.deep_view();
        list.push(more[i].clone());
        proof {
            assert(list.deep_view() =~= before.push(more[i as int]@));
            assert(more.deep_view().take(i + 1) =~= more.deep_view().take(i as int).push(
                more[i as int]@,
            ));
            assert(old(list).deep_view() + more.deep_view().take(i as int).push(more[i as int]@)
                =~= (old(list).deep_view() + more.deep_view().take(i as int)).push(
                more[i as int]@,
            ));
        }
        i = i + 1;
    }
    assert(more.deep_view().take(i as int) =~= more.deep_view());
}

/// Adds one text to the end of `list`.
pub fn push_text(list: &mut Vec<String>, text: String)
    ensures
        final(list).deep_view() == old(list).deep_view().push(text@),
{
    let ghost before = list.deep_view();
    list.push(text);
    assert(list.deep_view() =~= before.push(text@));
}

/// The list without texts.
pub fn no_texts() -> (list: Vec<String>)
    ensures
        list.deep_view() == Seq::<Seq<char>>::empty(),
{
    let list: Vec<String> = Vec::new();
    assert(list.deep_view() =~= Seq::<Seq<char>>::empty());
    list
}

/// The pieces of `pieces` in a row, with `sep` between each two.
pub open spec fn join(pieces: Seq<Seq<char>>, sep: char) -> Seq<char>
    decreases pieces.len(),
{
    if pieces.len() == 0 {
        Seq::empty()
    } else if pieces.len() == 1 {
        pieces[0]
    } else {
        pieces[0] + seq![sep] + join(pieces.skip(1), sep)
    }
}

/// Splitting loses nothing: a text always has at least one piece, no piece
/// holds the separator, and the pieces joined with the separator are the
/// text again.
pub proof fn lemma_split_and_join(s: Seq<char>, sep: char)
    ensures
        split(s, sep).len() >= 1,
        forall|i: int| 0 <= i < split(s, sep).len() ==> !(#[trigger] split(s, sep)[i]).contains(sep),
        join(split(s, sep), sep) == s,
    decreases s.len(),
{
    lemma_first_index_of_bounds(s, sep);
    let at = first_index_of(s, sep) as int;
    if at < s.len() {
        let head = s.take(at);
        let rest = s.skip(at + 1);
        let pieces = split(s, sep);
        lemma_split_and_join(rest, sep);
        assert(pieces.skip(1) =~= split(rest, sep));
        assert(pieces[0] == head);
        assert(!head.contains(sep));
        assert forall|i: int| 0 <= i < pieces.len() implies !(#[trigger] pieces[i]).contains(
            sep,
        ) by {
            if i > 0 {
                assert(pieces[i] == split(rest, sep)[i - 1]);
            }
        }
        assert(head + seq![sep] + rest =~= s);
    }
}

/// Reading the digits of a number onto nothing gives the number.
proof fn lemma_read_digits(n: nat, rest: Seq<char>)
    requires
        n <= 0xffff,
    ensures
        read_digits(digits(n) + rest, 0) == read_digits(rest, n as int),
    decreases n,
{
    let d = digit_char((n % 10) as int);
    if n < 10 {
        let all = digits(n) + rest;
        assert(all[0] == d);
        assert(all.skip(1) =~= rest);
    } else {
        let more = seq![d] + rest;
        lemma_read_digits(n / 10, more);
        assert(digits(n) + rest =~= digits(n / 10) + more);
        assert(more[0] == d);
        assert(more.skip(1) =~= rest);
    }
}

/// A port written as its numeral is read back as itself.
pub proof fn lemma_port_numeral_reads_back(port: u16)
    ensures
        port_number(decimal(port as int)) == Ok::<u16, NumberError>(port),
{
    let numeral = digits(port as nat);
    lemma_read_digits(port as nat, Seq::empty());
    assert(numeral + Seq::<char>::empty() =~= numeral);
    lemma_digits_shape(port as nat);
}

/// A numeral is not empty and begins with a digit.
proof fn lemma_digits_shape(n: nat)
    ensures
        digits(n).len() >= 1,
        is_digit(digits(n)[0]),
    decreases n,
{
    if n >= 10 {
        lemma_digits_shape(n / 10);
    }
}

} // verus!
