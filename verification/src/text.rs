//! Text building blocks shared by the service modules: concatenation,
//! decimal rendering of integers, and substring search, each stated over the
//! character sequence that a text denotes.
use vstd::prelude::*;
use vstd::std_specs::iter::IteratorSpec;
use vstd::string::*;

verus! {

/// The character that writes the decimal digit `d`.
pub open spec fn digit_char(d: nat) -> char {
    if d == 0 {
        '0'
    } else if d == 1 {
        '1'
    } else if d == 2 {
        '2'
    } else if d == 3 {
        '3'
    } else if d == 4 {
        '4'
    } else if d == 5 {
        '5'
    } else if d == 6 {
        '6'
    } else if d == 7 {
        '7'
    } else if d == 8 {
        '8'
    } else {
        '9'
    }
}

/// The decimal digits of a natural number, most significant first, without
/// leading zeros (zero is written as a single `0`).
pub open spec fn digits(n: nat) -> Seq<char>
    decreases n,
{
    if n < 10 {
        seq![digit_char(n)]
    } else {
        digits(n / 10).push(digit_char(n % 10))
    }
}

/// The decimal rendering of an integer: a minus sign for a negative number,
/// then the digits of its magnitude.
pub open spec fn decimal(n: int) -> Seq<char> {
    if n < 0 {
        seq!['-'] + digits((-n) as nat)
    } else {
        digits(n as nat)
    }
}

/// The rendering of a truth value.
pub open spec fn truth_text(b: bool) -> Seq<char> {
    if b {
        "true"@
    } else {
        "false"@
    }
}

/// All the parts written one after another.
pub open spec fn concat_all(parts: Seq<Seq<char>>) -> Seq<char>
    decreases parts.len(),
{
    if parts.len() == 0 {
        Seq::empty()
    } else {
        concat_all(parts.drop_last()) + parts.last()
    }
}

/// Every part written out and followed by `tail`.
pub open spec fn each_followed_by(parts: Seq<Seq<char>>, tail: Seq<char>) -> Seq<char>
    decreases parts.len(),
{
    if parts.len() == 0 {
        Seq::empty()
    } else {
        each_followed_by(parts.drop_last(), tail) + parts.last() + tail
    }
}

/// The parts written out with `sep` between neighbours.
pub open spec fn join_with(parts: Seq<Seq<char>>, sep: Seq<char>) -> Seq<char>
    decreases parts.len(),
{
    if parts.len() == 0 {
        Seq::empty()
    } else if parts.len() == 1 {
        parts[0]
    } else {
        join_with(parts.drop_last(), sep) + sep + parts.last()
    }
}

/// Whether `needle` stands in `hay` starting at position `at`.
pub open spec fn occurs_at(hay: Seq<char>, needle: Seq<char>, at: int) -> bool {
    &&& 0 <= at
    &&& at + needle.len() <= hay.len()
    &&& hay.subrange(at, at + needle.len()) == needle
}

/// Whether `needle` stands somewhere in `hay`. The empty text stands in
/// every text.
pub open spec fn occurs_in(hay: Seq<char>, needle: Seq<char>) -> bool {
    exists|at: int| occurs_at(hay, needle, at)
}

/// The views of a list of texts.
pub open spec fn views(parts: Seq<String>) -> Seq<Seq<char>> {
    parts.map_values(|s: String| s@)
}

/// The views of a list of borrowed texts.
pub open spec fn str_views(parts: Seq<&str>) -> Seq<Seq<char>> {
    parts.map_values(|s: &str| s@)
}

/// The text that results from writing `tail` after `head`.
pub fn joined(head: &str, tail: &str) -> (out: String)
    ensures
        out@ == head@ + tail@,
{
    let mut out = String::from_str(head);
    out.append(tail);
    out
}

/// The characters of a text, in order.
pub fn chars_of(s: &str) -> (out: Vec<char>)
    ensures
        out@ == s@,
{
    let mut it = s.chars();
    let mut out: Vec<char> = Vec::new();
    assert(out@ + it.remaining() =~= s@);
    loop
        invariant
            it.obeys_prophetic_iter_laws(),
            it.decrease() is Some,
            out@ + it.remaining() == s@,
        ensures
            out@ == s@,
        decreases it.decrease()->0,
    {
        match it.next() {
            Some(c) => {
                out.push(c);
                assert(out@ + it.remaining() =~= s@);
            },
            None => {
                assert(out@ =~= s@);
                break ;
            },
        }
    }
    out
}

/// Whether two texts hold the same characters.
pub fn same_text(a: &str, b: &str) -> (same: bool)
    ensures
        same == (a@ == b@),
{
    let x = a.to_owned();
    let y = b.to_owned();
    x == y
}

/// `"true"` or `"false"`.
pub fn truth(b: bool) -> (out: String)
    ensures
        out@ == truth_text(b),
{
    if b {
        String::from_str("true")
    } else {
        String::from_str("false")
    }
}

fn digit_str(d: u64) -> (out: &'static str)
    requires
        d < 10,
    ensures
        out@ == seq![digit_char(d as nat)],
{
    proof {
        reveal_strlit("0");
        reveal_strlit("1");
        reveal_strlit("2");
        reveal_strlit("3");
        reveal_strlit("4");
        reveal_strlit("5");
        reveal_strlit("6");
        reveal_strlit("7");
        reveal_strlit("8");
        reveal_strlit("9");
    }
    let out = if d == 0 {
        "0"
    } else if d == 1 {
        "1"
    } else if d == 2 {
        "2"
    } else if d == 3 {
        "3"
    } else if d == 4 {
        "4"
    } else if d == 5 {
        "5"
    } else if d == 6 {
        "6"
    } else if d == 7 {
        "7"
    } else if d == 8 {
        "8"
    } else {
        "9"
    };
    assert(out@ =~= seq![digit_char(d as nat)]);
    out
}

fn push_digits(out: &mut String, n: u64)
    ensures
        final(out)@ == old(out)@ + digits(n as nat),
    decreases n,
{
    if n >= 10 {
        push_digits(out, n / 10);
    }
    out.append(digit_str(n % 10));
    assert(out@ =~= old(out)@ + digits(n as nat));
}

/// The decimal rendering of an unsigned number.
pub fn decimal_u64(n: u64) -> (out: String)
    ensures
        out@ == decimal(n as int),
{
    let mut out = String::new();
    push_digits(&mut out, n);
    assert(out@ =~= decimal(n as int));
    out
}

/// The decimal rendering of a signed number.
pub fn decimal_i64(n: i64) -> (out: String)
    ensures
        out@ == decimal(n as int),
{
    if n < 0 {
        let magnitude: u64 = if n == i64::MIN {
            9223372036854775808u64
        } else {
            (-n) as u64
        };
        let mut out = String::from_str("-");
        proof {
            reveal_strlit("-");
        }
        push_digits(&mut out, magnitude);
        assert(out@ =~= decimal(n as int));
        out
    } else {
        decimal_u64(n as u64)
    }
}

/// All the parts written one after another.
pub fn concat_texts(parts: &Vec<String>) -> (out: String)
    ensures
        out@ == concat_all(views(parts@)),
{
    let mut out = String::new();
    let mut i: usize = 0;
    while i < parts.len()
        invariant
            i <= parts.len(),
            out@ == concat_all(views(parts@.subrange(0, i as int))),
        decreases parts.len() - i,
    {
        out.append(parts[i].as_str());
        proof {
            let before = views(parts@.subrange(0, i as int));
            let after = views(parts@.subrange(0, i + 1));
            assert(after.drop_last() =~= before);
            assert(after.last() == parts@[i as int]@);
        }
        i = i + 1;
    }
    assert(parts@.subrange(0, i as int) =~= parts@);
    out
}

/// Every part written out and followed by `tail`.
pub fn followed_each(parts: &Vec<String>, tail: &str) -> (out: String)
    ensures
        out@ == each_followed_by(views(parts@), tail@),
{
    let mut out = String::new();
    let mut i: usize = 0;
    while i < parts.len()
        invariant
            i <= parts.len(),
            out@ == each_followed_by(views(parts@.subrange(0, i as int)), tail@),
        decreases parts.len() - i,
    {
        out.append(parts[i].as_str());
        out.append(tail);
        proof {
            let before = views(parts@.subrange(0, i as int));
            let after = views(parts@.subrange(0, i + 1));
            assert(after.drop_last() =~= before);
            assert(after.last() == parts@[i as int]@);
        }
        i = i + 1;
    }
    assert(parts@.subrange(0, i as int) =~= parts@);
    out
}

/// The parts written out with `sep` between neighbours.
pub fn join(parts: &Vec<String>, sep: &str) -> (out: String)
    ensures
        out@ == join_with(views(parts@), sep@),
{
    let mut out = String::new();
    let mut i: usize = 0;
    while i < parts.len()
        invariant
            i <= parts.len(),
            out@ == join_with(views(parts@.subrange(0, i as int)), sep@),
        decreases parts.len() - i,
    {
        if i > 0 {
            out.append(sep);
        }
        out.append(parts[i].as_str());
        proof {
            let before = views(parts@.subrange(0, i as int));
            let after = views(parts@.subrange(0, i + 1));
            assert(after.drop_last() =~= before);
            assert(after.last() == parts@[i as int]@);
            if i == 0 {
                assert(out@ =~= after[0]);
            }
        }
        i = i + 1;
    }
    assert(parts@.subrange(0, i as int) =~= parts@);
    out
}

fn matches_at(hay: &Vec<char>, needle: &Vec<char>, at: usize) -> (hit: bool)
    requires
        at + needle.len() <= hay.len(),
    ensures
        hit == occurs_at(hay@, needle@, at as int),
{
    let mut j: usize = 0;
    while j < needle.len()
        invariant
            j <= needle.len(),
            at + needle.len() <= hay.len(),
            forall|k: int| 0 <= k < j ==> hay@[at + k] == needle@[k],
        decreases needle.len() - j,
    {
        if hay[at + j] != needle[j] {
            proof {
                let window = hay@.subrange(at as int, at + needle.len());
                assert(window[j as int] == hay@[at + j]);
            }
            return false;
        }
        j = j + 1;
    }
    assert(hay@.subrange(at as int, at + needle.len()) =~= needle@);
    true
}

/// Whether `needle` stands somewhere in `hay`.
pub fn contains(hay: &str, needle: &str) -> (found: bool)
    ensures
        found == occurs_in(hay@, needle@),
{
    let h = chars_of(hay);
    let n = chars_of(needle);
    if n.len() > h.len() {
        return false;
    }
    let last: usize = h.len() - n.len();
    let mut at: usize = 0;
    while at < last
        invariant
            last == h.len() - n.len(),
            at <= last,
            h@ == hay@,
            n@ == needle@,
            forall|k: int| 0 <= k < at ==> !occurs_at(hay@, needle@, k),
        decreases last - at,
    {
        if matches_at(&h, &n, at) {
            return true;
        }
        at = at + 1;
    }
    matches_at(&h, &n, last)
}

/// Whether the text begins with the character `c`.
pub fn begins_with(s: &str, c: char) -> (yes: bool)
    ensures
        yes == (s@.len() > 0 && s@[0] == c),
{
    if s.unicode_len() == 0 {
        false
    } else {
        s.get_char(0) == c
    }
}

/// The first `n` characters of a text, or all of it where it is shorter.
pub fn first_chars(s: &str, n: usize) -> (out: String)
    ensures
        out@ == s@.take(if n <= s@.len() {
            n as int
        } else {
            s@.len() as int
        }),
{
    let len = s.unicode_len();
    let end = if n <= len {
        n
    } else {
        len
    };
    String::from_str(s.substring_char(0, end))
}

/// The text after its first character. The empty text stays empty.
pub fn without_first(s: &str) -> (out: String)
    ensures
        out@ == (if s@.len() > 0 {
            s@.skip(1)
        } else {
            s@
        }),
{
    let len = s.unicode_len();
    if len == 0 {
        String::from_str(s)
    } else {
        String::from_str(s.substring_char(1, len))
    }
}

/// The texts that are there, in their order; what is missing is left out.
pub open spec fn present_texts(items: Seq<Option<String>>) -> Seq<Seq<char>>
    decreases items.len(),
{
    if items.len() == 0 {
        Seq::empty()
    } else {
        match items.last() {
            Some(t) => present_texts(items.drop_last()).push(t@),
            None => present_texts(items.drop_last()),
        }
    }
}

/// The texts that are there, in their order; what is missing is left out.
pub fn present(items: &Vec<Option<String>>) -> (out: Vec<String>)
    ensures
        views(out@) == present_texts(items@),
{
    let mut out: Vec<String> = Vec::new();
    let mut i: usize = 0;
    assert(views(out@) =~= present_texts(items@.subrange(0, 0)));
    while i < items.len()
        invariant
            i <= items.len(),
            views(out@) == present_texts(items@.subrange(0, i as int)),
        decreases items.len() - i,
    {
        let ghost before = views(out@);
        assert(items@.subrange(0, i + 1).drop_last() =~= items@.subrange(0, i as int));
        match &items[i] {
            Some(t) => {
                out.push(t.clone());
                assert(views(out@) =~= before.push(t@));
            },
            None => {},
        }
        i = i + 1;
    }
    assert(items@.subrange(0, i as int) =~= items@);
    out
}

/// The same items from last to first.
pub(crate) fn reversed<T>(items: Vec<T>) -> (out: Vec<T>)
    ensures
        out@.len() == items@.len(),
        forall|j: int| 0 <= j < out@.len() ==> out@[j] == items@[items@.len() - 1 - j],
{
    let mut rest = items;
    let mut out: Vec<T> = Vec::new();
    while rest.len() > 0
        invariant
            rest@.len() + out@.len() == items@.len(),
            rest@ == items@.take(rest@.len() as int),
            forall|j: int| 0 <= j < out@.len() ==> out@[j] == items@[items@.len() - 1 - j],
        decreases rest.len(),
    {
        match rest.pop() {
            Some(item) => {
                assert(rest@ =~= items@.take(rest@.len() as int));
                out.push(item);
            },
            None => {},
        }
    }
    out
}

/// A text that may be missing; a missing text is empty.
pub open spec fn text_or_empty(t: Option<String>) -> Seq<char> {
    match t {
        Some(t) => t@,
        None => Seq::empty(),
    }
}

/// The items of a list that may be missing.
pub open spec fn listed<T>(list: Option<Vec<T>>) -> Seq<T> {
    match list {
        Some(v) => v@,
        None => Seq::empty(),
    }
}

pub(crate) fn copy_of(t: &Option<String>) -> (out: Option<String>)
    ensures
        out == *t,
{
    match t {
        Some(t) => Some(t.clone()),
        None => None,
    }
}

/// The plain-value form of a text that may be missing.
pub open spec fn text_view(t: Option<String>) -> Option<Seq<char>> {
    match t {
        Some(t) => Some(t@),
        None => None,
    }
}

/// A line that is written only where its value is there.
pub open spec fn line_of(label: Seq<char>, value: Option<Seq<char>>, end: Seq<char>) -> Seq<char> {
    match value {
        Some(v) => label + v + end,
        None => Seq::empty(),
    }
}

/// A line that is written only where its value is there.
pub open spec fn line_if(label: Seq<char>, value: Option<String>, end: Seq<char>) -> Seq<char> {
    line_of(label, text_view(value), end)
}

/// A number that may be missing, written out.
pub open spec fn number_view(n: Option<i32>) -> Option<Seq<char>> {
    match n {
        Some(n) => Some(decimal(n as int)),
        None => None,
    }
}

/// A number that may be missing, written out.
pub fn number_text(n: Option<i32>) -> (out: Option<String>)
    ensures
        text_view(out) == number_view(n),
{
    match n {
        Some(n) => Some(decimal_i64(n as i64)),
        None => None,
    }
}

/// Writes a line for a value that is there.
pub(crate) fn write_line_if(file: &mut String, label: &str, value: &Option<String>, end: &str)
    ensures
        final(file)@ == old(file)@ + line_if(label@, *value, end@),
{
    match value {
        Some(v) => {
            file.append(label);
            file.append(v.as_str());
            file.append(end);
            assert(file@ =~= old(file)@ + line_if(label@, *value, end@));
        },
        None => {
            assert(file@ =~= old(file)@ + line_if(label@, *value, end@));
        },
    }
}

/// A record that is kept only where its value is there.
pub open spec fn record_if(value: Option<String>) -> Seq<Seq<char>> {
    match value {
        Some(v) => seq![v@],
        None => Seq::empty(),
    }
}

/// Writes a line and keeps a record of a value that is there.
pub(crate) fn write_if(
    label: &str,
    value: Option<String>,
    end: &str,
    entry: &mut String,
    kept: &mut Vec<String>,
)
    ensures
        final(entry)@ == old(entry)@ + line_if(label@, value, end@),
        views(final(kept)@) == views(old(kept)@) + record_if(value),
{
    match value {
        Some(v) => {
            entry.append(label);
            entry.append(v.as_str());
            entry.append(end);
            assert(entry@ =~= old(entry)@ + line_if(label@, value, end@));
            kept.push(v);
            assert(views(kept@) =~= views(old(kept)@) + record_if(value));
        },
        None => {
            assert(entry@ =~= old(entry)@ + line_if(label@, value, end@));
            assert(views(kept@) =~= views(old(kept)@) + record_if(value));
        },
    }
}

pub(crate) fn push_all(records: &mut Vec<String>, more: Vec<String>)
    ensures
        views(final(records)@) == views(old(records)@) + views(more@),
{
    let mut more = more;
    let ghost extra = more@;
    records.append(&mut more);
    assert(views(records@) =~= views(old(records)@) + views(extra));
}

/// What is said of a value that is there: one line; nothing is said of a
/// missing value.
pub open spec fn said_of(label: Seq<char>, value: Option<Seq<char>>, end: Seq<char>) -> Seq<
    Seq<char>,
> {
    match value {
        Some(v) => seq![label + v + end],
        None => Seq::empty(),
    }
}

/// What is said of a value that is there: one line; nothing is said of a
/// missing value.
pub open spec fn said_if(label: Seq<char>, value: Option<String>, end: Seq<char>) -> Seq<
    Seq<char>,
> {
    said_of(label, text_view(value), end)
}

/// Adds the line `label`, `value`, `end`.
pub(crate) fn say(lines: &mut Vec<String>, label: &str, value: &str, end: &str)
    ensures
        views(final(lines)@) == views(old(lines)@).push(label@ + value@ + end@),
{
    let mut line = String::from_str(label);
    line.append(value);
    line.append(end);
    lines.push(line);
    assert(views(lines@) =~= views(old(lines)@).push(label@ + value@ + end@));
}

/// Adds the line `text`.
pub(crate) fn say_plain(lines: &mut Vec<String>, text: &str)
    ensures
        views(final(lines)@) == views(old(lines)@).push(text@),
{
    lines.push(String::from_str(text));
    assert(views(lines@) =~= views(old(lines)@).push(text@));
}

/// Adds a line for a value that is there.
pub(crate) fn say_if(lines: &mut Vec<String>, label: &str, value: &Option<String>, end: &str)
    ensures
        views(final(lines)@) == views(old(lines)@) + said_if(label@, *value, end@),
{
    match value {
        Some(v) => {
            say(lines, label, v.as_str(), end);
            assert(views(lines@) =~= views(old(lines)@) + said_if(label@, *value, end@));
        },
        None => {
            assert(views(lines@) =~= views(old(lines)@) + said_if(label@, *value, end@));
        },
    }
}

/// The plain-value form of a borrowed text that may be missing.
pub open spec fn str_view(t: Option<&str>) -> Option<Seq<char>> {
    match t {
        Some(t) => Some(t@),
        None => None,
    }
}

/// A text that may be missing, borrowed.
pub fn as_text(t: &Option<String>) -> (out: Option<&str>)
    ensures
        str_view(out) == text_view(*t),
{
    match t {
        Some(t) => Some(t.as_str()),
        None => None,
    }
}

/// A list of texts that may be missing, copied.
pub fn copy_of_list(list: &Option<Vec<String>>) -> (out: Option<Vec<String>>)
    ensures
        out is Some == list is Some,
        out is Some ==> views(out->0@) == views(list->0@),
{
    match list {
        Some(items) => {
            let mut out: Vec<String> = Vec::new();
            let mut i: usize = 0;
            while i < items.len()
                invariant
                    i <= items.len(),
                    out@.len() == i,
                    forall|k: int| 0 <= k < i ==> out@[k]@ == items@[k]@,
                decreases items.len() - i,
            {
                out.push(items[i].clone());
                i = i + 1;
            }
            assert(views(out@) =~= views(items@));
            Some(out)
        },
        None => None,
    }
}

/// Whether a character is white space: whether it has the Unicode property
/// White_Space. These are the tabulator to the carriage return, the blank,
/// the next-line control, the no-break space, the Ogham space mark, the
/// spaces from the en quad to the hair space, the line and the paragraph
/// separator, the narrow no-break space, the medium mathematical space and
/// the ideographic space.
pub open spec fn white_space(c: char) -> bool {
    let code = c as u32;
    ||| 0x0009 <= code <= 0x000D
    ||| code == 0x0020
    ||| code == 0x0085
    ||| code == 0x00A0
    ||| code == 0x1680
    ||| 0x2000 <= code <= 0x200A
    ||| code == 0x2028
    ||| code == 0x2029
    ||| code == 0x202F
    ||| code == 0x205F
    ||| code == 0x3000
}

/// Whether a character is white space.
pub fn is_white_space(c: char) -> (yes: bool)
    ensures
        yes == white_space(c),
{
    let code: u32 = c as u32;
    (0x0009 <= code && code <= 0x000D) || code == 0x0020 || code == 0x0085 || code == 0x00A0
        || code == 0x1680 || (0x2000 <= code && code <= 0x200A) || code == 0x2028 || code
        == 0x2029 || code == 0x202F || code == 0x205F || code == 0x3000
}

/// Whether a character sets two pieces of a text apart: a blank where only
/// blanks do, else any white space.
pub open spec fn separates(blanks_only: bool, c: char) -> bool {
    if blanks_only {
        c == ' '
    } else {
        white_space(c)
    }
}

/// The pieces of a text: its longest runs of characters that set nothing
/// apart, from left to right.
pub open spec fn runs(s: Seq<char>, blanks_only: bool) -> Seq<Seq<char>>
    decreases s.len(),
{
    if s.len() == 0 {
        Seq::empty()
    } else {
        let before = runs(s.drop_last(), blanks_only);
        let c = s.last();
        if separates(blanks_only, c) {
            before
        } else if s.len() >= 2 && !separates(blanks_only, s[s.len() - 2]) {
            before.drop_last().push(before.last().push(c))
        } else {
            before.push(seq![c])
        }
    }
}

fn is_separator(blanks_only: bool, c: char) -> (yes: bool)
    ensures
        yes == separates(blanks_only, c),
{
    if blanks_only {
        c == ' '
    } else {
        is_white_space(c)
    }
}

/// The pieces of a text that blanks, or any white space, set apart.
pub fn split_runs(text: &str, blanks_only: bool) -> (out: Vec<String>)
    ensures
        views(out@) == runs(text@, blanks_only),
{
    let chars = chars_of(text);
    let mut out: Vec<String> = Vec::new();
    let mut start: usize = 0;
    let mut in_word = false;
    let mut i: usize = 0;
    assert(views(out@) =~= Seq::<Seq<char>>::empty());
    assert(text@.take(0) =~= Seq::<char>::empty());
    while i < chars.len()
        invariant
            i <= chars.len(),
            chars@ == text@,
            in_word <==> (i > 0 && !separates(blanks_only, text@[i - 1])),
            in_word ==> start < i,
            runs(text@.take(i as int), blanks_only) == (if in_word {
                views(out@).push(text@.subrange(start as int, i as int))
            } else {
                views(out@)
            }),
        decreases chars.len() - i,
    {
        let c = chars[i];
        let ghost before = text@.take(i as int);
        let ghost now = text@.take(i + 1);
        assert(now.drop_last() =~= before);
        assert(now.last() == c);
        if is_separator(blanks_only, c) {
            if in_word {
                let ghost kept = views(out@);
                out.push(String::from_str(text.substring_char(start, i)));
                assert(views(out@) =~= kept.push(text@.subrange(start as int, i as int)));
                in_word = false;
            }
        } else {
            if in_word {
                assert(now[now.len() - 2] == text@[i - 1]);
                assert(text@.subrange(start as int, i as int).push(c) =~= text@.subrange(
                    start as int,
                    i + 1,
                ));
                assert(views(out@).push(text@.subrange(start as int, i as int)).drop_last()
                    =~= views(out@));
            } else {
                if i > 0 {
                    assert(now[now.len() - 2] == text@[i - 1]);
                }
                assert(seq![c] =~= text@.subrange(i as int, i + 1));
                start = i;
                in_word = true;
            }
        }
        i = i + 1;
    }
    assert(text@.take(i as int) =~= text@);
    if in_word {
        let ghost kept = views(out@);
        out.push(String::from_str(text.substring_char(start, i)));
        assert(views(out@) =~= kept.push(text@.subrange(start as int, i as int)));
    }
    out
}

/// A text with `to` written before it, between every two of its characters
/// and behind it.
pub open spec fn interleaved(s: Seq<char>, to: Seq<char>) -> Seq<char>
    decreases s.len(),
{
    if s.len() == 0 {
        to
    } else {
        interleaved(s.drop_last(), to).push(s.last()) + to
    }
}

/// A text in which every occurrence of `from` is replaced by `to`, the
/// occurrences taken from left to right without overlap. The empty text
/// occurs before every character and at the end.
pub open spec fn replaced(s: Seq<char>, from: Seq<char>, to: Seq<char>) -> Seq<char>
    decreases s.len(),
{
    if from.len() == 0 {
        interleaved(s, to)
    } else if s.len() < from.len() {
        s
    } else if s.take(from.len() as int) == from {
        to + replaced(s.skip(from.len() as int), from, to)
    } else {
        seq![s[0]] + replaced(s.skip(1), from, to)
    }
}

/// A text in which every occurrence of `from` is replaced by `to`.
pub fn replace_all(text: &str, from: &str, to: &str) -> (out: String)
    ensures
        out@ == replaced(text@, from@, to@),
{
    let s = chars_of(text);
    let f = chars_of(from);
    let n: usize = s.len();
    let m: usize = f.len();
    if m == 0 {
        let mut out = String::from_str(to);
        let mut i: usize = 0;
        assert(text@.take(0) =~= Seq::<char>::empty());
        while i < n
            invariant
                i <= n,
                n == text@.len(),
                out@ == interleaved(text@.take(i as int), to@),
            decreases n - i,
        {
            let ghost before = out@;
            out.append(text.substring_char(i, i + 1));
            out.append(to);
            proof {
                assert(text@.take(i + 1).drop_last() =~= text@.take(i as int));
                assert(text@.take(i + 1).last() == text@[i as int]);
                assert(text@.subrange(i as int, i + 1) =~= seq![text@[i as int]]);
                assert(out@ =~= before.push(text@[i as int]) + to@);
            }
            i = i + 1;
        }
        assert(text@.take(n as int) =~= text@);
        return out;
    }
    let mut out = String::new();
    let mut seg: usize = 0;
    let mut i: usize = 0;
    assert(text@.subrange(0, 0) =~= Seq::<char>::empty());
    assert(text@.skip(0) =~= text@);
    assert(out@ + text@.subrange(0, 0) + replaced(text@.skip(0), from@, to@) =~= replaced(
        text@,
        from@,
        to@,
    ));
    while n - i >= m
        invariant
            s@ == text@,
            f@ == from@,
            n == s@.len(),
            m == f@.len(),
            m > 0,
            seg <= i <= n,
            replaced(text@, from@, to@) == out@ + text@.subrange(seg as int, i as int) + replaced(
                text@.skip(i as int),
                from@,
                to@,
            ),
        decreases n - i,
    {
        let ghost rest = text@.skip(i as int);
        assert(rest.take(m as int) =~= text@.subrange(i as int, i + m));
        if matches_at(&s, &f, i) {
            let ghost kept = out@;
            out.append(text.substring_char(seg, i));
            out.append(to);
            proof {
                assert(rest.skip(m as int) =~= text@.skip(i + m));
                assert(text@.subrange(i + m, i + m) =~= Seq::<char>::empty());
                assert(kept + text@.subrange(seg as int, i as int) + (to@ + replaced(
                    text@.skip(i + m),
                    from@,
                    to@,
                )) =~= out@ + text@.subrange(i + m, i + m) + replaced(
                    text@.skip(i + m),
                    from@,
                    to@,
                ));
            }
            i = i + m;
            seg = i;
        } else {
            proof {
                assert(rest.skip(1) =~= text@.skip(i + 1));
                assert(rest[0] == text@[i as int]);
                assert(out@ + text@.subrange(seg as int, i as int) + (seq![rest[0]] + replaced(
                    text@.skip(i + 1),
                    from@,
                    to@,
                )) =~= out@ + text@.subrange(seg as int, i + 1) + replaced(
                    text@.skip(i + 1),
                    from@,
                    to@,
                ));
            }
            i = i + 1;
        }
    }
    let ghost kept = out@;
    out.append(text.substring_char(seg, n));
    assert(kept + text@.subrange(seg as int, i as int) + text@.skip(i as int) =~= out@);
    out
}

/// One line for each item: the label and the item.
pub open spec fn each_labelled(label: Seq<char>, items: Seq<Seq<char>>) -> Seq<Seq<char>> {
    items.map_values(|item: Seq<char>| label + item)
}

/// Adds one line for each item: the label and the item.
pub(crate) fn say_each(lines: &mut Vec<String>, label: &str, items: &Vec<String>)
    ensures
        views(final(lines)@) == views(old(lines)@) + each_labelled(label@, views(items@)),
{
    let ghost start = views(lines@);
    let mut i: usize = 0;
    assert(views(lines@) =~= start + each_labelled(label@, views(items@.take(0))));
    while i < items.len()
        invariant
            i <= items.len(),
            views(lines@) == start + each_labelled(label@, views(items@.take(i as int))),
        decreases items.len() - i,
    {
        let ghost before = views(lines@);
        lines.push(joined(label, items[i].as_str()));
        proof {
            let line = label@ + items@[i as int]@;
            assert(views(lines@) =~= before.push(line));
            let after = each_labelled(label@, views(items@.take(i + 1)));
            assert(after =~= each_labelled(label@, views(items@.take(i as int))).push(line));
            assert(views(lines@) =~= start + after);
        }
        i = i + 1;
    }
    assert(items@.take(i as int) =~= items@);
}

/// Whether a character writes a decimal digit.
pub open spec fn is_digit(c: char) -> bool {
    c == '0' || c == '1' || c == '2' || c == '3' || c == '4' || c == '5' || c == '6' || c == '7'
        || c == '8' || c == '9'
}

/// The digits of a number are at least one, all of them decimal digits, and
/// the first is `0` only for the number zero.
pub proof fn lemma_digits_are_digits(n: nat)
    ensures
        digits(n).len() >= 1,
        forall|i: int| 0 <= i < digits(n).len() ==> is_digit(#[trigger] digits(n)[i]),
        digits(n)[0] == '0' <==> n == 0,
    decreases n,
{
    if n >= 10 {
        lemma_digits_are_digits(n / 10);
        assert(digits(n / 10).push(digit_char(n % 10))[0] == digits(n / 10)[0]);
    }
}

/// Every piece of a text is not empty and holds no character that sets
/// pieces apart.
pub proof fn lemma_runs_hold_no_separator(s: Seq<char>, blanks_only: bool)
    ensures
        forall|i: int|
            0 <= i < runs(s, blanks_only).len() ==> (#[trigger] runs(s, blanks_only)[i]).len()
                > 0,
        forall|i: int, j: int|
            0 <= i < runs(s, blanks_only).len() && 0 <= j < runs(s, blanks_only)[i].len()
                ==> !separates(blanks_only, #[trigger] runs(s, blanks_only)[i][j]),
        s.len() > 0 && !separates(blanks_only, s.last()) ==> runs(s, blanks_only).len() > 0,
    decreases s.len(),
{
    if s.len() > 0 {
        lemma_runs_hold_no_separator(s.drop_last(), blanks_only);
        let before = runs(s.drop_last(), blanks_only);
        let c = s.last();
        if separates(blanks_only, c) {
        } else if s.len() >= 2 && !separates(blanks_only, s[s.len() - 2]) {
            assert(s.drop_last().last() == s[s.len() - 2]);
            let grown = before.drop_last().push(before.last().push(c));
            assert forall|i: int| 0 <= i < grown.len() implies (#[trigger] grown[i]).len() > 0 by {
                if i < grown.len() - 1 {
                    assert(grown[i] == before[i]);
                }
            }
            assert forall|i: int, j: int| 0 <= i < grown.len() && 0 <= j < grown[i].len() implies !separates(
                blanks_only,
                #[trigger] grown[i][j],
            ) by {
                if i < grown.len() - 1 {
                    assert(grown[i] == before[i]);
                } else if j < before.last().len() {
                    assert(grown[i][j] == before.last()[j]);
                }
            }
        } else {
            let more = before.push(seq![c]);
            assert forall|i: int| 0 <= i < more.len() implies (#[trigger] more[i]).len() > 0 by {
                if i < more.len() - 1 {
                    assert(more[i] == before[i]);
                }
            }
            assert forall|i: int, j: int| 0 <= i < more.len() && 0 <= j < more[i].len() implies !separates(
                blanks_only,
                #[trigger] more[i][j],
            ) by {
                if i < more.len() - 1 {
                    assert(more[i] == before[i]);
                }
            }
        }
    }
}

/// A text in which `from` occurs nowhere is left as it is.
pub proof fn lemma_replaced_without_occurrence(s: Seq<char>, from: Seq<char>, to: Seq<char>)
    requires
        !occurs_in(s, from),
    ensures
        replaced(s, from, to) == s,
    decreases s.len(),
{
    if from.len() == 0 {
        assert(s.subrange(0, 0) =~= from);
        assert(occurs_at(s, from, 0));
    } else if s.len() >= from.len() {
        assert(s.take(from.len() as int) =~= s.subrange(0, 0 + from.len() as int));
        if s.take(from.len() as int) == from {
            assert(occurs_at(s, from, 0));
        }
        assert forall|at: int| !occurs_at(s.skip(1), from, at) by {
            if occurs_at(s.skip(1), from, at) {
                assert(s.skip(1).subrange(at, at + from.len()) =~= s.subrange(
                    at + 1,
                    at + 1 + from.len(),
                ));
                assert(occurs_at(s, from, at + 1));
            }
        }
        lemma_replaced_without_occurrence(s.skip(1), from, to);
        assert(seq![s[0]] + s.skip(1) =~= s);
    }
}

} // verus!
