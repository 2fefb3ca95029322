//! Text forms the crate writes: decimal numbers, hexadecimal digits, joined lists and the last
//! segment of a path.

use vstd::prelude::*;

verus! {

/// The decimal digit for `n`, which is below ten.
pub open spec fn decimal_digit(n: int) -> char {
    ('0' as int + n) as char
}

/// `n` in decimal, without leading zeros.
pub open spec fn decimal(n: nat) -> Seq<char>
    decreases n,
{
    if n < 10 {
        seq![decimal_digit(n as int)]
    } else {
        decimal(n / 10).push(decimal_digit((n % 10) as int))
    }
}

/// The lowercase hexadecimal digit for `n`, which is below sixteen.
pub open spec fn hex_digit(n: int) -> char {
    if n < 10 {
        ('0' as int + n) as char
    } else {
        ('a' as int + n - 10) as char
    }
}

/// `bytes` in lowercase hexadecimal, two digits a byte, the high one first.
pub open spec fn hex_lower(bytes: Seq<u8>) -> Seq<char> {
    Seq::new(
        2 * bytes.len(),
        |i: int|
            if i % 2 == 0 {
                hex_digit(bytes[i / 2] as int / 16)
            } else {
                hex_digit(bytes[i / 2] as int % 16)
            },
    )
}

/// `parts` in order, with `separator` between each two.
pub open spec fn joined(parts: Seq<Seq<char>>, separator: Seq<char>) -> Seq<char>
    decreases parts.len(),
{
    if parts.len() == 0 {
        Seq::empty()
    } else if parts.len() == 1 {
        parts[0]
    } else {
        joined(parts.drop_last(), separator) + separator + parts.last()
    }
}

/// What each of `parts` reads.
pub open spec fn texts(parts: Seq<String>) -> Seq<Seq<char>> {
    parts.map_values(|part: String| part@)
}

/// The index of the first `::` of `path` at or after `from`, or -1 if there is none.
pub open spec fn first_separator(path: Seq<char>, from: int) -> int
    decreases path.len() - from,
{
    if from + 1 >= path.len() {
        -1
    } else if path[from] == ':' && path[from + 1] == ':' {
        from
    } else {
        first_separator(path, from + 1)
    }
}

/// What follows the last `::` of `path`, where separators are found from the left and do not
/// overlap; all of `path` if it has none.
pub open spec fn last_segment(path: Seq<char>) -> Seq<char>
    decreases path.len(),
{
    let at = first_separator(path, 0);
    if at < 0 || at + 2 > path.len() {
        path
    } else {
        last_segment(path.skip(at + 2))
    }
}

proof fn lemma_first_separator_range(path: Seq<char>, from: int)
    requires
        0 <= from,
    ensures
        ({
            let at = first_separator(path, from);
            at == -1 || from <= at && at + 2 <= path.len()
        }),
    decreases path.len() - from,
{
    if from + 1 >= path.len() {
    } else if path[from] == ':' && path[from + 1] == ':' {
    } else {
        lemma_first_separator_range(path, from + 1);
    }
}

proof fn lemma_first_separator_skip(path: Seq<char>, start: int, from: int)
    requires
        0 <= start <= path.len(),
        0 <= from,
    ensures
        ({
            let at = first_separator(path.skip(start), from);
            first_separator(path, start + from) == if at == -1 {
                -1
            } else {
                start + at
            }
        }),
    decreases path.len() - start - from,
{
    let rest = path.skip(start);
    if from + 1 >= rest.len() {
    } else if rest[from] == ':' && rest[from + 1] == ':' {
        assert(path[start + from] == ':' && path[start + from + 1] == ':');
    } else {
        assert(rest[from] == path[start + from] && rest[from + 1] == path[start + from + 1]);
        lemma_first_separator_skip(path, start, from + 1);
        lemma_first_separator_range(rest, from + 1);
    }
}

proof fn lemma_first_separator_found(path: Seq<char>, from: int, known: int)
    requires
        0 <= from <= known,
        known + 1 < path.len(),
        path[known] == ':',
        path[known + 1] == ':',
    ensures
        ({
            let at = first_separator(path, from);
            from <= at <= known && path[at] == ':' && path[at + 1] == ':'
        }),
    decreases known - from,
{
    if path[from] == ':' && path[from + 1] == ':' {
    } else {
        lemma_first_separator_found(path, from + 1, known);
    }
}

proof fn lemma_no_separator(path: Seq<char>, from: int)
    requires
        0 <= from,
        forall|i: int| 0 <= i < path.len() ==> path[i] != ':',
    ensures
        first_separator(path, from) == -1,
    decreases path.len() - from,
{
    if from + 1 < path.len() {
        lemma_no_separator(path, from + 1);
    }
}

/// The last segment of a path is its final name, whatever modules come before.
pub proof fn law_modules_are_ignored(modules: Seq<char>, name: Seq<char>)
    requires
        modules.len() > 0 ==> modules.last() != ':',
        forall|i: int| 0 <= i < name.len() ==> name[i] != ':',
    ensures
        last_segment(name) == name,
        last_segment(modules + "::"@ + name) == name,
    decreases modules.len(),
{
    reveal_strlit("::");
    let path = modules + "::"@ + name;
    let end = modules.len() as int;
    lemma_no_separator(name, 0);
    assert(path[end] == ':' && path[end + 1] == ':');
    lemma_first_separator_found(path, 0, end);
    let at = first_separator(path, 0);
    assert(last_segment(path) == last_segment(path.skip(at + 2)));
    if at == end {
        assert(path.skip(at + 2) =~= name);
    } else {
        assert(path[end - 1] == modules.last());
        let inner = modules.skip(at + 2);
        assert(inner.last() == modules.last());
        assert(path.skip(at + 2) =~= inner + "::"@ + name);
        law_modules_are_ignored(inner, name);
    }
}

/// Two lists of bytes with the same hexadecimal digits are the same.
pub proof fn law_hex_is_injective(a: Seq<u8>, b: Seq<u8>)
    requires
        hex_lower(a) == hex_lower(b),
    ensures
        a == b,
{
    assert(hex_lower(a).len() == 2 * a.len());
    assert(hex_lower(b).len() == 2 * b.len());
    assert forall|i: int| 0 <= i < a.len() implies a[i] == b[i] by {
        assert((2 * i) % 2 == 0 && (2 * i) / 2 == i);
        assert((2 * i + 1) % 2 == 1 && (2 * i + 1) / 2 == i);
        assert(hex_lower(a)[2 * i] == hex_digit(a[i] as int / 16));
        assert(hex_lower(b)[2 * i] == hex_digit(b[i] as int / 16));
        assert(hex_lower(a)[2 * i + 1] == hex_digit(a[i] as int % 16));
        assert(hex_lower(b)[2 * i + 1] == hex_digit(b[i] as int % 16));
    }
    assert(a =~= b);
}

/// Two numbers with the same decimal digits are the same.
pub proof fn law_decimal_is_injective(a: nat, b: nat)
    requires
        decimal(a) == decimal(b),
    ensures
        a == b,
    decreases a,
{
    assert(decimal(a).last() == decimal_digit((a % 10) as int));
    assert(decimal(b).last() == decimal_digit((b % 10) as int));
    if a >= 10 {
        assert(decimal(a).drop_last() =~= decimal(a / 10));
        lemma_decimal_is_not_empty(a / 10);
    }
    if b >= 10 {
        assert(decimal(b).drop_last() =~= decimal(b / 10));
        lemma_decimal_is_not_empty(b / 10);
    }
    if a >= 10 && b >= 10 {
        law_decimal_is_injective(a / 10, b / 10);
    }
}

proof fn lemma_decimal_is_not_empty(n: nat)
    ensures
        decimal(n).len() > 0,
{
}

/// The decimal digit for `n` as text.
fn digit_text(n: u64) -> (r: &'static str)
    requires
        n < 10,
    ensures
        r@ == seq![decimal_digit(n as int)],
{
    proof {
        reveal_strlit("0");
        reveal_strlit("1");
        reveal_strlit("2");
        reveal_strlit("3");
        reveal_strlit("4");
        reveal_strlit("5");
        reveal_strlit("6");
        reveal_strlit("7");
        reveal_strlit("8");
        reveal_strlit("9");
    }
    match n {
        0 => "0",
        1 => "1",
        2 => "2",
        3 => "3",
        4 => "4",
        5 => "5",
        6 => "6",
        7 => "7",
        8 => "8",
        _ => "9",
    }
}

/// Writes `n` in decimal.
pub fn decimal_text(n: u64) -> (r: String)
    ensures
        r@ == decimal(n as nat),
    decreases n,
{
    let mut text: String = if n < 10 {
        String::new()
    } else {
        decimal_text(n / 10)
    };
    text.append(digit_text(n % 10));
    text
}

/// Returns whether `text` holds a colon.
pub fn holds_colon(text: &str) -> (r: bool)
    ensures
        r == text@.contains(':'),
{
    let len: usize = text.unicode_len();
    let mut i: usize = 0;
    while i < len
        invariant
            len == text@.len(),
            i <= len,
            forall|j: int| 0 <= j < i ==> text@[j] != ':',
        decreases len - i,
    {
        if text.get_char(i) == ':' {
            assert(text@[i as int] == ':');
            return true;
        }
        i = i + 1;
    }
    false
}

/// Whether `name` starts with a capital and holds only letters, digits and underscores, as the names
/// of Ruby classes do.
pub open spec fn is_class_name(name: Seq<char>) -> bool {
    &&& name.len() > 0
    &&& 'A' <= name[0] <= 'Z'
    &&& forall|i: int| 0 <= i < name.len() ==> #[trigger] is_name_character(name[i])
}

/// Whether `c` is an ASCII letter or digit or an underscore.
pub open spec fn is_name_character(c: char) -> bool {
    'A' <= c <= 'Z' || 'a' <= c <= 'z' || '0' <= c <= '9' || c == '_'
}

/// Returns whether `name` starts with a capital and holds only letters, digits and underscores.
pub fn check_class_name(name: &str) -> (r: bool)
    ensures
        r == is_class_name(name@),
{
    let len: usize = name.unicode_len();
    if len == 0 {
        return false;
    }
    let first: char = name.get_char(0);
    if first < 'A' || 'Z' < first {
        return false;
    }
    let mut i: usize = 0;
    while i < len
        invariant
            len == name@.len(),
            i <= len,
            forall|j: int| 0 <= j < i ==> #[trigger] is_name_character(name@[j]),
        decreases len - i,
    {
        let c: char = name.get_char(i);
        if !('A' <= c && c <= 'Z' || 'a' <= c && c <= 'z' || '0' <= c && c <= '9' || c == '_') {
            assert(!is_name_character(name@[i as int]));
            return false;
        }
        i = i + 1;
    }
    true
}

/// Copies an optional text.
pub fn copy_optional(text: &Option<String>) -> (r: Option<String>)
    ensures
        r == *text,
{
    match text {
        Some(text) => Some(text.clone()),
        None => None,
    }
}

/// Copies a list of texts.
pub fn copy_texts(parts: &Vec<String>) -> (r: Vec<String>)
    ensures
        r@ == parts@,
{
    let mut copy: Vec<String> = Vec::new();
    let mut i: usize = 0;
    while i < parts.len()
        invariant
            0 <= i <= parts.len(),
            copy@ == parts@.take(i as int),
        decreases parts.len() - i,
    {
        copy.push(parts[i].clone());
        i = i + 1;
    }
    assert(copy@ =~= parts@);
    copy
}

/// Joins `parts` with `separator` between each two.
pub fn join(parts: &Vec<String>, separator: &str) -> (r: String)
    ensures
        r@ == joined(texts(parts@), separator@),
{
    let ghost all = texts(parts@);
    let mut text: String = String::new();
    let mut i: usize = 0;
    while i < parts.len()
        invariant
            0 <= i <= parts.len(),
            all == texts(parts@),
            text@ == joined(all.take(i as int), separator@),
        decreases parts.len() - i,
    {
        if i > 0 {
            text.append(separator);
        }
        text.append(parts[i].as_str());
        proof {
            assert(all.take(i + 1).drop_last() =~= all.take(i as int));
            assert(all.take(i + 1).last() == parts[i as int]@);
        }
        i = i + 1;
    }
    assert(all.take(i as int) =~= all);
    text
}

/// Returns what follows the last `::` of `path`.
pub fn path_tail(path: &str) -> (r: String)
    ensures
        r@ == last_segment(path@),
{
    let len: usize = path.unicode_len();
    let mut start: usize = 0;
    let mut i: usize = 0;
    assert(path@.skip(0) =~= path@);
    while len - i >= 2
        invariant
            len == path@.len(),
            start <= i <= len,
            last_segment(path@) == last_segment(path@.skip(start as int)),
            first_separator(path@, start as int) == first_separator(path@, i as int),
        decreases len - i,
    {
        if path.get_char(i) == ':' && path.get_char(i + 1) == ':' {
            proof {
                lemma_first_separator_skip(path@, start as int, 0);
                lemma_first_separator_range(path@.skip(start as int), 0);
                assert(path@.skip(start as int).skip(i - start + 2) =~= path@.skip(i + 2));
            }
            start = i + 2;
            i = i + 2;
        } else {
            i = i + 1;
        }
    }
    proof {
        lemma_first_separator_skip(path@, start as int, 0);
        lemma_first_separator_range(path@.skip(start as int), 0);
        assert(path@.skip(start as int) =~= path@.subrange(start as int, len as int));
    }
    path.substring_char(start, len).to_owned()
}

/// A number below ten is written by its digit, and any other by what its tenth is written by and
/// its last digit.
pub proof fn law_decimal_appends_a_digit(n: u64, text: String, tenth: String)
    requires
        call_ensures(decimal_text, (n,), text),
        call_ensures(decimal_text, ((n / 10) as u64,), tenth),
    ensures
        n < 10 ==> text@.len() == 1,
        n >= 10 ==> text@.drop_last() == tenth@ && text@.len() == tenth@.len() + 1,
        text@.last() as int == '0' as int + n % 10,
{
    if n >= 10 {
        assert(text@.drop_last() =~= tenth@);
    }
}

/// No part is joined to no text, and one part to itself.
pub proof fn law_join_of_at_most_one(parts: Vec<String>, separator: &str, text: String)
    requires
        call_ensures(join, (&parts, separator), text),
    ensures
        parts@.len() == 0 ==> text@.len() == 0,
        parts@.len() == 1 ==> text@ == parts@[0]@,
{
}

/// A further part is appended behind a separator.
pub proof fn law_join_appends(
    parts: Vec<String>,
    part: String,
    more: Vec<String>,
    separator: &str,
    text: String,
    longer: String,
)
    requires
        parts@.len() > 0,
        more@ == parts@.push(part),
        call_ensures(join, (&parts, separator), text),
        call_ensures(join, (&more, separator), longer),
    ensures
        longer@ == text@ + separator@ + part@,
{
    assert(texts(more@).drop_last() =~= texts(parts@));
    assert(texts(more@).last() == part@);
}

/// A path without a separator is its own last segment.
pub proof fn law_path_of_one_segment(path: &str, tail: String)
    requires
        forall|i: int|
            0 <= i < path@.len() - 1 ==> !(path@[i] == ':' && #[trigger] path@[i + 1] == ':'),
        call_ensures(path_tail, (path,), tail),
    ensures
        tail@ == path@,
{
    lemma_no_double_colon(path@, 0);
}

/// The last segment of a path is that of what follows any of its separators, where a separator is
/// two colons that no third precedes.
pub proof fn law_path_continues_behind_a_separator(
    modules: Seq<char>,
    rest: &str,
    path: &str,
    rest_tail: String,
    path_tail_text: String,
)
    requires
        modules.len() > 0 ==> modules.last() != ':',
        path@ == modules + "::"@ + rest@,
        call_ensures(path_tail, (rest,), rest_tail),
        call_ensures(path_tail, (path,), path_tail_text),
    ensures
        path_tail_text@ == rest_tail@,
{
    lemma_segments_before(modules, rest@);
}

proof fn lemma_no_double_colon(path: Seq<char>, from: int)
    requires
        0 <= from,
        forall|i: int|
            0 <= i < path.len() - 1 ==> !(path[i] == ':' && #[trigger] path[i + 1] == ':'),
    ensures
        first_separator(path, from) == -1,
    decreases path.len() - from,
{
    if from + 1 < path.len() {
        assert(!(path[from] == ':' && path[from + 1] == ':'));
        lemma_no_double_colon(path, from + 1);
    }
}

proof fn lemma_segments_before(modules: Seq<char>, rest: Seq<char>)
    requires
        modules.len() > 0 ==> modules.last() != ':',
    ensures
        last_segment(modules + "::"@ + rest) == last_segment(rest),
    decreases modules.len(),
{
    reveal_strlit("::");
    let path = modules + "::"@ + rest;
    let end = modules.len() as int;
    assert(path[end] == ':' && path[end + 1] == ':');
    lemma_first_separator_found(path, 0, end);
    let at = first_separator(path, 0);
    assert(last_segment(path) == last_segment(path.skip(at + 2)));
    if at == end {
        assert(path.skip(at + 2) =~= rest);
    } else {
        assert(path[end - 1] == modules.last());
        let inner = modules.skip(at + 2);
        assert(inner.len() > 0 ==> inner.last() == modules.last());
        assert(path.skip(at + 2) =~= inner + "::"@ + rest);
        lemma_segments_before(inner, rest);
    }
}

/// Class names start with a capital and go on with letters, digits and underscores.
pub proof fn law_class_names_are_recognised(name: &str, recognised: bool)
    requires
        call_ensures(check_class_name, (name,), recognised),
    ensures
        recognised <==> {
            &&& name@.len() > 0
            &&& 'A' <= name@[0] <= 'Z'
            &&& forall|i: int|
                0 <= i < name@.len() ==> {
                    let c = #[trigger] name@[i];
                    'A' <= c <= 'Z' || 'a' <= c <= 'z' || '0' <= c <= '9' || c == '_'
                }
        },
{
    assert forall|i: int|
        0 <= i < name@.len() implies is_name_character(#[trigger] name@[i]) == ({
        let c = name@[i];
        'A' <= c <= 'Z' || 'a' <= c <= 'z' || '0' <= c <= '9' || c == '_'
    }) by {}
}

} // verus!
