//! Text as sequences of characters: trimming, ASCII case, decimal digits.

use vstd::prelude::*;

verus! {

/// The characters with the Unicode property `White_Space`.
pub open spec fn is_white_space(c: char) -> bool {
    ||| 0x9 <= c as u32 <= 0xD
    ||| c as u32 == 0x20
    ||| c as u32 == 0x85
    ||| c as u32 == 0xA0
    ||| c as u32 == 0x1680
    ||| 0x2000 <= c as u32 <= 0x200A
    ||| c as u32 == 0x2028
    ||| c as u32 == 0x2029
    ||| c as u32 == 0x202F
    ||| c as u32 == 0x205F
    ||| c as u32 == 0x3000
}

/// `s` without its leading white space.
pub open spec fn trimmed_start(s: Seq<char>) -> Seq<char>
    decreases s.len(),
{
    if s.len() > 0 && is_white_space(s[0]) {
        trimmed_start(s.drop_first())
    } else {
        s
    }
}

/// `s` without its trailing white space.
pub open spec fn trimmed_end(s: Seq<char>) -> Seq<char>
    decreases s.len(),
{
    if s.len() > 0 && is_white_space(s.last()) {
        trimmed_end(s.drop_last())
    } else {
        s
    }
}

/// `s` without leading and trailing white space.
pub open spec fn trimmed(s: Seq<char>) -> Seq<char> {
    trimmed_end(trimmed_start(s))
}

pub proof fn lemma_untrimmed(s: Seq<char>)
    requires
        trimmed(s) == s,
        s.len() > 0,
    ensures
        !is_white_space(s[0]),
        !is_white_space(s.last()),
{
    lemma_trimmed_len(s);
    if is_white_space(s[0]) {
        lemma_trimmed_len(s.drop_first());
    } else if is_white_space(s.last()) {
        lemma_trimmed_len(s.drop_last());
    }
}

proof fn lemma_trimmed_len(s: Seq<char>)
    ensures
        trimmed_start(s).len() <= s.len(),
        trimmed_end(s).len() <= s.len(),
        trimmed(s).len() <= trimmed_start(s).len(),
    decreases s.len(),
{
    if s.len() > 0 {
        lemma_trimmed_len(s.drop_first());
        lemma_trimmed_len(s.drop_last());
    }
    if trimmed_start(s).len() < s.len() {
        lemma_trimmed_len(trimmed_start(s));
    }
}

pub proof fn lemma_nothing_to_trim(s: Seq<char>)
    requires
        s.len() > 0,
        !is_white_space(s[0]),
        !is_white_space(s.last()),
    ensures
        trimmed(s) == s,
{
}

/// Nothing but white space.
pub open spec fn is_blank(s: Seq<char>) -> bool {
    trimmed(s).len() == 0
}

/// The code point of `c`, with `A`..`Z` mapped to `a`..`z`.
pub open spec fn ascii_folded(c: char) -> u32 {
    if 0x41 <= c as u32 <= 0x5A {
        (c as u32 + 0x20) as u32
    } else {
        c as u32
    }
}

/// Equal up to the case of ASCII letters.
pub open spec fn same_ignoring_ascii_case(a: Seq<char>, b: Seq<char>) -> bool {
    &&& a.len() == b.len()
    &&& forall|i: int| 0 <= i < a.len() ==> ascii_folded(#[trigger] a[i]) == ascii_folded(b[i])
}

/// `prefix` opens `s`, up to the case of ASCII letters.
pub open spec fn starts_with_ignoring_ascii_case(s: Seq<char>, prefix: Seq<char>) -> bool {
    &&& prefix.len() <= s.len()
    &&& forall|i: int|
        0 <= i < prefix.len() ==> ascii_folded(#[trigger] s[i]) == ascii_folded(prefix[i])
}

/// The characters of an optional string.
pub open spec fn optional_text(text: Option<String>) -> Option<Seq<char>> {
    match text {
        Some(s) => Some(s@),
        None => None,
    }
}

/// The characters of each string.
pub open spec fn texts(list: Seq<String>) -> Seq<Seq<char>> {
    list.map_values(|s: String| s@)
}

/// The parts, with `separator` between neighbours.
pub open spec fn joined(parts: Seq<Seq<char>>, separator: Seq<char>) -> Seq<char>
    decreases parts.len(),
{
    if parts.len() == 0 {
        Seq::empty()
    } else if parts.len() == 1 {
        parts[0]
    } else {
        joined(parts.drop_last(), separator) + separator + parts.last()
    }
}

/// The digit `n` as a character, for `n < 10`.
pub open spec fn digit_char(n: nat) -> char {
    (0x30 + n) as char
}

/// `n` in decimal, without leading zeros.
pub open spec fn decimal(n: nat) -> Seq<char>
    decreases n,
{
    if n < 10 {
        seq![digit_char(n)]
    } else {
        decimal(n / 10).push(digit_char(n % 10))
    }
}

pub fn char_is_white_space(c: char) -> (r: bool)
    ensures
        r == is_white_space(c),
{
    let n: u32 = c as u32;
    (0x9 <= n && n <= 0xD) || n == 0x20 || n == 0x85 || n == 0xA0 || n == 0x1680 || (0x2000 <= n
        && n <= 0x200A) || n == 0x2028 || n == 0x2029 || n == 0x202F || n == 0x205F || n == 0x3000
}

/// `s` without leading and trailing white space.
pub fn trim<'a>(s: &'a str) -> (r: &'a str)
    ensures
        r@ == trimmed(s@),
{
    let n: usize = s.unicode_len();
    let mut from: usize = 0;
    assert(s@.subrange(0, n as int) =~= s@);
    while from < n && char_is_white_space(s.get_char(from))
        invariant
            from <= n,
            n == s@.len(),
            trimmed_start(s@) == trimmed_start(s@.subrange(from as int, n as int)),
        decreases n - from,
    {
        proof {
            let rest = s@.subrange(from as int, n as int);
            assert(rest.drop_first() =~= s@.subrange(from as int + 1, n as int));
        }
        from += 1;
    }
    assert(trimmed_start(s@) == s@.subrange(from as int, n as int));
    let mut to: usize = n;
    while from < to && char_is_white_space(s.get_char(to - 1))
        invariant
            from <= to <= n,
            n == s@.len(),
            trimmed(s@) == trimmed_end(s@.subrange(from as int, to as int)),
        decreases to,
    {
        proof {
            let rest = s@.subrange(from as int, to as int);
            assert(rest.drop_last() =~= s@.subrange(from as int, to as int - 1));
        }
        to -= 1;
    }
    s.substring_char(from, to)
}

pub fn blank(s: &str) -> (r: bool)
    ensures
        r == is_blank(s@),
{
    trim(s).is_empty()
}

/// Equality of texts.
pub fn same(a: &str, b: &str) -> (r: bool)
    ensures
        r == (a@ == b@),
{
    a.to_owned() == b.to_owned()
}

pub fn folded(c: char) -> (r: u32)
    ensures
        r == ascii_folded(c),
{
    let n: u32 = c as u32;
    if 0x41 <= n && n <= 0x5A {
        n + 0x20
    } else {
        n
    }
}

pub fn opens_ignoring_ascii_case(s: &str, prefix: &str) -> (r: bool)
    ensures
        r == starts_with_ignoring_ascii_case(s@, prefix@),
{
    let n: usize = prefix.unicode_len();
    if n > s.unicode_len() {
        return false;
    }
    let mut i: usize = 0;
    while i < n
        invariant
            i <= n,
            n == prefix@.len(),
            n <= s@.len(),
            forall|j: int| 0 <= j < i ==> ascii_folded(#[trigger] s@[j]) == ascii_folded(prefix@[j]),
        decreases n - i,
    {
        if folded(s.get_char(i)) != folded(prefix.get_char(i)) {
            assert(ascii_folded(s@[i as int]) != ascii_folded(prefix@[i as int]));
            return false;
        }
        i += 1;
    }
    true
}

pub fn equal_ignoring_ascii_case(a: &str, b: &str) -> (r: bool)
    ensures
        r == same_ignoring_ascii_case(a@, b@),
{
    a.unicode_len() == b.unicode_len() && opens_ignoring_ascii_case(a, b)
}

/// Whether `c` occurs in `s`.
pub fn has_char(s: &str, c: char) -> (r: bool)
    ensures
        r == s@.contains(c),
{
    let n: usize = s.unicode_len();
    let mut i: usize = 0;
    while i < n
        invariant
            i <= n,
            n == s@.len(),
            forall|j: int| 0 <= j < i ==> s@[j] != c,
        decreases n - i,
    {
        if s.get_char(i) == c {
            assert(s@[i as int] == c);
            return true;
        }
        i += 1;
    }
    false
}

fn digit_text(n: u64) -> (r: &'static str)
    requires
        n < 10,
    ensures
        r@ == seq![digit_char(n as nat)],
{
    proof {
        reveal_strlit("0");
        reveal_strlit("1");
        reveal_strlit("2");
        reveal_strlit("3");
        reveal_strlit("4");
        reveal_strlit("5");
        reveal_strlit("6");
        reveal_strlit("7");
        reveal_strlit("8");
        reveal_strlit("9");
    }
    if n == 0 {
        "0"
    } else if n == 1 {
        "1"
    } else if n == 2 {
        "2"
    } else if n == 3 {
        "3"
    } else if n == 4 {
        "4"
    } else if n == 5 {
        "5"
    } else if n == 6 {
        "6"
    } else if n == 7 {
        "7"
    } else if n == 8 {
        "8"
    } else {
        "9"
    }
}

/// `n` in decimal.
pub fn to_decimal(n: u64) -> (r: String)
    ensures
        r@ == decimal(n as nat),
    decreases n,
{
    if n < 10 {
        digit_text(n).to_owned()
    } else {
        let mut r: String = to_decimal(n / 10);
        r.append(digit_text(n % 10));
        assert(r@ =~= decimal(n as nat));
        r
    }
}

/// The parts, with `separator` between neighbours.
pub fn join(parts: &Vec<String>, separator: &str) -> (r: String)
    ensures
        r@ == joined(texts(parts@), separator@),
{
    let mut r: String = String::new();
    let mut i: usize = 0;
    while i < parts.len()
        invariant
            i <= parts.len(),
            r@ == joined(texts(parts@).take(i as int), separator@),
        decreases parts.len() - i,
    {
        if i > 0 {
            r.append(separator);
        }
        r.append(parts[i].as_str());
        proof {
            let all = texts(parts@);
            assert(all.take(i as int + 1).drop_last() =~= all.take(i as int));
            assert(all.take(i as int + 1).last() == parts@[i as int]@);
            if i == 0 {
                assert(r@ =~= all.take(1)[0]);
            } else {
                assert(r@ =~= joined(all.take(i as int), separator@) + separator@
                    + parts@[i as int]@);
            }
        }
        i += 1;
    }
    assert(texts(parts@).take(i as int) =~= texts(parts@));
    r
}

/// An own copy of the strings.
pub fn copied(list: &Vec<String>) -> (r: Vec<String>)
    ensures
        r@ == list@,
{
    let mut r: Vec<String> = Vec::new();
    let mut i: usize = 0;
    while i < list.len()
        invariant
            i <= list.len(),
            r@ == list@.take(i as int),
        decreases list.len() - i,
    {
        r.push(list[i].clone());
        assert(r@ =~= list@.take(i as int + 1));
        i += 1;
    }
    assert(r@ =~= list@);
    r
}

/// Equality of lists of texts.
pub fn same_list(a: &Vec<String>, b: &Vec<String>) -> (r: bool)
    ensures
        r == (texts(a@) == texts(b@)),
{
    if a.len() != b.len() {
        assert(texts(a@).len() != texts(b@).len());
        return false;
    }
    let mut i: usize = 0;
    while i < a.len()
        invariant
            i <= a.len(),
            a.len() == b.len(),
            forall|j: int| 0 <= j < i ==> a@[j]@ == b@[j]@,
        decreases a.len() - i,
    {
        if a[i] != b[i] {
            proof {
                assert(texts(a@)[i as int] != texts(b@)[i as int]);
            }
            return false;
        }
        i += 1;
    }
    assert(texts(a@) =~= texts(b@));
    true
}

/// The white space characters of Unicode, by their code points.
pub proof fn white_space_is_that_of_unicode(c: char, r: bool)
    requires
        call_ensures(char_is_white_space, (c,), r),
    ensures
        r == is_white_space(c),
        r == set![
            9u32,
            10u32,
            11u32,
            12u32,
            13u32,
            32u32,
            133u32,
            160u32,
            5760u32,
            8192u32,
            8193u32,
            8194u32,
            8195u32,
            8196u32,
            8197u32,
            8198u32,
            8199u32,
            8200u32,
            8201u32,
            8202u32,
            8232u32,
            8233u32,
            8239u32,
            8287u32,
            12288u32,
        ].contains(c as u32),
{
}

proof fn lemma_trimmed_start(s: Seq<char>) -> (i: int)
    ensures
        0 <= i <= s.len(),
        trimmed_start(s) == s.skip(i),
        forall|k: int| 0 <= k < i ==> is_white_space(#[trigger] s[k]),
        i < s.len() ==> !is_white_space(s[i]),
    decreases s.len(),
{
    if s.len() > 0 && is_white_space(s[0]) {
        let i = lemma_trimmed_start(s.drop_first());
        assert(s.drop_first().skip(i) =~= s.skip(i + 1));
        assert forall|k: int| 0 <= k < i + 1 implies is_white_space(#[trigger] s[k]) by {
            if k > 0 {
                assert(s.drop_first()[k - 1] == s[k]);
            }
        }
        if i + 1 < s.len() {
            assert(s.drop_first()[i] == s[i + 1]);
        }
        i + 1
    } else {
        assert(s.skip(0) =~= s);
        0
    }
}

proof fn lemma_trimmed_end(s: Seq<char>) -> (j: int)
    ensures
        0 <= j <= s.len(),
        trimmed_end(s) == s.take(j),
        forall|k: int| j <= k < s.len() ==> is_white_space(#[trigger] s[k]),
        j > 0 ==> !is_white_space(s[j - 1]),
    decreases s.len(),
{
    if s.len() > 0 && is_white_space(s.last()) {
        let j = lemma_trimmed_end(s.drop_last());
        assert(s.drop_last().take(j) =~= s.take(j));
        assert forall|k: int| j <= k < s.len() implies is_white_space(#[trigger] s[k]) by {
            if k < s.len() - 1 {
                assert(s.drop_last()[k] == s[k]);
            }
        }
        if j > 0 {
            assert(s.drop_last()[j - 1] == s[j - 1]);
        }
        j
    } else {
        assert(s.take(s.len() as int) =~= s);
        s.len() as int
    }
}

/// `r` is the part of `s` between its outermost characters that are not white space.
pub open spec fn is_core_of(r: Seq<char>, s: Seq<char>) -> bool {
    exists|i: int, j: int|
        #![trigger s.subrange(i, j)]
        {
            &&& 0 <= i <= j <= s.len()
            &&& r == s.subrange(i, j)
            &&& forall|k: int| 0 <= k < i ==> is_white_space(#[trigger] s[k])
            &&& forall|k: int| j <= k < s.len() ==> is_white_space(#[trigger] s[k])
            &&& i < j ==> !is_white_space(s[i]) && !is_white_space(s[j - 1])
        }
}

/// Trimming takes away white space alone, and all of it at both ends: what is left is a part of the
/// text, nothing but white space stood around it, and it has none at its ends.
pub proof fn trimming_takes_all_white_space_at_the_ends(s: Seq<char>)
    ensures
        is_core_of(trimmed(s), s),
        trimmed(s).len() > 0 ==> !is_white_space(trimmed(s)[0]) && !is_white_space(
            trimmed(s).last(),
        ),
        trimmed(s).len() == 0 <==> forall|k: int|
            0 <= k < s.len() ==> is_white_space(#[trigger] s[k]),
        trimmed(trimmed(s)) == trimmed(s),
{
    let i = lemma_trimmed_start(s);
    let t = s.skip(i);
    let n = lemma_trimmed_end(t);
    let j = i + n;
    assert(t.take(n) =~= s.subrange(i, j));
    assert forall|k: int| j <= k < s.len() implies is_white_space(#[trigger] s[k]) by {
        assert(t[k - i] == s[k]);
    }
    if n > 0 {
        assert(t[n - 1] == s[j - 1]);
        assert(t[0] == s[i]);
        if i == s.len() {
            assert(t.len() == 0);
        }
        assert(!is_white_space(s[i]));
        lemma_nothing_to_trim(trimmed(s));
    }
    assert(is_core_of(trimmed(s), s)) by {
        assert(trimmed(s) == s.subrange(i, j));
    }
}

/// What `trim` gives, and what counts as blank, by the characters alone.
pub proof fn trim_and_blank_go_by_white_space(s: &str, r: &str, b: bool)
    requires
        call_ensures(trim, (s,), r),
        call_ensures(blank, (s,), b),
    ensures
        is_core_of(r@, s@),
        b == (r@.len() == 0),
        b <==> forall|k: int| 0 <= k < s@.len() ==> is_white_space(#[trigger] s@[k]),
{
    trimming_takes_all_white_space_at_the_ends(s@);
}

/// Two characters are the same letter up to ASCII case, or the same character.
pub open spec fn same_letter(a: char, b: char) -> bool {
    ||| a == b
    ||| 'A' <= a <= 'Z' && b as int == a as int + 32
    ||| 'A' <= b <= 'Z' && a as int == b as int + 32
}

proof fn lemma_same_letter(a: char, b: char)
    ensures
        (ascii_folded(a) == ascii_folded(b)) == same_letter(a, b),
{
    assert((a as u32) as int == a as int);
    assert((b as u32) as int == b as int);
    assert((a as int == b as int) == (a == b));
}

/// Texts are equal up to ASCII case where their characters are, one by one, and one opens another
/// where its characters are those that stand there first.
pub proof fn ascii_case_is_all_that_is_ignored(a: &str, b: &str, equal: bool, opens: bool)
    requires
        call_ensures(equal_ignoring_ascii_case, (a, b), equal),
        call_ensures(opens_ignoring_ascii_case, (a, b), opens),
    ensures
        equal <==> a@.len() == b@.len() && forall|i: int|
            0 <= i < a@.len() ==> same_letter(#[trigger] a@[i], b@[i]),
        opens <==> b@.len() <= a@.len() && forall|i: int|
            0 <= i < b@.len() ==> same_letter(#[trigger] a@[i], b@[i]),
{
    same_letters(a@, b@);
}

/// The number that a text of decimal digits stands for.
pub open spec fn number_in(digits: Seq<char>) -> int {
    digits.fold_left(0int, |n: int, digit: char| 10 * n + (digit as int - '0' as int))
}

proof fn lemma_decimal(n: nat)
    ensures
        decimal(n).len() > 0,
        forall|i: int| 0 <= i < decimal(n).len() ==> '0' <= #[trigger] decimal(n)[i] <= '9',
        n > 0 ==> decimal(n)[0] != '0',
        number_in(decimal(n)) == n,
    decreases n,
{
    let step = |n: int, digit: char| 10 * n + (digit as int - '0' as int);
    if n < 10 {
        let s = decimal(n);
        assert(s.drop_last() =~= Seq::<char>::empty());
        reveal_with_fuel(Seq::fold_left, 2);
        assert(number_in(s) == n);
    } else {
        lemma_decimal(n / 10);
        let s = decimal(n);
        assert(s.drop_last() =~= decimal(n / 10));
        assert(s.fold_left(0int, step) == step(s.drop_last().fold_left(0int, step), s.last()));
        assert(s[0] == decimal(n / 10)[0]);
    }
}

/// A number is written with the digits 0 to 9, without leading zeros, and can be read back.
pub proof fn decimals_read_back(n: u64, r: String)
    requires
        call_ensures(to_decimal, (n,), r),
    ensures
        r@.len() > 0,
        forall|i: int| 0 <= i < r@.len() ==> '0' <= #[trigger] r@[i] <= '9',
        n > 0 ==> r@[0] != '0',
        number_in(r@) == n,
{
    lemma_decimal(n as nat);
}

/// Joining puts the separator between neighbours: nothing comes of no parts, one part stays as it
/// is, and one more part comes after one more separator.
pub proof fn joining_goes_part_by_part(
    parts: &Vec<String>,
    more: &Vec<String>,
    part: String,
    separator: &str,
    r: String,
    longer: String,
)
    requires
        more@ == parts@.push(part),
        call_ensures(join, (parts, separator), r),
        call_ensures(join, (more, separator), longer),
    ensures
        parts@.len() == 0 ==> r@.len() == 0 && longer@ == part@,
        parts@.len() > 0 ==> longer@ == r@ + separator@ + part@,
{
    assert(texts(more@).drop_last() =~= texts(parts@));
    assert(texts(more@).last() == part@);
    assert(texts(more@).len() == parts@.len() + 1);
}

/// Lists of texts are compared text by text, and a copy holds the same texts.
pub proof fn lists_go_text_by_text(a: &Vec<String>, b: &Vec<String>, r: bool, copy: Vec<String>)
    requires
        call_ensures(same_list, (a, b), r),
        call_ensures(copied, (a,), copy),
    ensures
        r <==> a@.len() == b@.len() && forall|i: int|
            0 <= i < a@.len() ==> (#[trigger] a@[i])@ == b@[i]@,
        copy@ == a@,
{
    same_texts(a@, b@);
}

/// The texts of two lists are equal where they are equal one by one.
pub proof fn same_texts(a: Seq<String>, b: Seq<String>)
    ensures
        texts(a) == texts(b) <==> a.len() == b.len() && forall|i: int|
            0 <= i < a.len() ==> (#[trigger] a[i])@ == b[i]@,
{
    if texts(a) == texts(b) {
        assert(texts(a).len() == a.len() && texts(b).len() == b.len());
        assert forall|i: int| 0 <= i < a.len() implies (#[trigger] a[i])@ == b[i]@ by {
            assert(texts(a)[i] == a[i]@ && texts(b)[i] == b[i]@);
        }
    }
    if a.len() == b.len() && forall|i: int| 0 <= i < a.len() ==> (#[trigger] a[i])@ == b[i]@ {
        assert(texts(a) =~= texts(b));
    }
}

/// A character is in a text where it stands somewhere in it, and texts are the same where their
/// characters are.
pub proof fn texts_are_their_characters(s: &str, t: &str, c: char, has: bool, equal: bool)
    requires
        call_ensures(has_char, (s, c), has),
        call_ensures(same, (s, t), equal),
    ensures
        has <==> exists|i: int| 0 <= i < s@.len() && #[trigger] s@[i] == c,
        equal <==> s@.len() == t@.len() && forall|i: int|
            0 <= i < s@.len() ==> #[trigger] s@[i] == t@[i],
{
    if s@.len() == t@.len() && forall|i: int| 0 <= i < s@.len() ==> #[trigger] s@[i] == t@[i] {
        assert(s@ =~= t@);
    }
}

/// Texts are equal up to ASCII case where their characters are, one by one.
pub proof fn same_letters(a: Seq<char>, b: Seq<char>)
    ensures
        same_ignoring_ascii_case(a, b) <==> a.len() == b.len() && forall|i: int|
            0 <= i < a.len() ==> same_letter(#[trigger] a[i], b[i]),
        starts_with_ignoring_ascii_case(a, b) <==> b.len() <= a.len() && forall|i: int|
            0 <= i < b.len() ==> same_letter(#[trigger] a[i], b[i]),
{
    assert forall|i: int| 0 <= i < a.len() && i < b.len() implies (ascii_folded(#[trigger] a[i])
        == ascii_folded(b[i])) == same_letter(a[i], b[i]) by {
        lemma_same_letter(a[i], b[i]);
    }
}

/// Folding turns the ASCII capitals into small letters and leaves every other character.
pub proof fn folding_turns_capitals_small(c: char, r: u32)
    requires
        call_ensures(folded, (c,), r),
    ensures
        'A' <= c <= 'Z' ==> r == c as int + 32,
        !('A' <= c <= 'Z') ==> r == c as int,
{
}

/// The characters of a text that may be missing.
pub proof fn missing_texts_have_no_characters(s: String)
    ensures
        optional_text(Some(s)) == Some(s@),
        optional_text(None) is None,
{
}

} // verus!
