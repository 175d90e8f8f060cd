//! Character-level helpers shared by the parsers and path builders.
use vstd::prelude::*;

verus! {

broadcast use vstd::string::group_string_axioms;

/// Appends one character to a `String` (`String::push`).
#[verifier::external_body]
pub(crate) fn push_char(s: &mut String, c: char)
    ensures
        final(s)@ == old(s)@.push(c),
{
    s.push(c);
}

/// The characters of `s`, in order.
pub fn chars_of(s: &str) -> (v: Vec<char>)
    ensures
        v@ == s@,
{
    let mut v: Vec<char> = Vec::new();
    for c in it: s.chars()
        invariant
            v@ == it.seq().take(it.index() as int),
            it.seq() == s@,
    {
        v.push(c);
    }
    v
}

/// The string made of `v[lo..hi]`.
pub fn string_of(v: &Vec<char>, lo: usize, hi: usize) -> (s: String)
    requires
        lo <= hi <= v.len(),
    ensures
        s@ == v@.subrange(lo as int, hi as int),
{
    let mut s = String::new();
    let mut i = lo;
    while i < hi
        invariant
            lo <= i <= hi <= v.len(),
            s@ == v@.subrange(lo as int, i as int),
        decreases hi - i,
    {
        push_char(&mut s, v[i]);
        i = i + 1;
    }
    s
}


/// `pat` occurs in `s` starting at position `i`.
pub open spec fn occurs_at(s: Seq<char>, pat: Seq<char>, i: int) -> bool {
    &&& 0 <= i
    &&& i + pat.len() <= s.len()
    &&& s.subrange(i, i + pat.len()) == pat
}

/// `i` is the first position at which `pat` occurs in `s`.
pub open spec fn first_occurrence(s: Seq<char>, pat: Seq<char>, i: int) -> bool {
    &&& occurs_at(s, pat, i)
    &&& forall|j: int| 0 <= j < i ==> !occurs_at(s, pat, j)
}

/// Position of the first occurrence of `pat` in `s` (as `str::find`,
/// counted in characters), or `None` when `pat` does not occur.
pub open spec fn find(s: Seq<char>, pat: Seq<char>) -> Option<int> {
    if exists|i: int| occurs_at(s, pat, i) {
        Some(choose|i: int| first_occurrence(s, pat, i))
    } else {
        None
    }
}

/// `s` begins with `pat`.
pub open spec fn starts_with(s: Seq<char>, pat: Seq<char>) -> bool {
    pat.len() <= s.len() && s.take(pat.len() as int) == pat
}

proof fn lemma_first_occurrence_exists(s: Seq<char>, pat: Seq<char>, k: int)
    requires
        occurs_at(s, pat, k),
    ensures
        exists|i: int| first_occurrence(s, pat, i),
    decreases k,
{
    if exists|j: int| 0 <= j < k && occurs_at(s, pat, j) {
        let j = choose|j: int| 0 <= j < k && occurs_at(s, pat, j);
        lemma_first_occurrence_exists(s, pat, j);
    } else {
        assert(first_occurrence(s, pat, k));
    }
}

/// What `find` returns when it returns something.
pub proof fn lemma_find_some(s: Seq<char>, pat: Seq<char>)
    requires
        find(s, pat) is Some,
    ensures
        first_occurrence(s, pat, find(s, pat)->0),
        0 <= find(s, pat)->0 <= s.len() - pat.len(),
{
    let k = choose|i: int| occurs_at(s, pat, i);
    lemma_first_occurrence_exists(s, pat, k);
}

/// A first occurrence is what `find` returns.
pub proof fn lemma_find_is(s: Seq<char>, pat: Seq<char>, i: int)
    requires
        first_occurrence(s, pat, i),
    ensures
        find(s, pat) == Some(i),
{
    let j = choose|j: int| first_occurrence(s, pat, j);
    assert(first_occurrence(s, pat, j));
    assert(!(j < i));
    assert(!(i < j));
}

/// The Unicode `White_Space` property (`char::is_whitespace`).
pub open spec fn is_white(c: char) -> bool {
    ||| ('\t' <= c && c <= '\r')
    ||| c == ' '
    ||| c == '\u{85}'
    ||| c == '\u{a0}'
    ||| c == '\u{1680}'
    ||| ('\u{2000}' <= c && c <= '\u{200a}')
    ||| c == '\u{2028}'
    ||| c == '\u{2029}'
    ||| c == '\u{202f}'
    ||| c == '\u{205f}'
    ||| c == '\u{3000}'
}

/// `s` without its leading whitespace.
pub open spec fn trim_start(s: Seq<char>) -> Seq<char>
    decreases s.len(),
{
    if s.len() > 0 && is_white(s[0]) {
        trim_start(s.drop_first())
    } else {
        s
    }
}

/// `s` without its trailing whitespace.
pub open spec fn trim_end(s: Seq<char>) -> Seq<char>
    decreases s.len(),
{
    if s.len() > 0 && is_white(s.last()) {
        trim_end(s.drop_last())
    } else {
        s
    }
}

/// `s` without leading and trailing whitespace (`str::trim`).
pub open spec fn trim(s: Seq<char>) -> Seq<char> {
    trim_end(trim_start(s))
}

pub fn is_whitespace(c: char) -> (b: bool)
    ensures
        b == is_white(c),
{
    ('\t' <= c && c <= '\r') || c == ' ' || c == '\u{85}' || c == '\u{a0}' || c == '\u{1680}'
        || ('\u{2000}' <= c && c <= '\u{200a}') || c == '\u{2028}' || c == '\u{2029}'
        || c == '\u{202f}' || c == '\u{205f}' || c == '\u{3000}'
}

/// Bounds of the trimmed part of `v[lo..hi]`.
pub fn trim_range(v: &Vec<char>, lo: usize, hi: usize) -> (r: (usize, usize))
    requires
        lo <= hi <= v.len(),
    ensures
        lo <= r.0 <= r.1 <= hi,
        v@.subrange(r.0 as int, r.1 as int) == trim(v@.subrange(lo as int, hi as int)),
{
    let mut a = lo;
    while a < hi && is_whitespace(v[a])
        invariant
            lo <= a <= hi <= v.len(),
            trim_start(v@.subrange(a as int, hi as int)) == trim_start(v@.subrange(lo as int, hi as int)),
        decreases hi - a,
    {
        assert(v@.subrange(a as int, hi as int).drop_first() =~= v@.subrange(a + 1, hi as int));
        a = a + 1;
    }
    let mut b = hi;
    while b > a && is_whitespace(v[b - 1])
        invariant
            lo <= a <= b <= hi <= v.len(),
            trim_end(v@.subrange(a as int, b as int)) == trim_end(v@.subrange(a as int, hi as int)),
        decreases b - a,
    {
        assert(v@.subrange(a as int, b as int).drop_last() =~= v@.subrange(a as int, b - 1));
        b = b - 1;
    }
    (a, b)
}

/// Whether `v[lo..hi]` begins with `pat`.
pub fn starts_with_at(v: &Vec<char>, lo: usize, hi: usize, pat: &Vec<char>) -> (b: bool)
    requires
        lo <= hi <= v.len(),
    ensures
        b == starts_with(v@.subrange(lo as int, hi as int), pat@),
{
    if pat.len() > hi - lo {
        return false;
    }
    let mut k: usize = 0;
    while k < pat.len()
        invariant
            pat.len() <= hi - lo,
            lo <= hi <= v.len(),
            k <= pat.len(),
            forall|j: int| 0 <= j < k ==> v@[lo + j] == pat@[j],
        decreases pat.len() - k,
    {
        if v[lo + k] != pat[k] {
            assert(v@.subrange(lo as int, hi as int).take(pat.len() as int)[k as int] != pat@[k as int]);
            return false;
        }
        k = k + 1;
    }
    assert(v@.subrange(lo as int, hi as int).take(pat.len() as int) =~= pat@);
    true
}

/// Position (in `v`) of the first occurrence of `pat` in `v[lo..hi]`.
pub fn find_in(v: &Vec<char>, lo: usize, hi: usize, pat: &Vec<char>) -> (r: Option<usize>)
    requires
        lo <= hi <= v.len(),
    ensures
        match r {
            Some(i) => lo <= i && find(v@.subrange(lo as int, hi as int), pat@) == Some(i - lo),
            None => find(v@.subrange(lo as int, hi as int), pat@) is None,
        },
{
    let ghost s = v@.subrange(lo as int, hi as int);
    if pat.len() > hi - lo {
        assert forall|i: int| !occurs_at(s, pat@, i) by {}
        return None;
    }
    if pat.len() == 0 {
        assert(s.subrange(0, 0) =~= pat@);
        proof { lemma_find_is(s, pat@, 0); }
        return Some(lo);
    }
    let mut i = lo;
    while i <= hi - pat.len()
        invariant
            lo <= i <= hi <= v.len(),
            1 <= pat.len() <= hi - lo,
            s == v@.subrange(lo as int, hi as int),
            forall|j: int| 0 <= j < i - lo ==> !occurs_at(s, pat@, j),
        decreases hi - i,
    {
        if starts_with_at(v, i, hi, pat) {
            assert(v@.subrange(i as int, hi as int).take(pat.len() as int)
                =~= s.subrange(i - lo, i - lo + pat.len()));
            proof { lemma_find_is(s, pat@, i - lo); }
            return Some(i);
        }
        assert(!occurs_at(s, pat@, i - lo)) by {
            if occurs_at(s, pat@, i - lo) {
                assert(v@.subrange(i as int, hi as int).take(pat.len() as int)
                    =~= s.subrange(i - lo, i - lo + pat.len()));
            }
        }
        i = i + 1;
    }
    assert forall|j: int| !occurs_at(s, pat@, j) by {
        if occurs_at(s, pat@, j) {
            assert(0 <= j < i - lo);
        }
    }
    None
}


/// A line without the `'\r'` of a `"\r\n"` ending.
pub open spec fn strip_cr(l: Seq<char>) -> Seq<char> {
    if l.len() > 0 && l.last() == '\r' {
        l.drop_last()
    } else {
        l
    }
}

/// The lines of `t`, as `str::lines` yields them: split at `'\n'` or
/// `"\r\n"`, the final line ending optional.
pub open spec fn lines(t: Seq<char>) -> Seq<Seq<char>>
    decreases t.len(),
{
    if t.len() == 0 {
        seq![]
    } else {
        match find(t, seq!['\n']) {
            Some(i) => {
                proof {
                    lemma_find_some(t, seq!['\n']);
                }
                seq![strip_cr(t.take(i))] + lines(t.skip(i + 1))
            },
            None => seq![t],
        }
    }
}

/// `'\n'` occurs at `i` exactly when `s[i]` is `'\n'`.
pub proof fn lemma_occurs_newline(s: Seq<char>, i: int)
    requires
        0 <= i < s.len(),
    ensures
        occurs_at(s, seq!['\n'], i) <==> s[i] == '\n',
{
    assert(s.subrange(i, i + 1) =~= seq![s[i]]);
    if occurs_at(s, seq!['\n'], i) {
        assert(seq![s[i]][0] == seq!['\n'][0]);
    }
    if s[i] == '\n' {
        assert(seq![s[i]] =~= seq!['\n']);
    }
}

/// Splitting off the first line of `t.skip(start)`, which ends with the
/// `'\n'` at `nl`.
pub proof fn lemma_lines_step(t: Seq<char>, start: int, nl: int)
    requires
        0 <= start <= nl < t.len(),
        t[nl] == '\n',
        forall|j: int| start <= j < nl ==> t[j] != '\n',
    ensures
        lines(t.skip(start)) == seq![strip_cr(t.subrange(start, nl))] + lines(t.skip(nl + 1)),
{
    let u = t.skip(start);
    let k = nl - start;
    assert forall|j: int| 0 <= j < k implies !occurs_at(u, seq!['\n'], j) by {
        lemma_occurs_newline(u, j);
    }
    lemma_occurs_newline(u, k);
    lemma_find_is(u, seq!['\n'], k);
    assert(u.take(k) =~= t.subrange(start, nl));
    assert(u.skip(k + 1) =~= t.skip(nl + 1));
}

/// The last line of `t`: `t.skip(start)` holds no `'\n'`.
pub proof fn lemma_lines_last(t: Seq<char>, start: int)
    requires
        0 <= start <= t.len(),
        forall|j: int| start <= j < t.len() ==> t[j] != '\n',
    ensures
        start < t.len() ==> lines(t.skip(start)) == seq![t.skip(start)],
        start == t.len() ==> lines(t.skip(start)) == Seq::<Seq<char>>::empty(),
{
    let u = t.skip(start);
    assert forall|j: int| !occurs_at(u, seq!['\n'], j) by {
        if 0 <= j < u.len() {
            lemma_occurs_newline(u, j);
        }
    }
}

/// The POSIX joining of a relative or absolute path onto a base
/// (`Path::join` on Unix): an absolute `rel` replaces `base`; otherwise a
/// `'/'` is inserted unless `base` is empty or already ends with one.
pub open spec fn path_join(base: Seq<char>, rel: Seq<char>) -> Seq<char> {
    if rel.len() > 0 && rel[0] == '/' {
        rel
    } else if base.len() == 0 || base.last() == '/' {
        base + rel
    } else {
        base + seq!['/'] + rel
    }
}

pub fn join_path(base: &str, rel: &str) -> (p: String)
    ensures
        p@ == path_join(base@, rel@),
{
    let rn = rel.unicode_len();
    if rn > 0 && rel.get_char(0) == '/' {
        return rel.to_owned();
    }
    let bn = base.unicode_len();
    let mut p = base.to_owned();
    if bn > 0 && base.get_char(bn - 1) != '/' {
        push_char(&mut p, '/');
    }
    p.append(rel);
    p
}

/// `a` followed by `b`.
pub fn concat(a: &str, b: &str) -> (s: String)
    ensures
        s@ == a@ + b@,
{
    let mut s = a.to_owned();
    s.append(b);
    s
}

/// Appends the characters `v[lo..hi]` to `s`.
pub fn push_range(s: &mut String, v: &Vec<char>, lo: usize, hi: usize)
    requires
        lo <= hi <= v.len(),
    ensures
        final(s)@ == old(s)@ + v@.subrange(lo as int, hi as int),
{
    let mut i = lo;
    while i < hi
        invariant
            lo <= i <= hi <= v.len(),
            s@ == old(s)@ + v@.subrange(lo as int, i as int),
        decreases hi - i,
    {
        push_char(s, v[i]);
        assert(v@.subrange(lo as int, i + 1) =~= v@.subrange(lo as int, i as int).push(v@[i as int]));
        i = i + 1;
    }
}


/// The Unicode upper-case mapping of `c` (`char::to_uppercase`), one to
/// three characters.
pub uninterp spec fn uppercase_of(c: char) -> Seq<char>;

/// `c` with an ASCII lower-case letter made upper-case
/// (`char::to_ascii_uppercase`).
pub open spec fn ascii_upper(c: char) -> char {
    if 'a' <= c && c <= 'z' {
        ((c as u32) - 32) as char
    } else {
        c
    }
}

/// `char::to_uppercase`, collected. Of the result the contract states the
/// name [`uppercase_of`], that it is not empty, that on ASCII it agrees
/// with `to_ascii_uppercase`, as the standard library documents, and that
/// the upper-case form of a character other than `-` and `_` holds neither:
/// the mapping is the one of the Unicode Character Database
/// (`UnicodeData.txt`, `SpecialCasing.txt`) that the documentation cites,
/// where `-` and `_` have no case and occur in no character's mapping.
#[verifier::external_body]
pub(crate) fn uppercase_chars(c: char) -> (u: Vec<char>)
    ensures
        u@ == uppercase_of(c),
        u@.len() >= 1,
        (c as u32) < 128 ==> u@ == seq![ascii_upper(c)],
        c != '-' && c != '_' ==> forall|i: int| 0 <= i < u@.len() ==> u@[i] != '-' && u@[i] != '_',
{
    c.to_uppercase().collect()
}

pub fn to_ascii_upper(c: char) -> (u: char)
    ensures
        u == ascii_upper(c),
{
    if 'a' <= c && c <= 'z' {
        ((c as u8) - 32) as char
    } else {
        c
    }
}

/// Whether `a` and `b` hold the same characters.
pub fn same_text(a: &str, b: &str) -> (e: bool)
    ensures
        e == (a@ == b@),
{
    let x = chars_of(a);
    let y = chars_of(b);
    if x.len() != y.len() {
        return false;
    }
    let mut i: usize = 0;
    while i < x.len()
        invariant
            x@ == a@,
            y@ == b@,
            x.len() == y.len(),
            i <= x.len(),
            forall|j: int| 0 <= j < i ==> x@[j] == y@[j],
        decreases x.len() - i,
    {
        if x[i] != y[i] {
            assert(a@[i as int] != b@[i as int]);
            return false;
        }
        i = i + 1;
    }
    assert(x@ =~= y@);
    true
}


pub const DIGITS: [char; 10] = ['0', '1', '2', '3', '4', '5', '6', '7', '8', '9'];

/// The decimal digits of `n`, most significant first.
pub open spec fn digits(n: nat) -> Seq<char>
    decreases n,
{
    if n < 10 {
        seq![DIGITS@[n as int]]
    } else {
        digits(n / 10) + seq![DIGITS@[(n % 10) as int]]
    }
}

/// The decimal rendering of `n` (as `{}` formats an integer).
pub open spec fn decimal(n: int) -> Seq<char> {
    if n < 0 {
        seq!['-'] + digits((-n) as nat)
    } else {
        digits(n as nat)
    }
}

fn digits_of(m: u32) -> (s: String)
    ensures
        s@ == digits(m as nat),
    decreases m,
{
    if m < 10 {
        let mut s = String::new();
        push_char(&mut s, DIGITS[m as usize]);
        s
    } else {
        let mut s = digits_of(m / 10);
        push_char(&mut s, DIGITS[(m % 10) as usize]);
        s
    }
}

/// The decimal rendering of `n`.
pub fn decimal_of(n: i32) -> (s: String)
    ensures
        s@ == decimal(n as int),
{
    if n < 0 {
        let m: u32 = (0i64 - (n as i64)) as u32;
        assert(m as int == -(n as int));
        let d = digits_of(m);
        proof {
            reveal_strlit("-");
            assert("-"@ =~= seq!['-']);
        }
        concat("-", d.as_str())
    } else {
        digits_of(n as u32)
    }
}

/// `parts` joined with `sep` between consecutive parts.
pub open spec fn joined(parts: Seq<Seq<char>>, sep: Seq<char>) -> Seq<char>
    decreases parts.len(),
{
    if parts.len() == 0 {
        seq![]
    } else if parts.len() == 1 {
        parts[0]
    } else {
        joined(parts.drop_last(), sep) + sep + parts.last()
    }
}

/// `parts` joined with `sep` (`[String]::join`).
pub fn join_strings(parts: &Vec<String>, sep: &str) -> (s: String)
    ensures
        s@ == joined(parts@.map_values(|p: String| p@), sep@),
{
    let ghost views = parts@.map_values(|p: String| p@);
    let mut s = String::new();
    let mut i: usize = 0;
    while i < parts.len()
        invariant
            i <= parts.len(),
            views == parts@.map_values(|p: String| p@),
            s@ == joined(views.take(i as int), sep@),
        decreases parts.len() - i,
    {
        if i > 0 {
            s.append(sep);
        }
        s.append(parts[i].as_str());
        assert(views.take(i + 1).drop_last() =~= views.take(i as int));
        if i == 0 {
            assert(views.take(1) =~= seq![views[0]]);
        }
        i = i + 1;
    }
    assert(views.take(parts.len() as int) =~= views);
    s
}

/// `s` with every non-overlapping occurrence of `pat`, scanning left to
/// right, replaced by `with` (`str::replace` with a non-empty pattern).
pub open spec fn replaced(s: Seq<char>, pat: Seq<char>, with: Seq<char>) -> Seq<char>
    decreases s.len(),
{
    if pat.len() == 0 {
        s
    } else {
        match find(s, pat) {
            Some(i) => {
                proof {
                    lemma_find_some(s, pat);
                }
                s.take(i) + with + replaced(s.skip(i + pat.len()), pat, with)
            },
            None => s,
        }
    }
}

/// `text` with every occurrence of the non-empty `pat` replaced by `with`.
pub fn replace_all(text: &str, pat: &str, with: &str) -> (r: String)
    requires
        pat@.len() > 0,
    ensures
        r@ == replaced(text@, pat@, with@),
{
    let v = chars_of(text);
    let p = chars_of(pat);
    let mut r = String::new();
    let mut start: usize = 0;
    assert(v@.skip(0) =~= v@);
    loop
        invariant
            v@ == text@,
            p@ == pat@,
            p@.len() > 0,
            start <= v.len(),
            replaced(text@, pat@, with@) == r@ + replaced(v@.skip(start as int), pat@, with@),
        decreases v.len() - start,
    {
        assert(v@.subrange(start as int, v.len() as int) =~= v@.skip(start as int));
        match find_in(&v, start, v.len(), &p) {
            None => {
                let ghost before = r@;
                push_range(&mut r, &v, start, v.len());
                return r;
            },
            Some(i) => {
                let ghost u = v@.skip(start as int);
                proof {
                    lemma_find_some(u, p@);
                }
                assert(u.take(i - start) =~= v@.subrange(start as int, i as int));
                assert(u.skip(i - start + p@.len()) =~= v@.skip(i + p@.len()));
                let ghost before = r@;
                push_range(&mut r, &v, start, i);
                r.append(with);
                assert(before + (u.take(i - start) + with@ + replaced(
                    v@.skip(i + p@.len()),
                    pat@,
                    with@,
                )) =~= r@ + replaced(v@.skip(i + p@.len()), pat@, with@));
                start = i + p.len();
            },
        }
    }
}

/// The view of a list of strings.
pub open spec fn strings(v: Vec<String>) -> Seq<Seq<char>> {
    v@.map_values(|s: String| s@)
}

/// The view of a list of environment assignments.
pub open spec fn assignments(v: Vec<(String, String)>) -> Seq<(Seq<char>, Seq<char>)> {
    v@.map_values(|a: (String, String)| (a.0@, a.1@))
}

/// Pushing onto a list of strings pushes the view.
pub proof fn lemma_strings_push(v: Seq<String>, x: String)
    ensures
        v.push(x).map_values(|p: String| p@) == v.map_values(|p: String| p@).push(x@),
{
    assert(v.push(x).map_values(|p: String| p@) =~= v.map_values(|p: String| p@).push(x@));
}

/// The strings `items`, owned.
pub fn owned_strings(items: &[&str]) -> (v: Vec<String>)
    ensures
        strings(v) == items@.map_values(|x: &str| x@),
{
    let mut v: Vec<String> = Vec::new();
    let mut i: usize = 0;
    while i < items.len()
        invariant
            i <= items@.len(),
            v@.len() == i,
            strings(v) == items@.take(i as int).map_values(|x: &str| x@),
        decreases items.len() - i,
    {
        let ghost old_v = v@;
        let x = items[i].to_owned();
        v.push(x);
        assert(strings(v).len() == i + 1);
        assert forall|j: int| 0 <= j < i + 1 implies #[trigger] strings(v)[j] == items@.take(
            i + 1,
        ).map_values(|x: &str| x@)[j] by {
            if j < i {
                assert(v@[j] == old_v[j]);
                assert(old_v.map_values(|p: String| p@)[j] == old_v[j]@);
            }
        }
        assert(strings(v) =~= items@.take(i + 1).map_values(|x: &str| x@));
        i = i + 1;
    }
    assert(items@.take(items@.len() as int) =~= items@);
    v
}

} // verus!
