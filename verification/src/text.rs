//! Text helpers: decimal rendering, joining and ASCII-safe prefixes.

use vstd::prelude::*;
use vstd::string::StringSliceAdditionalSpecFns;

verus! {

/// The ASCII digit for a value below ten.
pub open spec fn digit_char(d: nat) -> char {
    if d == 0 { '0' }
    else if d == 1 { '1' }
    else if d == 2 { '2' }
    else if d == 3 { '3' }
    else if d == 4 { '4' }
    else if d == 5 { '5' }
    else if d == 6 { '6' }
    else if d == 7 { '7' }
    else if d == 8 { '8' }
    else { '9' }
}

/// Base-ten rendering of a natural number, most significant digit first.
pub open spec fn decimal(n: nat) -> Seq<char>
    decreases n,
{
    if n < 10 {
        seq![digit_char(n)]
    } else {
        decimal(n / 10) + seq![digit_char(n % 10)]
    }
}

fn digit_str(d: u64) -> (r: &'static str)
    requires
        d < 10,
    ensures
        r@ == seq![digit_char(d as nat)],
{
    proof {
        reveal_strlit("0");
        reveal_strlit("1");
        reveal_strlit("2");
        reveal_strlit("3");
        reveal_strlit("4");
        reveal_strlit("5");
        reveal_strlit("6");
        reveal_strlit("7");
        reveal_strlit("8");
        reveal_strlit("9");
    }
    if d == 0 { "0" }
    else if d == 1 { "1" }
    else if d == 2 { "2" }
    else if d == 3 { "3" }
    else if d == 4 { "4" }
    else if d == 5 { "5" }
    else if d == 6 { "6" }
    else if d == 7 { "7" }
    else if d == 8 { "8" }
    else { "9" }
}

/// Renders `n` in base ten, as `{}` formatting does.
pub fn decimal_string(n: u64) -> (r: String)
    ensures
        r@ == decimal(n as nat),
    decreases n,
{
    if n < 10 {
        String::from_str(digit_str(n))
    } else {
        let mut s = decimal_string(n / 10);
        s.append(digit_str(n % 10));
        s
    }
}

} // verus!

verus! {

/// Whether two texts are equal.
pub fn str_eq(a: &str, b: &str) -> (r: bool)
    ensures
        r == (a@ == b@),
{
    let x = String::from_str(a);
    let y = String::from_str(b);
    x == y
}

/// A copy of an optional text.
pub fn clone_opt(s: &Option<String>) -> (r: Option<String>)
    ensures
        r == *s,
{
    match s {
        Some(t) => Some(t.clone()),
        None => None,
    }
}

} // verus!

verus! {

/// The lower-case hex digit for a value below sixteen.
pub open spec fn hex_char(d: nat) -> char {
    if d < 10 {
        digit_char(d)
    } else if d == 10 {
        'a'
    } else if d == 11 {
        'b'
    } else if d == 12 {
        'c'
    } else if d == 13 {
        'd'
    } else if d == 14 {
        'e'
    } else {
        'f'
    }
}

/// Base-sixteen rendering in lower case, as `{:x}` formatting does.
pub open spec fn hex(n: nat) -> Seq<char>
    decreases n,
{
    if n < 16 {
        seq![hex_char(n)]
    } else {
        hex(n / 16) + seq![hex_char(n % 16)]
    }
}

fn hex_digit_str(d: u64) -> (r: &'static str)
    requires
        d < 16,
    ensures
        r@ == seq![hex_char(d as nat)],
{
    proof {
        reveal_strlit("a");
        reveal_strlit("b");
        reveal_strlit("c");
        reveal_strlit("d");
        reveal_strlit("e");
        reveal_strlit("f");
    }
    if d < 10 {
        digit_str(d)
    } else if d == 10 {
        "a"
    } else if d == 11 {
        "b"
    } else if d == 12 {
        "c"
    } else if d == 13 {
        "d"
    } else if d == 14 {
        "e"
    } else {
        "f"
    }
}

/// Renders `n` in lower-case hex, as `{:x}` formatting does.
pub fn hex_string(n: u64) -> (r: String)
    ensures
        r@ == hex(n as nat),
    decreases n,
{
    if n < 16 {
        String::from_str(hex_digit_str(n))
    } else {
        let mut s = hex_string(n / 16);
        s.append(hex_digit_str(n % 16));
        s
    }
}

} // verus!

verus! {

/// The lower-case form of a text, as `str::to_lowercase` gives it.
pub uninterp spec fn lowercase(s: Seq<char>) -> Seq<char>;

/// Calls `str::to_lowercase`.
#[verifier::external_body]
fn to_lowercase_text(s: &str) -> (r: String)
    ensures
        r@ == lowercase(s@),
{
    s.to_lowercase()
}

/// The lower-case form of a text.
pub fn to_lower(s: &str) -> (r: String)
    ensures
        r@ == lowercase(s@),
{
    to_lowercase_text(s)
}

/// The first `n` characters of an ASCII text.
pub fn ascii_prefix(s: &String, n: usize) -> (r: String)
    requires
        vstd::utf8::is_ascii_chars(s@),
        n <= s@.len(),
    ensures
        r@ == s@.subrange(0, n as int),
{
    let t = s.as_str();
    let head = t.substring_ascii(0, n);
    String::from_str(head)
}

/// The texts of `parts` joined by `sep`.
pub open spec fn joined(parts: Seq<Seq<char>>, sep: Seq<char>) -> Seq<char>
    decreases parts.len(),
{
    if parts.len() == 0 {
        Seq::empty()
    } else if parts.len() == 1 {
        parts[0]
    } else {
        joined(parts.drop_last(), sep) + sep + parts.last()
    }
}

/// Joins texts with a separator, as `[String]::join` does.
pub fn join_texts(parts: &Vec<String>, sep: &str) -> (r: String)
    ensures
        r@ == joined(parts@.map_values(|s: String| s@), sep@),
{
    let ghost views = parts@.map_values(|s: String| s@);
    let mut r = String::new();
    let mut i: usize = 0;
    while i < parts.len()
        invariant
            i <= parts@.len(),
            views == parts@.map_values(|s: String| s@),
            r@ == joined(views.take(i as int), sep@),
        decreases parts.len() - i,
    {
        assert(views.take(i + 1).drop_last() =~= views.take(i as int));
        assert(views.take(i + 1).last() == parts@[i as int]@);
        if i > 0 {
            r.append(sep);
        } else {
            assert(views.take(0) =~= Seq::<Seq<char>>::empty());
        }
        r.append(parts[i].as_str());
        i = i + 1;
    }
    assert(views.take(parts@.len() as int) =~= views);
    r
}

} // verus!

verus! {

/// Whether the bytes of `s` end with those of `suffix`.
pub open spec fn ends_with_bytes(s: Seq<u8>, suffix: Seq<u8>) -> bool {
    suffix.len() <= s.len() && s.subrange(s.len() - suffix.len(), s.len() as int) == suffix
}

/// Whether `s` ends with `suffix`, as `str::ends_with` decides it.
pub fn ends_with(s: &str, suffix: &str) -> (r: bool)
    ensures
        r == ends_with_bytes(s.spec_bytes(), suffix.spec_bytes()),
{
    let b = s.as_bytes();
    let p = suffix.as_bytes();
    if p.len() > b.len() {
        return false;
    }
    let n: usize = b.len();
    let off: usize = n - p.len();
    let mut i: usize = 0;
    while i < p.len()
        invariant
            b@ == s.spec_bytes(),
            p@ == suffix.spec_bytes(),
            p@.len() <= b@.len(),
            n == b@.len(),
            off == b@.len() - p@.len(),
            i <= p@.len(),
            forall|j: int| 0 <= j < i ==> b@[off + j] == p@[j],
        decreases p.len() - i,
    {
        if b[off + i] != p[i] {
            assert(b@.subrange(off as int, b@.len() as int)[i as int] != p@[i as int]);
            return false;
        }
        i = i + 1;
    }
    assert(b@.subrange(off as int, b@.len() as int) =~= p@);
    true
}

} // verus!

verus! {

/// The text of the first `n` bytes of `s`; the cut must fall between
/// characters.
pub fn head_bytes(s: &str, n: usize) -> (r: String)
    requires
        n <= s.spec_bytes().len(),
        vstd::utf8::is_char_boundary(s.spec_bytes(), n as int),
    ensures
        r@ == vstd::utf8::decode_utf8(s.spec_bytes().subrange(0, n as int)),
{
    let (head, _) = s.split_at(n);
    proof {
        vstd::utf8::encode_utf8_decode_utf8(head@);
    }
    head.to_owned()
}

} // verus!

verus! {

/// Whether the bytes of `s` begin with those of `prefix`.
pub open spec fn starts_with_bytes(s: Seq<u8>, prefix: Seq<u8>) -> bool {
    prefix.len() <= s.len() && s.subrange(0, prefix.len() as int) == prefix
}

/// Whether `s` begins with `prefix`, as `str::starts_with` decides it.
pub fn starts_with(s: &str, prefix: &str) -> (r: bool)
    ensures
        r == starts_with_bytes(s.spec_bytes(), prefix.spec_bytes()),
{
    let b = s.as_bytes();
    let p = prefix.as_bytes();
    if p.len() > b.len() {
        return false;
    }
    let mut i: usize = 0;
    while i < p.len()
        invariant
            b@ == s.spec_bytes(),
            p@ == prefix.spec_bytes(),
            p@.len() <= b@.len(),
            i <= p@.len(),
            forall|j: int| 0 <= j < i ==> b@[j] == p@[j],
        decreases p.len() - i,
    {
        if b[i] != p[i] {
            assert(b@.subrange(0, p@.len() as int)[i as int] != p@[i as int]);
            return false;
        }
        i = i + 1;
    }
    assert(b@.subrange(0, p@.len() as int) =~= p@);
    true
}

} // verus!

verus! {

/// Whether the bytes of `pat` occur in those of `s`.
pub open spec fn contains_bytes(s: Seq<u8>, pat: Seq<u8>) -> bool {
    exists|i: int| 0 <= i && i + pat.len() <= s.len() && #[trigger] s.subrange(i, i + pat.len()) == pat
}

/// Whether `pat` occurs in `s`, as `str::contains` decides it for a text.
pub fn contains(s: &str, pat: &str) -> (r: bool)
    ensures
        r == contains_bytes(s.spec_bytes(), pat.spec_bytes()),
{
    let b = s.as_bytes();
    let p = pat.as_bytes();
    let n: usize = b.len();
    let m: usize = p.len();
    if m > n {
        proof {
            assert forall|i: int| 0 <= i && i + m <= n implies #[trigger] b@.subrange(i, i + m) != p@ by {}
        }
        return false;
    }
    let mut i: usize = 0;
    while i <= n - m
        invariant
            b@ == s.spec_bytes(),
            p@ == pat.spec_bytes(),
            n == b@.len(),
            m == p@.len(),
            m <= n,
            i <= n - m + 1,
            forall|k: int| 0 <= k < i ==> #[trigger] b@.subrange(k, k + m) != p@,
        decreases n - m + 1 - i,
    {
        let mut j: usize = 0;
        let mut same = true;
        while j < m
            invariant
                b@ == s.spec_bytes(),
                p@ == pat.spec_bytes(),
                n == b@.len(),
                m == p@.len(),
                i + m <= n,
                j <= m,
                same <==> forall|t: int| 0 <= t < j ==> b@[i + t] == p@[t],
            decreases m - j,
        {
            if b[i + j] != p[j] {
                same = false;
            }
            j = j + 1;
        }
        if same {
            assert(b@.subrange(i as int, i + m) =~= p@);
            return true;
        }
        proof {
            let t = choose|t: int| 0 <= t < m && b@[i + t] != p@[t];
            assert(b@.subrange(i as int, i + m)[t] != p@[t]);
        }
        i = i + 1;
    }
    proof {
        assert forall|k: int| 0 <= k && k + m <= n implies #[trigger] b@.subrange(k, k + m) != p@ by {
            assert(k < i);
        }
    }
    false
}

} // verus!

verus! {

/// Whether the bytes `a` come before the bytes `b` in lexicographic order,
/// the order in which `str` and `String` compare.
pub open spec fn bytes_before(a: Seq<u8>, b: Seq<u8>) -> bool
    decreases a.len(),
{
    if b.len() == 0 {
        false
    } else if a.len() == 0 {
        true
    } else if a[0] != b[0] {
        a[0] < b[0]
    } else {
        bytes_before(a.drop_first(), b.drop_first())
    }
}

/// Whether the text `a` comes before the text `b` in the order of `str`: that
/// of their UTF-8 bytes.
pub open spec fn text_before(a: Seq<char>, b: Seq<char>) -> bool {
    bytes_before(vstd::utf8::encode_utf8(a), vstd::utf8::encode_utf8(b))
}

/// The byte order is transitive.
pub proof fn lemma_bytes_before_transitive(a: Seq<u8>, b: Seq<u8>, c: Seq<u8>)
    requires
        bytes_before(a, b),
        bytes_before(b, c),
    ensures
        bytes_before(a, c),
    decreases a.len(),
{
    if a.len() > 0 && b.len() > 0 && c.len() > 0 && a[0] == b[0] && b[0] == c[0] {
        lemma_bytes_before_transitive(a.drop_first(), b.drop_first(), c.drop_first());
    }
}

/// Of two different byte strings, one comes before the other.
pub proof fn lemma_bytes_before_total(a: Seq<u8>, b: Seq<u8>)
    requires
        a != b,
    ensures
        bytes_before(a, b) || bytes_before(b, a),
    decreases a.len(),
{
    if a.len() > 0 && b.len() > 0 && a[0] == b[0] {
        if a.drop_first() == b.drop_first() {
            assert(a =~= b) by {
                assert(a.len() == a.drop_first().len() + 1);
                assert(b.len() == b.drop_first().len() + 1);
                assert forall|i: int| 0 <= i < a.len() implies a[i] == b[i] by {
                    if i > 0 {
                        assert(a[i] == a.drop_first()[i - 1]);
                        assert(b[i] == b.drop_first()[i - 1]);
                    }
                }
            }
        }
        lemma_bytes_before_total(a.drop_first(), b.drop_first());
    } else if a.len() == 0 && b.len() == 0 {
        assert(a =~= b);
    }
}

/// Of two different texts, one comes before the other.
pub proof fn lemma_text_before_total(a: Seq<char>, b: Seq<char>)
    requires
        a != b,
    ensures
        text_before(a, b) || text_before(b, a),
{
    vstd::utf8::encode_utf8_decode_utf8(a);
    vstd::utf8::encode_utf8_decode_utf8(b);
    lemma_bytes_before_total(vstd::utf8::encode_utf8(a), vstd::utf8::encode_utf8(b));
}

/// Whether `a` comes before `b`, as `<` on `str` decides it.
pub fn str_before(a: &str, b: &str) -> (r: bool)
    ensures
        r == text_before(a@, b@),
{
    let x = a.as_bytes();
    let y = b.as_bytes();
    let ghost xs = a.spec_bytes();
    let ghost ys = b.spec_bytes();
    let mut k: usize = 0;
    assert(xs.skip(0) =~= xs);
    assert(ys.skip(0) =~= ys);
    while k < x.len() && k < y.len() && x[k] == y[k]
        invariant
            x@ == xs,
            y@ == ys,
            k <= xs.len(),
            k <= ys.len(),
            bytes_before(xs, ys) == bytes_before(xs.skip(k as int), ys.skip(k as int)),
        decreases x.len() - k,
    {
        proof {
            assert(xs.skip(k as int).drop_first() =~= xs.skip(k + 1));
            assert(ys.skip(k as int).drop_first() =~= ys.skip(k + 1));
        }
        k = k + 1;
    }
    if k == y.len() {
        false
    } else if k == x.len() {
        true
    } else {
        assert(xs.skip(k as int)[0] == xs[k as int]);
        assert(ys.skip(k as int)[0] == ys[k as int]);
        x[k] < y[k]
    }
}

} // verus!

verus! {

/// Whether `part` occurs as a contiguous piece of `whole`.
pub open spec fn occurs_in<A>(part: Seq<A>, whole: Seq<A>) -> bool {
    exists|k: int|
        0 <= k && k + part.len() <= whole.len() && #[trigger] whole.subrange(k, k + part.len()) == part
}

/// A piece of the middle of a text is a piece of the text.
pub proof fn lemma_occurs_in_middle<A>(part: Seq<A>, a: Seq<A>, b: Seq<A>, c: Seq<A>)
    requires
        occurs_in(part, b),
    ensures
        occurs_in(part, a + b + c),
{
    let k = choose|k: int|
        0 <= k && k + part.len() <= b.len() && #[trigger] b.subrange(k, k + part.len()) == part;
    let w = a + b + c;
    let j = a.len() + k;
    assert(w.subrange(j, j + part.len()) =~= b.subrange(k, k + part.len()));
}

/// A text is a piece of itself.
pub proof fn lemma_occurs_in_self<A>(s: Seq<A>)
    ensures
        occurs_in(s, s),
{
    let k: int = 0;
    assert(s.subrange(k, k + s.len()) =~= s);
}

/// A piece of a piece of a text is a piece of the text.
pub proof fn lemma_occurs_in_transitive<A>(x: Seq<A>, y: Seq<A>, z: Seq<A>)
    requires
        occurs_in(x, y),
        occurs_in(y, z),
    ensures
        occurs_in(x, z),
{
    let i = choose|k: int| 0 <= k && k + x.len() <= y.len() && #[trigger] y.subrange(k, k + x.len()) == x;
    let j = choose|k: int| 0 <= k && k + y.len() <= z.len() && #[trigger] z.subrange(k, k + y.len()) == y;
    assert(z.subrange(j + i, j + i + x.len()) =~= y.subrange(i, i + x.len()));
}

} // verus!

verus! {

/// Joining the first `k` parts gives the beginning of joining them all.
pub proof fn lemma_joined_prefix(parts: Seq<Seq<char>>, sep: Seq<char>, k: int)
    requires
        1 <= k <= parts.len(),
    ensures
        joined(parts.take(k), sep).len() <= joined(parts, sep).len(),
        joined(parts, sep).subrange(0, joined(parts.take(k), sep).len() as int) == joined(
            parts.take(k),
            sep,
        ),
    decreases parts.len(),
{
    if k == parts.len() {
        assert(parts.take(k) =~= parts);
        assert(joined(parts, sep).subrange(0, joined(parts, sep).len() as int) =~= joined(parts, sep));
    } else {
        let p = parts.drop_last();
        assert(p.take(k) =~= parts.take(k));
        lemma_joined_prefix(p, sep, k);
        let j = joined(p, sep);
        let q = joined(parts.take(k), sep);
        assert(joined(parts, sep) == j + sep + parts.last());
        assert((j + sep + parts.last()).subrange(0, q.len() as int) =~= j.subrange(0, q.len() as int));
    }
}

} // verus!

verus! {

/// Each part appears in the parts joined.
pub proof fn lemma_joined_contains(parts: Seq<Seq<char>>, sep: Seq<char>, i: int)
    requires
        0 <= i < parts.len(),
    ensures
        occurs_in(parts[i], joined(parts, sep)),
    decreases parts.len(),
{
    if parts.len() == 1 {
        lemma_occurs_in_self(parts[0]);
    } else {
        let p = parts.drop_last();
        let j = joined(p, sep);
        assert(joined(parts, sep) == j + sep + parts.last());
        if i == parts.len() - 1 {
            lemma_occurs_in_self(parts.last());
            lemma_occurs_in_middle(parts.last(), j + sep, parts.last(), Seq::empty());
            assert(j + sep + parts.last() + Seq::<char>::empty() =~= j + sep + parts.last());
        } else {
            lemma_joined_contains(p, sep, i);
            assert(p[i] == parts[i]);
            lemma_occurs_in_middle(parts[i], Seq::empty(), j, sep + parts.last());
            assert(Seq::<char>::empty() + j + (sep + parts.last()) =~= j + sep + parts.last());
        }
    }
}

} // verus!
