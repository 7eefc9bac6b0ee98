//! Text building blocks: decimal numerals, joining, trimming and substitution.
use vstd::prelude::*;
use vstd::string::*;

verus! {

/// The numeral for a single digit.
pub open spec fn digit(d: nat) -> char {
    (48 + d) as char
}

/// The decimal numeral of `n`, without leading zeros.
pub open spec fn decimal(n: nat) -> Seq<char>
    decreases n,
{
    if n < 10 {
        seq![digit(n)]
    } else {
        decimal(n / 10).push(digit(n % 10))
    }
}

/// The numbers that a numeral's digits stand for, read from the left.
pub open spec fn numeral_value(s: Seq<char>) -> nat
    decreases s.len(),
{
    if s.len() == 0 {
        0
    } else {
        (10 * numeral_value(s.drop_last()) + (s.last() as nat - 48)) as nat
    }
}

/// A numeral determines its number: reading `decimal(n)` back gives `n`.
pub proof fn decimal_reads_back(n: nat)
    ensures
        numeral_value(decimal(n)) == n,
        decimal(n).len() > 0,
        forall|i: int| 0 <= i < decimal(n).len() ==> '0' <= #[trigger] decimal(n)[i] <= '9',
    decreases n,
{
    reveal_with_fuel(numeral_value, 2);
    if n < 10 {
        assert(seq![digit(n)].drop_last() =~= Seq::<char>::empty());
    } else {
        decimal_reads_back(n / 10);
        assert(decimal(n).drop_last() =~= decimal(n / 10));
    }
}

/// Distinct numbers have distinct numerals.
pub proof fn decimal_injective(m: nat, n: nat)
    requires
        decimal(m) == decimal(n),
    ensures
        m == n,
{
    decimal_reads_back(m);
    decimal_reads_back(n);
}

fn digit_text(d: u64) -> (s: &'static str)
    requires
        d < 10,
    ensures
        s@ == seq![digit(d as nat)],
{
    proof {
        reveal_strlit("0");
        reveal_strlit("1");
        reveal_strlit("2");
        reveal_strlit("3");
        reveal_strlit("4");
        reveal_strlit("5");
        reveal_strlit("6");
        reveal_strlit("7");
        reveal_strlit("8");
        reveal_strlit("9");
    }
    match d {
        0 => "0",
        1 => "1",
        2 => "2",
        3 => "3",
        4 => "4",
        5 => "5",
        6 => "6",
        7 => "7",
        8 => "8",
        _ => "9",
    }
}

/// Writes `n` in decimal.
pub fn decimal_text(n: u64) -> (s: String)
    ensures
        s@ == decimal(n as nat),
    decreases n,
{
    if n < 10 {
        digit_text(n).to_string()
    } else {
        let mut s = decimal_text(n / 10);
        s.append(digit_text(n % 10));
        s
    }
}

/// Concatenates two pieces of text.
pub fn concat2(a: &str, b: &str) -> (s: String)
    ensures
        s@ == a@ + b@,
{
    let mut s = a.to_string();
    s.append(b);
    s
}

/// Concatenates three pieces of text.
pub fn concat3(a: &str, b: &str, c: &str) -> (s: String)
    ensures
        s@ == a@ + b@ + c@,
{
    let mut s = concat2(a, b);
    s.append(c);
    s
}

/// The characters of a text, as a vector.
pub fn chars_of(s: &str) -> (v: Vec<char>)
    ensures
        v@ == s@,
{
    let mut v: Vec<char> = Vec::new();
    for c in it: s.chars()
        invariant
            v@ == s@.take(it.index() as int),
            it.seq() == s@,
    {
        v.push(c);
    }
    v
}

/// The items of a list, separated by `sep`.
pub open spec fn joined(items: Seq<Seq<char>>, sep: Seq<char>) -> Seq<char>
    decreases items.len(),
{
    if items.len() == 0 {
        Seq::empty()
    } else if items.len() == 1 {
        items[0]
    } else {
        items[0] + sep + joined(items.skip(1), sep)
    }
}

/// Joins the items of a list with a separator between neighbours.
pub fn join_text(items: &Vec<String>, sep: &str) -> (s: String)
    ensures
        s@ == joined(items.deep_view(), sep@),
{
    let ghost all = items.deep_view();
    let mut i: usize = items.len();
    let mut s = String::new();
    assert(all.skip(i as int) =~= Seq::empty());
    while i > 0
        invariant
            i <= items.len(),
            all == items.deep_view(),
            all.len() == items.len(),
            s@ == joined(all.skip(i as int), sep@),
        decreases i,
    {
        let ghost rest = all.skip(i as int);
        let head = items[i - 1].as_str();
        let last = i == items.len();
        i = i - 1;
        assert(all.skip(i as int)[0] == head@);
        assert(all.skip(i as int).skip(1) =~= rest);
        if last {
            s = head.to_string();
        } else {
            s = concat3(head, sep, s.as_str());
        }
    }
    assert(all.skip(0) =~= all);
    s
}

/// Whether a character is white space in the sense of Unicode's `White_Space` property.
pub open spec fn white_space(c: char) -> bool {
    let u = c as u32;
    ||| 0x9 <= u <= 0xd
    ||| u == 0x20
    ||| u == 0x85
    ||| u == 0xa0
    ||| u == 0x1680
    ||| 0x2000 <= u <= 0x200a
    ||| u == 0x2028
    ||| u == 0x2029
    ||| u == 0x202f
    ||| u == 0x205f
    ||| u == 0x3000
}

fn is_white_space(c: char) -> (b: bool)
    ensures
        b == white_space(c),
{
    let u: u32 = c as u32;
    (0x9 <= u && u <= 0xd) || u == 0x20 || u == 0x85 || u == 0xa0 || u == 0x1680 || (0x2000 <= u
        && u <= 0x200a) || u == 0x2028 || u == 0x2029 || u == 0x202f || u == 0x205f || u == 0x3000
}

/// `s` without the white space at both ends.
pub open spec fn trimmed(s: Seq<char>) -> Seq<char>
    decreases s.len(),
{
    if s.len() == 0 {
        s
    } else if white_space(s[0]) {
        trimmed(s.skip(1))
    } else if white_space(s.last()) {
        trimmed(s.drop_last())
    } else {
        s
    }
}

/// Cuts the white space off both ends of a text.
pub fn trim_text(s: &str) -> (t: String)
    ensures
        t@ == trimmed(s@),
{
    let v = chars_of(s);
    let mut a: usize = 0;
    assert(s@.skip(0) =~= s@);
    while a < v.len() && is_white_space(v[a])
        invariant
            v@ == s@,
            a <= v.len(),
            trimmed(s@) == trimmed(s@.skip(a as int)),
        decreases v.len() - a,
    {
        assert(s@.skip(a as int).skip(1) =~= s@.skip(a + 1));
        a = a + 1;
    }
    let mut b: usize = v.len();
    assert(s@.subrange(a as int, b as int) =~= s@.skip(a as int));
    while a < b && is_white_space(v[b - 1])
        invariant
            v@ == s@,
            a <= b <= v.len(),
            a < v.len() ==> !white_space(s@[a as int]),
            trimmed(s@) == trimmed(s@.subrange(a as int, b as int)),
        decreases b,
    {
        assert(s@.subrange(a as int, b as int).drop_last() =~= s@.subrange(a as int, b - 1));
        b = b - 1;
    }
    s.substring_char(a, b).to_string()
}

/// Whether `pat` stands in `s` at position `i`.
pub open spec fn occurs_at(s: Seq<char>, i: int, pat: Seq<char>) -> bool {
    0 <= i && i + pat.len() <= s.len() && s.subrange(i, i + pat.len()) == pat
}

/// Whether `pat` stands anywhere in `s`.
pub open spec fn occurs(s: Seq<char>, pat: Seq<char>) -> bool {
    exists|i: int| #[trigger] occurs_at(s, i, pat)
}

/// `s` with every occurrence of `pat` replaced, scanning from the left; an occurrence that
/// overlaps an earlier one is not counted.
pub open spec fn replaced(s: Seq<char>, pat: Seq<char>, to: Seq<char>) -> Seq<char>
    decreases s.len(),
{
    if s.len() == 0 || pat.len() == 0 {
        s
    } else if occurs_at(s, 0, pat) {
        to + replaced(s.skip(pat.len() as int), pat, to)
    } else {
        seq![s[0]] + replaced(s.skip(1), pat, to)
    }
}

fn occurs_here(v: &Vec<char>, i: usize, pat: &Vec<char>) -> (b: bool)
    requires
        i <= v.len(),
    ensures
        b == occurs_at(v@, i as int, pat@),
{
    if v.len() - i < pat.len() {
        return false;
    }
    let mut k: usize = 0;
    while k < pat.len()
        invariant
            i + pat.len() <= v.len(),
            k <= pat.len(),
            forall|j: int| 0 <= j < k ==> v@[i + j] == #[trigger] pat@[j],
        decreases pat.len() - k,
    {
        if v[i + k] != pat[k] {
            assert(v@.subrange(i as int, i + pat@.len())[k as int] != pat@[k as int]);
            return false;
        }
        k = k + 1;
    }
    assert(v@.subrange(i as int, i + pat@.len()) =~= pat@);
    true
}

/// Replaces every occurrence of `pat` in `s`.
pub fn replace_text(s: &str, pat: &str, to: &str) -> (r: String)
    requires
        pat@.len() > 0,
    ensures
        r@ == replaced(s@, pat@, to@),
{
    let v = chars_of(s);
    let p = chars_of(pat);
    let mut out = String::new();
    let mut kept: usize = 0;
    let mut i: usize = 0;
    assert(s@.skip(0) =~= s@);
    assert(s@.subrange(0, 0) =~= Seq::<char>::empty());
    while i < v.len()
        invariant
            v@ == s@,
            p@ == pat@,
            pat@.len() > 0,
            kept <= i <= v.len(),
            replaced(s@, pat@, to@) == out@ + s@.subrange(kept as int, i as int) + replaced(
                s@.skip(i as int),
                pat@,
                to@,
            ),
        decreases v.len() - i,
    {
        let ghost rest = s@.skip(i as int);
        let here = occurs_here(&v, i, &p);
        proof {
            if i + p.len() <= v.len() {
                assert(rest.subrange(0, pat@.len() as int) =~= s@.subrange(
                    i as int,
                    i + pat@.len(),
                ));
            }
            assert(here == occurs_at(rest, 0, pat@));
        }
        if here {
            assert(rest.skip(pat@.len() as int) =~= s@.skip(i + pat@.len()));
            let ghost before = out@;
            out.append(s.substring_char(kept, i));
            out.append(to);
            i = i + p.len();
            kept = i;
            assert(s@.subrange(kept as int, i as int) =~= Seq::<char>::empty());
            assert(replaced(s@, pat@, to@) =~= out@ + s@.subrange(kept as int, i as int)
                + replaced(s@.skip(i as int), pat@, to@));
        } else {
            assert(rest.skip(1) =~= s@.skip(i + 1));
            assert(s@.subrange(kept as int, i + 1) =~= s@.subrange(kept as int, i as int)
                + seq![rest[0]]);
            i = i + 1;
            assert(replaced(s@, pat@, to@) =~= out@ + s@.subrange(kept as int, i as int)
                + replaced(s@.skip(i as int), pat@, to@));
        }
    }
    assert(replaced(s@.skip(i as int), pat@, to@) =~= Seq::<char>::empty());
    out.append(s.substring_char(kept, i));
    out
}

/// Finds, within the first `n` characters of `replaced(s, pat, to)`, where the first replacement
/// starts; where there is none, those characters are the first `n` of `s`.
proof fn first_replacement(s: Seq<char>, pat: Seq<char>, to: Seq<char>, n: int) -> (m: int)
    requires
        pat.len() > 0,
        0 <= n <= replaced(s, pat, to).len(),
    ensures
        ({
            let r = replaced(s, pat, to);
            ||| m == n && n <= s.len() && r.take(n) == s.take(n)
            ||| 0 <= m < n && m + to.len() <= r.len() && r.subrange(m, m + to.len()) == to
        }),
    decreases s.len(),
{
    let r = replaced(s, pat, to);
    if n == 0 {
        assert(r.take(n) =~= s.take(n));
        0
    } else if s.len() == 0 {
        0
    } else if occurs_at(s, 0, pat) {
        assert(r.subrange(0, to.len() as int) =~= to);
        0
    } else {
        let rest = replaced(s.skip(1), pat, to);
        let m = first_replacement(s.skip(1), pat, to, n - 1);
        if m == n - 1 && n - 1 <= s.skip(1).len() && rest.take(n - 1) == s.skip(1).take(n - 1) {
            assert forall|j: int| 0 <= j < n implies r[j] == s[j] by {
                if j > 0 {
                    assert(rest.take(n - 1)[j - 1] == s.skip(1).take(n - 1)[j - 1]);
                }
            }
            assert(r.take(n) =~= s.take(n));
        } else {
            assert(r.subrange(m + 1, m + 1 + to.len()) =~= rest.subrange(m, m + to.len()));
        }
        m + 1
    }
}

/// Substituting `to` for `pat` leaves no occurrence of `p` behind, where `p` is `pat` itself or
/// does not occur in the text, and `to` neither starts nor ends an occurrence of `p` nor fits
/// inside one.
pub proof fn replaced_leaves_none(s: Seq<char>, pat: Seq<char>, to: Seq<char>, p: Seq<char>)
    requires
        pat.len() > 0,
        p.len() > 0,
        p == pat || !occurs(s, p),
        !to.contains(p[0]),
        !to.contains(p.last()),
        exists|k: int| 0 <= k < to.len() && !p.contains(#[trigger] to[k]),
    ensures
        !occurs(replaced(s, pat, to), p),
    decreases s.len(),
{
    let r = replaced(s, pat, to);
    if s.len() > 0 {
        let cut: int = if occurs_at(s, 0, pat) { pat.len() as int } else { 1 };
        assert(p == pat || !occurs(s.skip(cut), p)) by {
            if p != pat && occurs(s.skip(cut), p) {
                let i = choose|i: int| #[trigger] occurs_at(s.skip(cut), i, p);
                assert(s.skip(cut).subrange(i, i + p.len()) =~= s.subrange(
                    i + cut,
                    i + cut + p.len(),
                ));
                assert(occurs_at(s, i + cut, p));
            }
        }
        replaced_leaves_none(s.skip(cut), pat, to, p);
        let rest = replaced(s.skip(cut), pat, to);
        let shift: int = if occurs_at(s, 0, pat) { to.len() as int } else { 1 };
        assert forall|i: int| !#[trigger] occurs_at(r, i, p) by {
            if occurs_at(r, i, p) {
                if i >= shift {
                    assert(r.subrange(i, i + p.len()) =~= rest.subrange(
                        i - shift,
                        i - shift + p.len(),
                    ));
                    assert(occurs_at(rest, i - shift, p));
                } else if occurs_at(s, 0, pat) {
                    assert(r.subrange(i, i + p.len())[0] == to[i]);
                } else {
                    let n = p.len() as int;
                    let m = first_replacement(s, pat, to, n);
                    if m == n && n <= s.len() && r.take(n) == s.take(n) {
                        assert(s.subrange(0, n) =~= r.subrange(0, n));
                        assert(occurs_at(s, 0, p));
                    } else if n <= m + to.len() {
                        assert(p.last() == r[n - 1]);
                        assert(r.subrange(m, m + to.len())[n - 1 - m] == to[n - 1 - m]);
                    } else {
                        let k = choose|k: int| 0 <= k < to.len() && !p.contains(#[trigger] to[k]);
                        assert(r.subrange(m, m + to.len())[k] == to[k]);
                        assert(p[m + k] == r.subrange(0, n)[m + k]);
                    }
                }
            }
        }
    }
}

/// Trimming takes the white space off both ends of a text and leaves what stands between.
pub proof fn trimming_keeps_the_middle(a: Seq<char>, s: Seq<char>, b: Seq<char>)
    requires
        forall|i: int| 0 <= i < a.len() ==> white_space(#[trigger] a[i]),
        forall|i: int| 0 <= i < b.len() ==> white_space(#[trigger] b[i]),
        s.len() > 0 ==> !white_space(s[0]) && !white_space(s[s.len() - 1]),
    ensures
        trimmed(a + s + b) == s,
    decreases a.len() + b.len(),
{
    let x = a + s + b;
    if a.len() > 0 {
        assert(x[0] == a[0]);
        assert(x.skip(1) =~= a.skip(1) + s + b);
        trimming_keeps_the_middle(a.skip(1), s, b);
    } else if b.len() > 0 {
        if s.len() > 0 {
            assert(x[0] == s[0]);
            assert(x.last() == b.last());
            assert(x.drop_last() =~= a + s + b.drop_last());
            trimming_keeps_the_middle(a, s, b.drop_last());
        } else {
            assert(x[0] == b[0]);
            assert(x.skip(1) =~= a + s + b.skip(1));
            trimming_keeps_the_middle(a, s, b.skip(1));
        }
    } else {
        assert(x =~= s);
    }
}

/// A list that grows at its end grows by the separator and the new item.
pub proof fn joining_puts_separators_between(items: Seq<Seq<char>>, item: Seq<char>, sep: Seq<char>)
    ensures
        joined(Seq::empty(), sep) == Seq::<char>::empty(),
        joined(seq![item], sep) == item,
        items.len() > 0 ==> joined(items.push(item), sep) == joined(items, sep) + sep + item,
    decreases items.len(),
{
    let more = items.push(item);
    assert(joined(seq![item], sep) == item);
    if items.len() > 0 {
        let tail = items.skip(1);
        assert(more[0] == items[0]);
        assert(more.skip(1) =~= tail.push(item));
        assert(joined(more, sep) == items[0] + sep + joined(tail.push(item), sep));
        if items.len() == 1 {
            assert(tail.push(item) =~= seq![item]);
            assert(joined(items, sep) == items[0]);
        } else {
            joining_puts_separators_between(tail, item, sep);
            assert(joined(items, sep) == items[0] + sep + joined(tail, sep));
            assert(items[0] + sep + (joined(tail, sep) + sep + item) =~= items[0] + sep + joined(
                tail,
                sep,
            ) + sep + item);
        }
    }
}

/// The first occurrence of a text is replaced, and so is every one behind it; what stands before
/// the first, and a text in which there is none, stays as it is.
pub proof fn replacing_goes_from_the_left(
    before: Seq<char>,
    pat: Seq<char>,
    rest: Seq<char>,
    to: Seq<char>,
)
    requires
        pat.len() > 0,
    ensures
        (forall|i: int| 0 <= i < before.len() ==> !occurs_at(before + pat + rest, i, pat))
            ==> replaced(before + pat + rest, pat, to) == before + to + replaced(rest, pat, to),
        !occurs(before, pat) ==> replaced(before, pat, to) == before,
    decreases before.len(),
{
    let x = before + pat + rest;
    let tail = before.skip(1);
    if before.len() == 0 {
        assert(x.subrange(0, pat.len() as int) =~= pat);
        assert(x.skip(pat.len() as int) =~= rest);
        assert(occurs_at(x, 0, pat));
        assert(before + to + replaced(rest, pat, to) =~= to + replaced(rest, pat, to));
    } else {
        let y = tail + pat + rest;
        replacing_goes_from_the_left(tail, pat, rest, to);
        assert(x.skip(1) =~= y);
        assert(x[0] == before[0]);
        if forall|i: int| 0 <= i < before.len() ==> !occurs_at(x, i, pat) {
            assert forall|i: int| 0 <= i < tail.len() implies !occurs_at(y, i, pat) by {
                if occurs_at(y, i, pat) {
                    assert(x.subrange(i + 1, i + 1 + pat.len()) =~= y.subrange(i, i + pat.len()));
                    assert(occurs_at(x, i + 1, pat));
                }
            }
            assert(!occurs_at(x, 0, pat));
            assert(seq![x[0]] + (tail + to + replaced(rest, pat, to)) =~= before + to + replaced(
                rest,
                pat,
                to,
            ));
        }
        if !occurs(before, pat) {
            assert(!occurs(tail, pat)) by {
                if occurs(tail, pat) {
                    let i = choose|i: int| #[trigger] occurs_at(tail, i, pat);
                    assert(before.subrange(i + 1, i + 1 + pat.len()) =~= tail.subrange(
                        i,
                        i + pat.len(),
                    ));
                    assert(occurs_at(before, i + 1, pat));
                }
            }
            assert(!occurs_at(before, 0, pat));
            assert(seq![before[0]] + tail =~= before);
        }
    }
}

/// White space is the tab, the line and page breaks, the blanks of every width, and nothing else.
pub proof fn white_space_is_blank(c: char)
    ensures
        white_space(c) <==> {
            ||| c == '\t' || c == '\n' || c == '\u{b}' || c == '\u{c}' || c == '\r' || c == ' '
            ||| c == '\u{85}' || c == '\u{a0}' || c == '\u{1680}'
            ||| '\u{2000}' <= c <= '\u{200a}'
            ||| c == '\u{2028}' || c == '\u{2029}' || c == '\u{202f}' || c == '\u{205f}'
            ||| c == '\u{3000}'
        },
{
}

/// A numeral has no leading zero, and one more digit at its end makes it that of ten times the
/// number and the digit.
pub proof fn numerals_are_plain(n: nat, d: nat)
    requires
        d < 10,
    ensures
        decimal(0) == seq!['0'],
        n > 0 ==> decimal(n)[0] != '0',
        n > 0 ==> decimal(10 * n + d) == decimal(n).push(
            seq!['0', '1', '2', '3', '4', '5', '6', '7', '8', '9'][d as int],
        ),
    decreases n,
{
    assert((10 * n + d) / 10 == n && (10 * n + d) % 10 == d);
    assert(digit(0) == '0' && digit(1) == '1' && digit(2) == '2' && digit(3) == '3' && digit(4)
        == '4' && digit(5) == '5' && digit(6) == '6' && digit(7) == '7' && digit(8) == '8'
        && digit(9) == '9');
    if n >= 10 {
        numerals_are_plain(n / 10, 0);
        decimal_reads_back(n / 10);
        assert(decimal(n)[0] == decimal(n / 10)[0]);
    }
}

} // verus!
