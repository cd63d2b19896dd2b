//! Character-level text utilities over the character sequence that `@`
//! gives of a `str` or a `String`.
use vstd::prelude::*;

verus! {

/// The characters of `s`, in order.
pub fn charsOf(s: &str) -> (chars: Vec<char>)
    ensures
        chars@ == s@,
{
    broadcast use vstd::string::group_string_axioms;
    let mut chars: Vec<char> = Vec::new();
    for c in it: s.chars()
        invariant
            it.seq() == s@,
            chars@ == it.seq().take(it.index() as int),
    {
        chars.push(c);
    }
    chars
}


/// Whether two texts hold the same characters.
pub fn textEq(a: &str, b: &str) -> (same: bool)
    ensures
        same == (a@ == b@),
{
    let ac = charsOf(a);
    let bc = charsOf(b);
    if ac.len() != bc.len() {
        return false;
    }
    let mut i: usize = 0;
    while i < ac.len()
        invariant
            ac@ == a@,
            bc@ == b@,
            ac.len() == bc.len(),
            i <= ac.len(),
            forall|j: int| 0 <= j < i ==> ac@[j] == bc@[j],
        decreases ac.len() - i,
    {
        if ac[i] != bc[i] {
            return false;
        }
        i = i + 1;
    }
    assert(ac@ =~= bc@);
    true
}

/// Outcome of comparing two texts.
#[derive(Clone, Copy, Debug, PartialEq, Eq)]
pub enum TextOrder {
    Less,
    Equal,
    Greater,
}

/// Lexicographic order of two character sequences, by code point. For texts
/// held in UTF-8 this is the byte-wise order that `String`'s `Ord` uses.
pub open spec fn textOrder(a: Seq<char>, b: Seq<char>) -> TextOrder
    decreases a.len(),
{
    if a.len() == 0 {
        if b.len() == 0 {
            TextOrder::Equal
        } else {
            TextOrder::Less
        }
    } else if b.len() == 0 {
        TextOrder::Greater
    } else if a[0] < b[0] {
        TextOrder::Less
    } else if a[0] > b[0] {
        TextOrder::Greater
    } else {
        textOrder(a.drop_first(), b.drop_first())
    }
}

/// Equal texts are exactly those that compare `Equal`.
pub proof fn lemma_textOrder_equal(a: Seq<char>, b: Seq<char>)
    ensures
        (textOrder(a, b) == TextOrder::Equal) <==> (a == b),
    decreases a.len(),
{
    if a.len() == 0 && b.len() == 0 {
        assert(a =~= b);
    }
    if a.len() > 0 && b.len() > 0 {
        lemma_textOrder_equal(a.drop_first(), b.drop_first());
        if a == b {
            assert(a.drop_first() == b.drop_first());
        }
        if a.drop_first() == b.drop_first() && a[0] == b[0] {
            assert(a =~= seq![a[0]] + a.drop_first());
            assert(b =~= seq![b[0]] + b.drop_first());
        }
    }
}

/// Lexicographic comparison of two texts by code point.
pub fn compareText(a: &str, b: &str) -> (order: TextOrder)
    ensures
        order == textOrder(a@, b@),
{
    let ac = charsOf(a);
    let bc = charsOf(b);
    let mut i: usize = 0;
    assert(a@.skip(0) =~= a@);
    assert(b@.skip(0) =~= b@);
    while i < ac.len() && i < bc.len()
        invariant
            ac@ == a@,
            bc@ == b@,
            i <= ac.len(),
            i <= bc.len(),
            textOrder(a@, b@) == textOrder(a@.skip(i as int), b@.skip(i as int)),
        decreases ac.len() - i,
    {
        let x = ac[i];
        let y = bc[i];
        assert(a@.skip(i as int)[0] == ac@[i as int]);
        assert(b@.skip(i as int)[0] == bc@[i as int]);
        if x < y {
            return TextOrder::Less;
        } else if x > y {
            return TextOrder::Greater;
        }
        assert(a@.skip(i as int).drop_first() =~= a@.skip(i + 1));
        assert(b@.skip(i as int).drop_first() =~= b@.skip(i + 1));
        i = i + 1;
    }
    if i < ac.len() {
        TextOrder::Greater
    } else if i < bc.len() {
        TextOrder::Less
    } else {
        TextOrder::Equal
    }
}


/// Whether `needle` occurs in `haystack` as a contiguous run of characters.
pub open spec fn occursIn(needle: Seq<char>, haystack: Seq<char>) -> bool {
    exists|i: int| 0 <= i <= haystack.len() - needle.len() && #[trigger] haystack.subrange(i, i + needle.len()) == needle
}

/// Whether `needle` occurs at position `at` of `haystack`.
fn occursAt(haystack: &Vec<char>, needle: &Vec<char>, at: usize) -> (found: bool)
    requires
        at + needle@.len() <= haystack@.len(),
    ensures
        found == (haystack@.subrange(at as int, at + needle@.len()) == needle@),
{
    let n = haystack.len();
    let mut j: usize = 0;
    while j < needle.len()
        invariant
            n == haystack@.len(),
            at + needle@.len() <= haystack@.len(),
            j <= needle@.len(),
            forall|k: int| 0 <= k < j ==> haystack@[at + k] == needle@[k],
        decreases needle@.len() - j,
    {
        if haystack[at + j] != needle[j] {
            assert(haystack@.subrange(at as int, at + needle@.len())[j as int] != needle@[j as int]);
            return false;
        }
        j = j + 1;
    }
    assert(haystack@.subrange(at as int, at + needle@.len()) =~= needle@);
    true
}

/// Whether `needle` occurs in `haystack`.
pub fn containsText(haystack: &str, needle: &str) -> (found: bool)
    ensures
        found == occursIn(needle@, haystack@),
{
    let hay = charsOf(haystack);
    let pin = charsOf(needle);
    if pin.len() > hay.len() {
        return false;
    }
    let last = hay.len() - pin.len();
    let mut at: usize = 0;
    loop
        invariant
            hay@ == haystack@,
            pin@ == needle@,
            last == hay@.len() - pin@.len(),
            at <= last,
            forall|i: int| 0 <= i < at ==> #[trigger] haystack@.subrange(i, i + needle@.len()) != needle@,
        decreases last - at,
    {
        if occursAt(&hay, &pin, at) {
            return true;
        }
        if at == last {
            assert forall|i: int| 0 <= i <= haystack@.len() - needle@.len() implies #[trigger] haystack@.subrange(
                i,
                i + needle@.len(),
            ) != needle@ by {
                if i == at as int {
                }
            }
            return false;
        }
        at = at + 1;
    }
}


/// `s` with every occurrence of `from`, found left to right without
/// overlaps, replaced by `to`.
pub open spec fn replaced(s: Seq<char>, from: Seq<char>, to: Seq<char>) -> Seq<char>
    decreases s.len(),
{
    if from.len() == 0 || s.len() < from.len() {
        s
    } else if s.subrange(0, from.len() as int) == from {
        to + replaced(s.subrange(from.len() as int, s.len() as int), from, to)
    } else {
        seq![s[0]] + replaced(s.drop_first(), from, to)
    }
}

/// Calls `String::push`; trusted to append the character.
#[verifier::external_body]
pub(crate) fn pushChar(text: &mut String, c: char)
    ensures
        final(text)@ == old(text)@.push(c),
{
    text.push(c);
}

/// `s` with every occurrence of `from`, found left to right without
/// overlaps, replaced by `to`.
pub fn replaceAll(s: &str, from: &str, to: &str) -> (result: String)
    requires
        from@.len() > 0,
    ensures
        result@ == replaced(s@, from@, to@),
{
    let chars = charsOf(s);
    let pattern = charsOf(from);
    let mut result = String::new();
    let mut i: usize = 0;
    assert(s@.subrange(0, s@.len() as int) =~= s@);
    while i < chars.len()
        invariant
            chars@ == s@,
            pattern@ == from@,
            from@.len() > 0,
            i <= chars@.len(),
            result@ + replaced(s@.subrange(i as int, s@.len() as int), from@, to@) == replaced(s@, from@, to@),
        decreases chars@.len() - i,
    {
        let ghost rest = s@.subrange(i as int, s@.len() as int);
        if pattern.len() <= chars.len() - i && occursAt(&chars, &pattern, i) {
            assert(rest.subrange(0, from@.len() as int) =~= s@.subrange(i as int, i + from@.len()));
            assert(rest.subrange(from@.len() as int, rest.len() as int) =~= s@.subrange(i + from@.len(), s@.len() as int));
            let ghost before = result@;
            result.append(to);
            assert(result@ + replaced(s@.subrange(i + from@.len(), s@.len() as int), from@, to@) =~= before + (to@
                + replaced(s@.subrange(i + from@.len(), s@.len() as int), from@, to@)));
            i = i + pattern.len();
        } else {
            if pattern.len() <= chars.len() - i {
                assert(rest.subrange(0, from@.len() as int) =~= s@.subrange(i as int, i + from@.len()));
            }
            assert(rest.drop_first() =~= s@.subrange(i + 1, s@.len() as int));
            assert(rest[0] == chars@[i as int]);
            let ghost before = result@;
            pushChar(&mut result, chars[i]);
            assert(result@ + replaced(s@.subrange(i + 1, s@.len() as int), from@, to@) =~= before + (seq![rest[0]]
                + replaced(rest.drop_first(), from@, to@)));
            i = i + 1;
        }
    }
    assert(s@.subrange(i as int, s@.len() as int) =~= Seq::<char>::empty());
    assert(result@ + Seq::<char>::empty() =~= result@);
    result
}

/// A text in which `b` does not occur keeps no occurrence in its suffixes.
proof fn lemma_occursIn_suffix(b: Seq<char>, s: Seq<char>, k: int)
    requires
        0 <= k <= s.len(),
        !occursIn(b, s),
    ensures
        !occursIn(b, s.subrange(k, s.len() as int)),
{
    let t = s.subrange(k, s.len() as int);
    if occursIn(b, t) {
        let i = choose|i: int| 0 <= i <= t.len() - b.len() && #[trigger] t.subrange(i, i + b.len()) == b;
        assert(s.subrange(i + k, i + k + b.len()) =~= t.subrange(i, i + b.len()));
    }
}

/// Replacing a text that does not occur changes nothing.
pub proof fn lemma_replaced_absent(s: Seq<char>, b: Seq<char>, a: Seq<char>)
    requires
        b.len() > 0,
        !occursIn(b, s),
    ensures
        replaced(s, b, a) == s,
    decreases s.len(),
{
    if s.len() >= b.len() {
        assert(s.subrange(0int, 0int + b.len()) != b);
        lemma_occursIn_suffix(b, s, 1);
        assert(s.drop_first() =~= s.subrange(1, s.len() as int));
        lemma_replaced_absent(s.drop_first(), b, a);
        assert(seq![s[0]] + s.drop_first() =~= s);
    }
}

/// If the result of a replacement starts with `q`, whose characters all
/// differ from the first one of the replacement text, so does the text.
proof fn lemma_replaced_prefix(t: Seq<char>, a: Seq<char>, b: Seq<char>, q: Seq<char>)
    requires
        a.len() > 0,
        b.len() > 0,
        forall|j: int| 0 <= j < q.len() ==> q[j] != b[0],
        replaced(t, a, b).len() >= q.len(),
        replaced(t, a, b).subrange(0, q.len() as int) == q,
    ensures
        t.len() >= q.len(),
        t.subrange(0, q.len() as int) == q,
    decreases q.len(),
{
    let r = replaced(t, a, b);
    if q.len() > 0 {
        if t.len() < a.len() {
        } else if t.subrange(0, a.len() as int) == a {
            assert(r[0] == q[0]);
            assert(r[0] == b[0]);
        } else {
            let rest = replaced(t.drop_first(), a, b);
            assert(r == seq![t[0]] + rest);
            assert(rest.subrange(0, q.len() - 1) =~= r.subrange(1, q.len() as int));
            assert(q.drop_first() =~= q.subrange(1, q.len() as int));
            assert(rest.subrange(0, q.drop_first().len() as int) =~= q.drop_first());
            lemma_replaced_prefix(t.drop_first(), a, b, q.drop_first());
            assert(t.subrange(0, q.len() as int) =~= seq![t[0]] + t.drop_first().subrange(0, q.len() - 1));
            assert(r[0] == q[0]);
            assert(q =~= seq![q[0]] + q.drop_first());
        }
    }
}

/// Replacing `a` by `b` and then `b` by `a` gives back a text in which `b`
/// does not occur, where no later character of `b` equals its first one.
pub proof fn lemma_replaced_roundtrip(s: Seq<char>, a: Seq<char>, b: Seq<char>)
    requires
        a.len() > 0,
        b.len() > 0,
        forall|j: int| 1 <= j < b.len() ==> #[trigger] b[j] != b[0],
        !occursIn(b, s),
    ensures
        replaced(replaced(s, a, b), b, a) == s,
    decreases s.len(),
{
    let r = replaced(s, a, b);
    if s.len() < a.len() {
        lemma_replaced_absent(s, b, a);
    } else if s.subrange(0, a.len() as int) == a {
        let tail = s.subrange(a.len() as int, s.len() as int);
        let rt = replaced(tail, a, b);
        lemma_occursIn_suffix(b, s, a.len() as int);
        lemma_replaced_roundtrip(tail, a, b);
        assert(r == b + rt);
        assert(r.subrange(0, b.len() as int) =~= b);
        assert(r.subrange(b.len() as int, r.len() as int) =~= rt);
        assert(a + tail =~= s);
    } else {
        let tail = s.drop_first();
        let rt = replaced(tail, a, b);
        assert(tail =~= s.subrange(1, s.len() as int));
        lemma_occursIn_suffix(b, s, 1);
        lemma_replaced_roundtrip(tail, a, b);
        assert(r == seq![s[0]] + rt);
        if r.len() < b.len() {
            assert(rt.len() < b.len());
            assert(replaced(rt, b, a) == rt);
            assert(seq![s[0]] + tail =~= s);
        } else {
            if r.subrange(0, b.len() as int) == b {
                let q = b.drop_first();
                assert(rt.subrange(0, q.len() as int) =~= q) by {
                    assert(rt.subrange(0, q.len() as int) =~= r.subrange(1, b.len() as int));
                }
                lemma_replaced_prefix(tail, a, b, q);
                assert(s.subrange(0int, 0int + b.len()) =~= b) by {
                    assert(s.subrange(0, b.len() as int) =~= seq![s[0]] + tail.subrange(0, q.len() as int));
                    assert(b =~= seq![b[0]] + q);
                    assert(s[0] == r[0]);
                    assert(r[0] == r.subrange(0, b.len() as int)[0]);
                }
                assert(false);
            }
            assert(r.drop_first() =~= rt);
            assert(seq![s[0]] + tail =~= s);
        }
    }
}

} // verus!
