//! Text as sequences of characters.
use vstd::prelude::*;

verus! {

/// The ASCII letters `A` to `Z` become `a` to `z`; nothing else changes.
pub open spec fn lower_char(c: char) -> char {
    if 'A' <= c && c <= 'Z' {
        (c as u32 + 32) as char
    } else {
        c
    }
}

pub open spec fn lower(text: Seq<char>) -> Seq<char> {
    Seq::new(text.len(), |i: int| lower_char(text[i]))
}

/// `part` stands in `text` at position `at`.
pub open spec fn stands_at(text: Seq<char>, part: Seq<char>, at: int) -> bool {
    0 <= at && at + part.len() <= text.len() && text.subrange(at, at + part.len()) == part
}

/// `part` stands somewhere in `text`.
pub open spec fn contains(text: Seq<char>, part: Seq<char>) -> bool {
    exists|at: int| stands_at(text, part, at)
}

/// Whether `a` comes before `b` in the order of their code points.
pub open spec fn before(a: Seq<char>, b: Seq<char>) -> bool
    decreases a.len(),
{
    if b.len() == 0 {
        false
    } else if a.len() == 0 {
        true
    } else if a[0] != b[0] {
        a[0] < b[0]
    } else {
        before(a.skip(1), b.skip(1))
    }
}

/// The characters of a text, in order.
pub fn chars(text: &str) -> (r: Vec<char>)
    ensures
        r@ == text@,
{
    let mut out: Vec<char> = Vec::new();
    for c in it: text.chars()
        invariant
            out@ == it.seq().take(it.index() as int),
            it.seq() == text@,
    {
        assert(it.seq().take(it.index() + 1) =~= it.seq().take(it.index() as int).push(c));
        out.push(c);
    }
    assert(text@.take(text@.len() as int) =~= text@);
    out
}

/// Whether two texts hold the same characters.
pub fn same(a: &str, b: &str) -> (r: bool)
    ensures
        r == (a@ == b@),
{
    let x = chars(a);
    let y = chars(b);
    if x.len() != y.len() {
        return false;
    }
    for i in 0..x.len()
        invariant
            x@ == a@,
            y@ == b@,
            x.len() == y.len(),
            forall|j: int| 0 <= j < i ==> a@[j] == b@[j],
    {
        if x[i] != y[i] {
            return false;
        }
    }
    assert(a@ =~= b@);
    true
}

/// One text after the other.
pub fn join(a: &str, b: &str) -> (r: String)
    ensures
        r@ == a@ + b@,
{
    a.to_owned().concat(b)
}

/// Three texts in a row.
pub fn join3(a: &str, b: &str, c: &str) -> (r: String)
    ensures
        r@ == a@ + b@ + c@,
{
    a.to_owned().concat(b).concat(c)
}

/// The text with its ASCII letters in lower case.
fn lowered(text: &str) -> (r: Vec<char>)
    ensures
        r@ == lower(text@),
{
    let x = chars(text);
    let mut out: Vec<char> = Vec::new();
    for i in 0..x.len()
        invariant
            x@ == text@,
            out@ =~= lower(text@).take(i as int),
    {
        let c = x[i];
        if 'A' <= c && c <= 'Z' {
            let low: u8 = c as u8 + 32;
            out.push(low as char);
        } else {
            out.push(c);
        }
    }
    assert(lower(text@).take(x.len() as int) =~= lower(text@));
    out
}

/// Whether two texts are equal when ASCII letters are taken in lower case.
pub fn same_ignoring_case(a: &str, b: &str) -> (r: bool)
    ensures
        r == (lower(a@) == lower(b@)),
{
    let x = lowered(a);
    let y = lowered(b);
    if x.len() != y.len() {
        return false;
    }
    for i in 0..x.len()
        invariant
            x@ == lower(a@),
            y@ == lower(b@),
            x.len() == y.len(),
            forall|j: int| 0 <= j < i ==> x@[j] == y@[j],
    {
        if x[i] != y[i] {
            return false;
        }
    }
    assert(x@ =~= y@);
    true
}

fn found_at(text: &Vec<char>, part: &Vec<char>, at: usize) -> (r: bool)
    requires
        at + part@.len() <= text@.len(),
    ensures
        r == stands_at(text@, part@, at as int),
{
    for i in 0..part.len()
        invariant
            at + part@.len() <= text.len(),
            forall|j: int| 0 <= j < i ==> text@[at + j] == part@[j],
    {
        if text[at + i] != part[i] {
            assert(text@.subrange(at as int, at + part@.len())[i as int] == text@[at + i]);
            return false;
        }
    }
    assert(text@.subrange(at as int, at + part@.len()) =~= part@);
    true
}

fn search(text: &Vec<char>, part: &Vec<char>) -> (r: bool)
    ensures
        r == contains(text@, part@),
{
    if part.len() > text.len() {
        return false;
    }
    let last: usize = text.len() - part.len();
    let mut at: usize = 0;
    while at <= last
        invariant
            last == text@.len() - part@.len(),
            at <= last + 1,
            last + 1 <= usize::MAX || at <= last,
            forall|j: int| 0 <= j < at ==> !stands_at(text@, part@, j),
        decreases last + 1 - at,
    {
        if found_at(text, part, at) {
            return true;
        }
        if at == last {
            assert(forall|j: int| !stands_at(text@, part@, j));
            return false;
        }
        at = at + 1;
    }
    false
}

/// Whether `part` stands in `text`.
pub fn holds(text: &str, part: &str) -> (r: bool)
    ensures
        r == contains(text@, part@),
{
    let x = chars(text);
    let y = chars(part);
    search(&x, &y)
}

/// Whether `part` stands in the lower case form of `text`.
pub fn holds_lower(text: &str, part: &str) -> (r: bool)
    ensures
        r == contains(lower(text@), part@),
{
    let x = lowered(text);
    let y = chars(part);
    search(&x, &y)
}

/// Whether `text` begins with `prefix`.
pub fn begins(text: &str, prefix: &str) -> (r: bool)
    ensures
        r == stands_at(text@, prefix@, 0),
{
    let x = chars(text);
    let y = chars(prefix);
    if y.len() > x.len() {
        return false;
    }
    found_at(&x, &y, 0)
}

/// Whether `a` comes before `b` in the order of their code points.
pub fn precedes(a: &str, b: &str) -> (r: bool)
    ensures
        r == before(a@, b@),
{
    let x = chars(a);
    let y = chars(b);
    let mut i: usize = 0;
    assert(a@.skip(0) =~= a@ && b@.skip(0) =~= b@);
    while i < x.len() && i < y.len()
        invariant
            x@ == a@,
            y@ == b@,
            i <= x.len(),
            i <= y.len(),
            before(a@, b@) == before(a@.skip(i as int), b@.skip(i as int)),
        decreases x.len() - i,
    {
        if x[i] != y[i] {
            return x[i] < y[i];
        }
        assert(a@.skip(i as int).skip(1) =~= a@.skip(i + 1));
        assert(b@.skip(i as int).skip(1) =~= b@.skip(i + 1));
        i = i + 1;
    }
    i < y.len()
}

/// Exactly one of: the first comes before, both are equal, the second comes before.
pub proof fn before_is_total(a: Seq<char>, b: Seq<char>)
    ensures
        before(a, b) || before(b, a) || a == b,
        !(before(a, b) && before(b, a)),
        a == b ==> !before(a, b),
    decreases a.len(),
{
    if a.len() > 0 && b.len() > 0 && a[0] == b[0] {
        before_is_total(a.skip(1), b.skip(1));
        if a.skip(1) == b.skip(1) {
            assert(a =~= seq![a[0]] + a.skip(1));
            assert(b =~= seq![b[0]] + b.skip(1));
        }
    } else if a.len() == 0 && b.len() == 0 {
        assert(a =~= b);
    }
}

/// The order of texts is transitive.
pub proof fn before_is_transitive(a: Seq<char>, b: Seq<char>, c: Seq<char>)
    requires
        before(a, b),
        before(b, c),
    ensures
        before(a, c),
    decreases a.len(),
{
    if a.len() > 0 && b.len() > 0 && c.len() > 0 && a[0] == b[0] && b[0] == c[0] {
        before_is_transitive(a.skip(1), b.skip(1), c.skip(1));
    }
}

} // verus!
