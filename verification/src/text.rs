//! Searching and rewriting of character strings.
//!
//! Everything here is stated over `Seq<char>`, the view of `str` and
//! `String`, so that the rules built on top of it (source classification,
//! version substitution, path building) can speak of plain sequences.

use vstd::prelude::*;

verus! {

/// `part` stands in `text` at position `at`.
pub open spec fn occurs_at(text: Seq<char>, part: Seq<char>, at: int) -> bool {
    &&& 0 <= at
    &&& at + part.len() <= text.len()
    &&& text.subrange(at, at + part.len()) == part
}

/// `part` stands somewhere in `text`.
pub open spec fn occurs_in(text: Seq<char>, part: Seq<char>) -> bool {
    exists|at: int| occurs_at(text, part, at)
}

/// `text` begins with `part`.
pub open spec fn begins_with(text: Seq<char>, part: Seq<char>) -> bool {
    occurs_at(text, part, 0)
}

/// `text` ends with `part`.
pub open spec fn ends_with(text: Seq<char>, part: Seq<char>) -> bool {
    occurs_at(text, part, text.len() - part.len())
}

/// `filler` put before every character of `text` and once more at the end.
pub open spec fn interleaved(text: Seq<char>, filler: Seq<char>) -> Seq<char>
    decreases text.len(),
{
    if text.len() == 0 {
        filler
    } else {
        filler + seq![text[0]] + interleaved(text.subrange(1, text.len() as int), filler)
    }
}

/// `text` with every occurrence of `from` replaced by `to`, reading from the
/// left and never looking again at what an occurrence covered. An empty `from`
/// occurs before every character and at the end.
pub open spec fn replaced_all(text: Seq<char>, from: Seq<char>, to: Seq<char>) -> Seq<char>
    decreases text.len(),
{
    if from.len() == 0 {
        interleaved(text, to)
    } else if text.len() < from.len() {
        text
    } else if begins_with(text, from) {
        to + replaced_all(text.subrange(from.len() as int, text.len() as int), from, to)
    } else {
        seq![text[0]] + replaced_all(text.subrange(1, text.len() as int), from, to)
    }
}

/// `text` with the characters from `start` up to `end` replaced by `with`.
pub open spec fn spliced(text: Seq<char>, start: int, end: int, with: Seq<char>) -> Seq<char> {
    text.subrange(0, start) + with + text.subrange(end, text.len() as int)
}

/// A part that ends a text also stands in it.
pub proof fn lemma_ending_occurs(text: Seq<char>, part: Seq<char>)
    requires
        ends_with(text, part),
    ensures
        occurs_in(text, part),
{
    assert(occurs_at(text, part, text.len() - part.len()));
}

/// Replacing every occurrence of a part by itself changes nothing.
pub proof fn lemma_replaced_by_itself(text: Seq<char>, part: Seq<char>)
    ensures
        replaced_all(text, part, part) == text,
    decreases text.len(),
{
    if part.len() == 0 {
        if text.len() > 0 {
            let rest = text.subrange(1, text.len() as int);
            lemma_replaced_by_itself(rest, part);
            assert(part + seq![text[0]] + rest =~= text);
        } else {
            assert(part =~= text);
        }
    } else if text.len() < part.len() {
    } else if begins_with(text, part) {
        let rest = text.subrange(part.len() as int, text.len() as int);
        lemma_replaced_by_itself(rest, part);
        assert(part + rest =~= text);
    } else {
        let rest = text.subrange(1, text.len() as int);
        lemma_replaced_by_itself(rest, part);
        assert(seq![text[0]] + rest =~= text);
    }
}

/// The characters of `s`, in order.
pub fn chars_of(s: &str) -> (r: Vec<char>)
    ensures
        r@ == s@,
{
    let mut out: Vec<char> = Vec::new();
    for c in it: s.chars()
        invariant
            it.seq() == s@,
            out@ == it.seq().subrange(0, it.index() as int),
    {
        out.push(c);
    }
    out
}

/// Whether `part` stands in `text` at position `at`.
fn matches_at(text: &Vec<char>, part: &Vec<char>, at: usize) -> (r: bool)
    requires
        at + part.len() <= text.len(),
    ensures
        r == occurs_at(text@, part@, at as int),
{
    let mut k: usize = 0;
    while k < part.len()
        invariant
            k <= part.len(),
            at + part.len() <= text.len(),
            forall|j: int| 0 <= j < k ==> text@[at + j] == part@[j],
        decreases part.len() - k,
    {
        if text[at + k] != part[k] {
            proof {
                let window = text@.subrange(at as int, at + part.len());
                assert(window[k as int] == text@[at + k]);
            }
            return false;
        }
        k += 1;
    }
    assert(text@.subrange(at as int, at + part.len()) =~= part@);
    true
}

/// The first position at or after `from` where `part` stands in `text`.
fn find_from(text: &Vec<char>, part: &Vec<char>, from: usize) -> (r: Option<usize>)
    ensures
        match r {
            Some(at) => from <= at && occurs_at(text@, part@, at as int) && forall|j: int|
                from <= j < at ==> !occurs_at(text@, part@, j),
            None => forall|j: int| from <= j ==> !occurs_at(text@, part@, j),
        },
{
    if part.len() > text.len() || from > text.len() - part.len() {
        return None;
    }
    let last: usize = text.len() - part.len();
    let mut at: usize = from;
    loop
        invariant
            from <= at <= last,
            last == text.len() - part.len(),
            forall|j: int| from <= j < at ==> !occurs_at(text@, part@, j),
        decreases last - at,
    {
        if matches_at(text, part, at) {
            return Some(at);
        }
        if at == last {
            return None;
        }
        at += 1;
    }
}

/// Whether `text` begins with `part`.
pub fn starts_with(text: &str, part: &str) -> (r: bool)
    ensures
        r == begins_with(text@, part@),
{
    let t = chars_of(text);
    let p = chars_of(part);
    if p.len() > t.len() {
        return false;
    }
    matches_at(&t, &p, 0)
}

/// Whether `part` stands somewhere in `text`.
pub fn contains(text: &str, part: &str) -> (r: bool)
    ensures
        r == occurs_in(text@, part@),
{
    let t = chars_of(text);
    let p = chars_of(part);
    match find_from(&t, &p, 0) {
        Some(at) => true,
        None => {
            assert forall|j: int| !occurs_at(text@, part@, j) by {
                if j >= 0 {
                } else {
                }
            }
            false
        },
    }
}

/// Whether two strings hold the same characters.
pub fn same_text(a: &str, b: &str) -> (r: bool)
    ensures
        r == (a@ == b@),
{
    let x = chars_of(a);
    let y = chars_of(b);
    if x.len() != y.len() {
        return false;
    }
    let r = matches_at(&x, &y, 0);
    proof {
        assert(x@.subrange(0, x@.len() as int) =~= x@);
    }
    r
}

/// `text` with every occurrence of `from` replaced by `to`.
pub fn replace(text: &str, from: &str, to: &str) -> (r: String)
    ensures
        r@ == replaced_all(text@, from@, to@),
{
    let t = chars_of(text);
    let f = chars_of(from);
    let n: usize = t.len();
    let mut out = String::new();
    let mut i: usize = 0;
    proof {
        assert(text@.subrange(0, n as int) =~= text@);
        assert(out@ + interleaved(text@, to@) =~= interleaved(text@, to@));
        assert(out@ + replaced_all(text@, from@, to@) =~= replaced_all(text@, from@, to@));
    }
    if f.len() == 0 {
        while i < n
            invariant
                i <= n,
                n == text@.len(),
                from@.len() == 0,
                out@ + interleaved(text@.subrange(i as int, n as int), to@) == interleaved(
                    text@,
                    to@,
                ),
            decreases n - i,
        {
            proof {
                let rest = text@.subrange(i as int, n as int);
                assert(rest.subrange(1, rest.len() as int) =~= text@.subrange(i + 1, n as int));
                assert(seq![rest[0]] =~= text@.subrange(i as int, i + 1));
                assert(out@ + to@ + text@.subrange(i as int, i + 1) + interleaved(
                    text@.subrange(i + 1, n as int),
                    to@,
                ) =~= out@ + interleaved(rest, to@));
            }
            out.append(to);
            out.append(text.substring_char(i, i + 1));
            i += 1;
        }
        proof {
            assert(text@.subrange(n as int, n as int).len() == 0);
            assert(out@ + to@ =~= out@ + interleaved(text@.subrange(n as int, n as int), to@));
        }
        out.append(to);
        return out;
    }
    let mut start: usize = 0;
    proof {
        assert(out@ + text@.subrange(0, 0) + replaced_all(text@, from@, to@) =~= replaced_all(
            text@,
            from@,
            to@,
        ));
    }
    while i < n && f.len() <= n - i
        invariant
            start <= i <= n,
            n == text@.len(),
            t@ == text@,
            f@ == from@,
            from@.len() > 0,
            out@ + text@.subrange(start as int, i as int) + replaced_all(
                text@.subrange(i as int, n as int),
                from@,
                to@,
            ) == replaced_all(text@, from@, to@),
        decreases n - i,
    {
        let ghost rest = text@.subrange(i as int, n as int);
        let ghost kept = text@.subrange(start as int, i as int);
        proof {
            assert(rest.subrange(0, from@.len() as int) =~= text@.subrange(
                i as int,
                i + from@.len(),
            ));
        }
        if matches_at(&t, &f, i) {
            proof {
                let after = text@.subrange(i + from@.len(), n as int);
                assert(rest.subrange(from@.len() as int, rest.len() as int) =~= after);
                assert(out@ + kept + to@ + text@.subrange(i + from@.len(), i + from@.len())
                    + replaced_all(after, from@, to@) =~= out@ + kept + replaced_all(
                    rest,
                    from@,
                    to@,
                ));
            }
            out.append(text.substring_char(start, i));
            out.append(to);
            i += f.len();
            start = i;
        } else {
            proof {
                let after = text@.subrange(i + 1, n as int);
                assert(rest.subrange(1, rest.len() as int) =~= after);
                assert(out@ + text@.subrange(start as int, i + 1) + replaced_all(after, from@, to@)
                    =~= out@ + kept + replaced_all(rest, from@, to@));
            }
            i += 1;
        }
    }
    proof {
        lemma_short_text_kept(text@.subrange(i as int, n as int), from@, to@);
        assert(out@ + text@.subrange(start as int, n as int) =~= out@ + text@.subrange(
            start as int,
            i as int,
        ) + text@.subrange(i as int, n as int));
    }
    out.append(text.substring_char(start, n));
    out
}

/// A text too short to hold `from` is left as it is.
proof fn lemma_short_text_kept(text: Seq<char>, from: Seq<char>, to: Seq<char>)
    requires
        from.len() > 0,
        text.len() < from.len(),
    ensures
        replaced_all(text, from, to) == text,
{
}

} // verus!
