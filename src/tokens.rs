//! Splitting an input line into tokens on runs of whitespace.
use vstd::prelude::*;

verus! {

/// Whether `c` has Unicode's White_Space property, as `char::is_whitespace` decides.
pub uninterp spec fn white(c: char) -> bool;

/// Relies on `char::is_whitespace`: its answer depends on the character alone,
/// and the ASCII space, tab, line feed and carriage return are whitespace.
pub assume_specification[ char::is_whitespace ](c: char) -> (r: bool)
    ensures
        r == white(c),
        c == ' ' || c == '\t' || c == '\n' || c == '\r' ==> r,
;

/// Relies on `String::push`: appends one character at the end.
pub assume_specification[ String::push ](s: &mut String, ch: char)
    ensures
        final(s)@ == old(s)@.push(ch),
;

/// A line that holds nothing but whitespace (or nothing at all).
pub open spec fn blank(s: Seq<char>) -> bool {
    forall|i: int| 0 <= i < s.len() ==> white(#[trigger] s[i])
}

/// The tokens finished so far and the token being read, after reading `s`
/// from left to right.
pub open spec fn scan(s: Seq<char>) -> (Seq<Seq<char>>, Seq<char>)
    decreases s.len(),
{
    if s.len() == 0 {
        (Seq::empty(), Seq::empty())
    } else {
        let (done, word) = scan(s.drop_last());
        let c = s.last();
        if !white(c) {
            (done, word.push(c))
        } else if word.len() > 0 {
            (done.push(word), Seq::empty())
        } else {
            (done, word)
        }
    }
}

/// The maximal runs of non-whitespace characters of `s`, in order.
pub open spec fn words(s: Seq<char>) -> Seq<Seq<char>> {
    let (done, word) = scan(s);
    if word.len() > 0 {
        done.push(word)
    } else {
        done
    }
}

/// Every token is non-empty and holds no whitespace.
pub open spec fn proper(ts: Seq<Seq<char>>) -> bool {
    forall|k: int|
        0 <= k < ts.len() ==> (#[trigger] ts[k]).len() > 0 && forall|j: int|
            0 <= j < ts[k].len() ==> !white(#[trigger] ts[k][j])
}

proof fn lemma_scan(s: Seq<char>)
    ensures
        proper(scan(s).0),
        forall|j: int| 0 <= j < scan(s).1.len() ==> !white(#[trigger] scan(s).1[j]),
        blank(s) <==> (scan(s).0.len() == 0 && scan(s).1.len() == 0),
    decreases s.len(),
{
    if s.len() > 0 {
        let p = s.drop_last();
        lemma_scan(p);
        let (done, word) = scan(p);
        let c = s.last();
        assert(s == p.push(c));
        if blank(s) {
            assert forall|i: int| 0 <= i < p.len() implies white(p[i]) by {
                assert(p[i] == s[i]);
            }
        }
        if !white(c) {
            assert(!blank(s)) by {
                assert(!white(s[s.len() - 1]));
            }
            assert forall|j: int| 0 <= j < word.push(c).len() implies !white(
                #[trigger] word.push(c)[j],
            ) by {
                if j < word.len() {
                    assert(word.push(c)[j] == word[j]);
                }
            }
        } else {
            if blank(p) {
                assert forall|i: int| 0 <= i < s.len() implies white(s[i]) by {
                    if i < p.len() {
                        assert(s[i] == p[i]);
                    }
                }
            }
            if word.len() > 0 {
                assert forall|k: int| 0 <= k < done.push(word).len() implies (#[trigger] done.push(
                    word,
                )[k]).len() > 0 && forall|j: int|
                    0 <= j < done.push(word)[k].len() ==> !white(
                        #[trigger] done.push(word)[k][j],
                    ) by {
                    if k < done.len() {
                        assert(done.push(word)[k] == done[k]);
                    }
                }
            }
        }
    }
}

/// The tokens of a line are non-empty and free of whitespace, and a line has
/// none exactly when it is blank.
pub proof fn lemma_words(s: Seq<char>)
    ensures
        proper(words(s)),
        blank(s) <==> words(s).len() == 0,
{
    lemma_scan(s);
    let (done, word) = scan(s);
    if word.len() > 0 {
        assert forall|k: int| 0 <= k < done.push(word).len() implies (#[trigger] done.push(
            word,
        )[k]).len() > 0 && forall|j: int|
            0 <= j < done.push(word)[k].len() ==> !white(#[trigger] done.push(word)[k][j]) by {
            if k < done.len() {
                assert(done.push(word)[k] == done[k]);
            }
        }
    }
}

/// The views of a list of strings.
pub open spec fn views(v: Seq<String>) -> Seq<Seq<char>> {
    v.map_values(|t: String| t@)
}

/// Splits `line` into its tokens: the maximal runs of non-whitespace
/// characters, in order. Leading and trailing whitespace, the line
/// terminator included, yields no token.
pub fn tokenize(line: &str) -> (r: Vec<String>)
    ensures
        views(r@) == words(line@),
        proper(views(r@)),
        blank(line@) <==> r.len() == 0,
{
    let mut done: Vec<String> = Vec::new();
    let mut word = String::new();
    for c in it: line.chars()
        invariant
            it.seq() == line@,
            (views(done@), word@) == scan(line@.take(it.index())),
    {
        let ghost before = line@.take(it.index());
        assert(line@.take(it.index() + 1) == before.push(c));
        assert(line@.take(it.index() + 1).drop_last() == before);
        if !c.is_whitespace() {
            word.push(c);
        } else if !word.as_str().is_empty() {
            let ghost w = word@;
            done.push(word);
            word = String::new();
            assert(views(done@) =~= scan(before).0.push(w));
        }
    }
    assert(line@.take(line@.len() as int) == line@);
    if !word.as_str().is_empty() {
        let ghost w = word@;
        done.push(word);
        assert(views(done@) =~= scan(line@).0.push(w));
    }
    proof {
        lemma_words(line@);
    }
    done
}

} // verus!
