//! `str::lines` and joining lines, over character sequences.

use vstd::prelude::*;
use crate::text::push_char;

verus! {

/// The index of the first `\n` of `s`, or its length where there is none.
pub open spec fn newline_at(s: Seq<char>) -> nat
    decreases s.len(),
{
    if s.len() == 0 {
        0
    } else if s[0] == '\n' {
        0
    } else {
        1 + newline_at(s.drop_first())
    }
}

/// A line without the `\r` of a `\r\n` ending.
pub open spec fn strip_cr(l: Seq<char>) -> Seq<char> {
    if l.len() > 0 && l.last() == '\r' {
        l.drop_last()
    } else {
        l
    }
}

/// `str::lines`: split at `\n` (dropping a `\r` before it), with no line
/// after a final `\n`.
pub open spec fn lines(s: Seq<char>) -> Seq<Seq<char>>
    decreases s.len(),
{
    if s.len() == 0 {
        seq![]
    } else {
        let i = newline_at(s);
        if i >= s.len() {
            seq![s]
        } else {
            seq![strip_cr(s.subrange(0, i as int))] + lines(s.subrange(i as int + 1, s.len() as int))
        }
    }
}

/// The lines of `ls` joined by `sep`.
pub open spec fn join(ls: Seq<Seq<char>>, sep: Seq<char>) -> Seq<char>
    decreases ls.len(),
{
    if ls.len() == 0 {
        seq![]
    } else if ls.len() == 1 {
        ls[0]
    } else {
        ls[0] + sep + join(ls.drop_first(), sep)
    }
}

/// The texts of a vector of character vectors.
pub open spec fn texts(v: Seq<Vec<char>>) -> Seq<Seq<char>> {
    v.map_values(|l: Vec<char>| l@)
}

proof fn lemma_newline_at(s: Seq<char>, j: int)
    requires
        0 <= j <= s.len(),
        forall|k: int| 0 <= k < j ==> s[k] != '\n',
        j < s.len() ==> s[j] == '\n',
    ensures
        newline_at(s) == j,
    decreases s.len(),
{
    if s.len() > 0 && j > 0 {
        let t = s.drop_first();
        assert forall|k: int| 0 <= k < j - 1 implies t[k] != '\n' by {
            assert(t[k] == s[k + 1]);
        }
        lemma_newline_at(t, j - 1);
    }
}

/// The lines of `s`, each as characters.
pub fn split_lines_chars(s: &Vec<char>) -> (r: Vec<Vec<char>>)
    ensures
        texts(r@) == lines(s@),
{
    let n = s.len();
    let mut out: Vec<Vec<char>> = Vec::new();
    let mut st: usize = 0;
    proof {
        assert(s@.subrange(0, n as int) =~= s@);
        assert(texts(out@) + lines(s@) =~= lines(s@));
    }
    while st < n
        invariant
            n == s.len(),
            st <= n,
            texts(out@) + lines(s@.subrange(st as int, n as int)) == lines(s@),
        decreases n - st,
    {
        let mut j: usize = st;
        while j < n && s[j] != '\n'
            invariant
                st <= j <= n,
                n == s.len(),
                forall|k: int| st <= k < j ==> s@[k] != '\n',
            decreases n - j,
        {
            j = j + 1;
        }
        let ghost rest = s@.subrange(st as int, n as int);
        proof {
            lemma_newline_at(rest, (j - st) as int);
        }
        let mut line: Vec<char> = Vec::new();
        let mut k: usize = st;
        while k < j
            invariant
                st <= k <= j <= n,
                n == s.len(),
                line@ == s@.subrange(st as int, k as int),
            decreases j - k,
        {
            line.push(s[k]);
            k = k + 1;
        }
        let ghost before = out@;
        if j < n {
            if line.len() > 0 && line[line.len() - 1] == '\r' {
                line.pop();
            }
            out.push(line);
            proof {
                assert(rest.subrange(0, (j - st) as int) =~= s@.subrange(st as int, j as int));
                assert(rest.subrange((j - st) + 1, rest.len() as int) =~= s@.subrange(j + 1, n as int));
                assert(texts(out@) =~= texts(before).push(strip_cr(s@.subrange(st as int, j as int))));
                assert(texts(out@) + lines(s@.subrange(j + 1, n as int)) =~= texts(before) + lines(rest));
            }
            st = j + 1;
        } else {
            out.push(line);
            proof {
                assert(s@.subrange(st as int, j as int) =~= rest);
                assert(texts(out@) =~= texts(before).push(rest));
                assert(s@.subrange(n as int, n as int) =~= Seq::<char>::empty());
                assert(texts(out@) + lines(s@.subrange(n as int, n as int)) =~= texts(before) + lines(rest));
            }
            st = n;
        }
    }
    proof {
        assert(s@.subrange(n as int, n as int) =~= Seq::<char>::empty());
        assert(texts(out@) + Seq::<Seq<char>>::empty() =~= texts(out@));
    }
    out
}

/// The lines of `v` joined by `sep`, from index `i` on.
pub fn join_chars(v: &Vec<Vec<char>>, i: usize, sep: char) -> (s: String)
    requires
        i <= v.len(),
    ensures
        s@ == join(texts(v@).subrange(i as int, v@.len() as int), seq![sep]),
    decreases v.len() - i,
{
    let ghost t = texts(v@).subrange(i as int, v@.len() as int);
    if i == v.len() {
        assert(t.len() == 0);
        String::new()
    } else {
        let mut s = String::new();
        let line = &v[i];
        let mut k: usize = 0;
        while k < line.len()
            invariant
                k <= line.len(),
                s@ == line@.subrange(0, k as int),
            decreases line.len() - k,
        {
            push_char(&mut s, line[k]);
            k = k + 1;
            assert(s@ =~= line@.subrange(0, k as int));
        }
        assert(line@.subrange(0, line@.len() as int) =~= line@);
        assert(t[0] == line@);
        if i + 1 == v.len() {
            s
        } else {
            let rest = join_chars(v, i + 1, sep);
            assert(t.drop_first() =~= texts(v@).subrange(i + 1, v@.len() as int));
            push_char(&mut s, sep);
            s.append(rest.as_str());
            s
        }
    }
}

} // verus!
