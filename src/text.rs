//! Line structure of an entry's plain text.
use vstd::prelude::*;

verus! {

/// A line with a trailing carriage return removed, as `\r\n` counts as one line ending.
pub open spec fn strip_cr(l: Seq<char>) -> Seq<char> {
    if l.len() > 0 && l.last() == '\r' {
        l.drop_last()
    } else {
        l
    }
}

/// Splits `s` at each `\n`: the lines completed so far, and the unfinished tail.
pub open spec fn split_acc(s: Seq<char>) -> (Seq<Seq<char>>, Seq<char>)
    decreases s.len(),
{
    if s.len() == 0 {
        (Seq::empty(), Seq::empty())
    } else {
        let (done, cur) = split_acc(s.drop_last());
        if s.last() == '\n' {
            (done.push(strip_cr(cur)), Seq::empty())
        } else {
            (done, cur.push(s.last()))
        }
    }
}

/// The lines of `s`: split at `\n` or `\r\n`, the final line ending optional.
pub open spec fn lines_of(s: Seq<char>) -> Seq<Seq<char>> {
    let (done, cur) = split_acc(s);
    if cur.len() == 0 {
        done
    } else {
        done.push(cur)
    }
}

/// Each line followed by a newline.
pub open spec fn terminated(ls: Seq<Seq<char>>) -> Seq<Seq<char>> {
    ls.map_values(|l: Seq<char>| l.push('\n'))
}

/// The stored lines of an entry read from raw text: none for text without lines; a single
/// line kept as it is; two or more lines each terminated with a newline.
pub open spec fn parse_entry(s: Seq<char>) -> Option<Seq<Seq<char>>> {
    let ls = lines_of(s);
    if ls.len() == 0 {
        None
    } else if ls.len() == 1 {
        Some(ls)
    } else {
        Some(terminated(ls))
    }
}

/// The lines written one after the other.
pub open spec fn concat_all(ls: Seq<Seq<char>>) -> Seq<char>
    decreases ls.len(),
{
    if ls.len() == 0 {
        Seq::empty()
    } else {
        concat_all(ls.drop_last()) + ls.last()
    }
}

/// The contents of a vector of strings.
pub open spec fn strings_view(v: Seq<String>) -> Seq<Seq<char>> {
    v.map_values(|s: String| s@)
}

/// A line is plain when it holds no newline and does not end in a carriage return.
pub open spec fn plain_line(l: Seq<char>) -> bool {
    &&& forall|i: int| 0 <= i < l.len() ==> l[i] != '\n'
    &&& !(l.len() > 0 && l.last() == '\r')
}

/// Appending text without a newline extends the unfinished tail.
proof fn lemma_split_acc_append(s: Seq<char>, w: Seq<char>)
    requires
        forall|i: int| 0 <= i < w.len() ==> w[i] != '\n',
    ensures
        split_acc(s + w) == (split_acc(s).0, split_acc(s).1 + w),
    decreases w.len(),
{
    if w.len() == 0 {
        assert(s + w =~= s);
        assert(split_acc(s).1 + w =~= split_acc(s).1);
    } else {
        let w0 = w.drop_last();
        lemma_split_acc_append(s, w0);
        assert((s + w).drop_last() =~= s + w0);
        assert((split_acc(s).1 + w0).push(w.last()) =~= split_acc(s).1 + w);
    }
}

/// Plain lines, each followed by a newline, read back as the same lines.
pub proof fn lemma_lines_of_terminated(ls: Seq<Seq<char>>)
    requires
        forall|k: int| 0 <= k < ls.len() ==> plain_line(#[trigger] ls[k]),
    ensures
        split_acc(concat_all(terminated(ls))) == (ls, Seq::<char>::empty()),
        lines_of(concat_all(terminated(ls))) == ls,
    decreases ls.len(),
{
    if ls.len() == 0 {
        assert(terminated(ls) =~= Seq::<Seq<char>>::empty());
        assert(ls =~= Seq::<Seq<char>>::empty());
    } else {
        let init = ls.drop_last();
        let l = ls.last();
        assert forall|k: int| 0 <= k < init.len() implies plain_line(#[trigger] init[k]) by {
            assert(init[k] == ls[k]);
        }
        lemma_lines_of_terminated(init);
        assert(terminated(ls).drop_last() =~= terminated(init));
        let t = concat_all(terminated(init));
        assert(concat_all(terminated(ls)) == t + l.push('\n'));
        assert(plain_line(ls[ls.len() - 1]));
        lemma_split_acc_append(t, l);
        assert(t + l.push('\n') =~= (t + l).push('\n'));
        assert((t + l).push('\n').drop_last() =~= t + l);
        assert(Seq::<char>::empty() + l =~= l);
        assert(strip_cr(l) == l);
        assert(init.push(l) =~= ls);
    }
}

/// A plain non-empty line without its newline reads as that one line.
pub proof fn lemma_lines_of_plain(l: Seq<char>)
    requires
        plain_line(l),
        l.len() > 0,
    ensures
        lines_of(l) == seq![l],
{
    lemma_split_acc_append(Seq::empty(), l);
    assert(Seq::<char>::empty() + l =~= l);
    assert(Seq::<Seq<char>>::empty().push(l) =~= seq![l]);
}

/// Plain lines, each followed by a newline but the last, which is not empty, read back as
/// the same lines.
pub proof fn lemma_lines_of_unterminated(ls: Seq<Seq<char>>)
    requires
        ls.len() >= 1,
        ls.last().len() > 0,
        forall|k: int| 0 <= k < ls.len() ==> plain_line(#[trigger] ls[k]),
    ensures
        lines_of(concat_all(terminated(ls.drop_last())) + ls.last()) == ls,
{
    let init = ls.drop_last();
    assert forall|k: int| 0 <= k < init.len() implies plain_line(#[trigger] init[k]) by {
        assert(init[k] == ls[k]);
    }
    lemma_lines_of_terminated(init);
    assert(plain_line(ls[ls.len() - 1]));
    lemma_split_acc_append(concat_all(terminated(init)), ls.last());
    assert(Seq::<char>::empty() + ls.last() =~= ls.last());
    assert(init.push(ls.last()) =~= ls);
}

/// Whether `s[i]` is a newline.
fn char_is_newline(s: &str, i: usize) -> (r: bool)
    requires
        i < s@.len(),
    ensures
        r == (s@[i as int] == '\n'),
{
    s.get_char(i) == '\n'
}

/// The lines of `input`, split at `\n` or `\r\n`.
pub fn split_lines(input: &str) -> (r: Vec<String>)
    ensures
        strings_view(r@) == lines_of(input@),
{
    let n = input.unicode_len();
    let mut lines: Vec<String> = Vec::new();
    let mut start: usize = 0;
    let mut i: usize = 0;
    while i < n
        invariant
            n == input@.len(),
            start <= i <= n,
            split_acc(input@.take(i as int)) == (strings_view(lines@), input@.subrange(
                start as int,
                i as int,
            )),
        decreases n - i,
    {
        let ghost cur = input@.subrange(start as int, i as int);
        assert(input@.take(i + 1).drop_last() =~= input@.take(i as int));
        assert(input@.take(i + 1).last() == input@[i as int]);
        if char_is_newline(input, i) {
            let end: usize = if i > start && input.get_char(i - 1) == '\r' {
                i - 1
            } else {
                i
            };
            assert(strip_cr(cur) =~= input@.subrange(start as int, end as int));
            let piece = input.substring_char(start, end);
            let line = String::from_str(piece);
            let ghost before = lines@;
            lines.push(line);
            assert(strings_view(lines@) =~= strings_view(before).push(line@));
            start = i + 1;
            assert(input@.subrange(start as int, i + 1) =~= Seq::<char>::empty());
        } else {
            assert(cur.push(input@[i as int]) =~= input@.subrange(start as int, i + 1));
        }
        i = i + 1;
    }
    assert(input@.take(n as int) =~= input@);
    if start < n {
        let piece = input.substring_char(start, n);
        let line = String::from_str(piece);
        let ghost before = lines@;
        lines.push(line);
        assert(strings_view(lines@) =~= strings_view(before).push(line@));
    }
    lines
}

/// Converts raw text into the stored lines of an entry: `None` when it holds no line; a single
/// line as it is; otherwise every line with a newline appended.
pub fn string_to_vec(input: &str) -> (r: Option<Vec<String>>)
    ensures
        match r {
            None => parse_entry(input@) is None,
            Some(v) => parse_entry(input@) == Some(strings_view(v@)),
        },
{
    let lines = split_lines(input);
    if lines.len() == 0 {
        None
    } else if lines.len() == 1 {
        Some(lines)
    } else {
        let mut out: Vec<String> = Vec::new();
        let mut k: usize = 0;
        while k < lines.len()
            invariant
                k <= lines@.len(),
                strings_view(out@) =~= terminated(strings_view(lines@)).take(k as int),
            decreases lines@.len() - k,
        {
            let mut l = lines[k].clone();
            l.append("\n");
            proof {
                reveal_strlit("\n");
            }
            let ghost before = out@;
            out.push(l);
            assert(strings_view(out@) =~= strings_view(before).push(l@));
            assert(l@ =~= lines@[k as int]@.push('\n'));
            k = k + 1;
        }
        assert(terminated(strings_view(lines@)).take(lines@.len() as int) =~= terminated(
            strings_view(lines@),
        ));
        Some(out)
    }
}

/// All the lines written one after the other.
pub fn concat_lines(ls: &Vec<String>) -> (r: String)
    ensures
        r@ == concat_all(strings_view(ls@)),
{
    let mut out = String::new();
    let mut k: usize = 0;
    while k < ls.len()
        invariant
            k <= ls@.len(),
            out@ == concat_all(strings_view(ls@).take(k as int)),
        decreases ls@.len() - k,
    {
        out.append(ls[k].as_str());
        assert(strings_view(ls@).take(k + 1).drop_last() =~= strings_view(ls@).take(k as int));
        k = k + 1;
    }
    assert(strings_view(ls@).take(ls@.len() as int) =~= strings_view(ls@));
    out
}

} // verus!
