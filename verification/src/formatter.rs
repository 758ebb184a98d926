//! Pure text transformations behind the cat-style tool: line numbering,
//! end-of-line markers, and a literal two-space-to-marker substitution.

use vstd::prelude::*;
use vstd::string::StrSliceExecFns;
use vstd::string::StringExecFns;

verus! {

/// A line with a trailing carriage return dropped: `lines` treats a
/// carriage return directly before a line feed as part of the line break,
/// not of the line.
pub open spec fn drop_cr(l: Seq<char>) -> Seq<char> {
    if l.len() > 0 && l.last() == '\r' {
        l.drop_last()
    } else {
        l
    }
}

/// The lines of `cur + rest`, where `cur` is the part of the current line
/// read so far. A line feed in `rest` ends the current line; content left
/// over after the last line feed counts as a final line of its own, while
/// a trailing line feed opens no empty final line.
pub open spec fn lines_from(cur: Seq<char>, rest: Seq<char>) -> Seq<Seq<char>>
    decreases rest.len(),
{
    if rest.len() == 0 {
        if cur.len() == 0 {
            Seq::empty()
        } else {
            seq![cur]
        }
    } else if rest[0] == '\n' {
        seq![drop_cr(cur)] + lines_from(Seq::empty(), rest.skip(1))
    } else {
        lines_from(cur.push(rest[0]), rest.skip(1))
    }
}

/// The lines of a text, split at line feeds.
pub open spec fn split_lines(s: Seq<char>) -> Seq<Seq<char>> {
    lines_from(Seq::empty(), s)
}

/// The lines joined back together with a single line feed between
/// consecutive lines.
pub open spec fn join_nl(ls: Seq<Seq<char>>) -> Seq<char>
    decreases ls.len(),
{
    if ls.len() == 0 {
        Seq::empty()
    } else if ls.len() == 1 {
        ls[0]
    } else {
        join_nl(ls.drop_last()) + seq!['\n'] + ls.last()
    }
}

/// The character of a single decimal digit.
pub open spec fn digit_char(d: int) -> char {
    if d == 0 {
        '0'
    } else if d == 1 {
        '1'
    } else if d == 2 {
        '2'
    } else if d == 3 {
        '3'
    } else if d == 4 {
        '4'
    } else if d == 5 {
        '5'
    } else if d == 6 {
        '6'
    } else if d == 7 {
        '7'
    } else if d == 8 {
        '8'
    } else {
        '9'
    }
}

/// The decimal digits of `n`, most significant first, with no leading zeros
/// (a single `0` for zero itself).
pub open spec fn dec_rep(n: nat) -> Seq<char>
    decreases n,
{
    if n < 10 {
        seq![digit_char(n as int)]
    } else {
        dec_rep(n / 10).push(digit_char((n % 10) as int))
    }
}

fn digit_char_exec(d: u64) -> (c: char)
    requires
        d < 10,
    ensures
        c == digit_char(d as int),
{
    if d == 0 {
        '0'
    } else if d == 1 {
        '1'
    } else if d == 2 {
        '2'
    } else if d == 3 {
        '3'
    } else if d == 4 {
        '4'
    } else if d == 5 {
        '5'
    } else if d == 6 {
        '6'
    } else if d == 7 {
        '7'
    } else if d == 8 {
        '8'
    } else {
        '9'
    }
}

/// Returns the decimal digits of `n`, most significant first.
pub fn u64_digits(n: u64) -> (r: Vec<char>)
    ensures
        r@ == dec_rep(n as nat),
    decreases n,
{
    if n < 10 {
        let mut v: Vec<char> = Vec::new();
        v.push(digit_char_exec(n));
        v
    } else {
        let mut v = u64_digits(n / 10);
        v.push(digit_char_exec(n % 10));
        v
    }
}

/// The number of padding spaces that right-align a numeral of `l` digits
/// in a field of width four.
pub open spec fn pad_len(l: nat) -> nat {
    if l >= 4 {
        0
    } else {
        (4 - l) as nat
    }
}

/// The prefix put before numbered line `k`: two spaces, the decimal index
/// right-aligned to width four, and one space.
pub open spec fn num_prefix(k: nat) -> Seq<char> {
    seq![' ', ' '] + Seq::new(pad_len(dec_rep(k).len()), |i| ' ') + dec_rep(k) + seq![' ']
}

/// The text with every line prefixed by its right-aligned one-based
/// index, the lines joined back with line feeds.
pub open spec fn numbered_text(s: Seq<char>) -> Seq<char> {
    join_nl(
        Seq::new(
            split_lines(s).len(),
            |i: int| num_prefix((i + 1) as nat) + split_lines(s)[i],
        ),
    )
}

/// The text with `end_char` appended to every line, the lines joined back
/// with line feeds.
pub open spec fn ends_text(s: Seq<char>, end_char: char) -> Seq<char> {
    join_nl(Seq::new(split_lines(s).len(), |i: int| split_lines(s)[i].push(end_char)))
}

/// The text with every leftmost pair of adjacent spaces replaced by the
/// two-character tab marker `^I`; a single isolated space stays as it is.
pub open spec fn tabbed(s: Seq<char>) -> Seq<char>
    decreases s.len(),
{
    if s.len() >= 2 && s[0] == ' ' && s[1] == ' ' {
        seq!['^', 'I'] + tabbed(s.skip(2))
    } else if s.len() == 0 {
        Seq::empty()
    } else {
        seq![s[0]] + tabbed(s.skip(1))
    }
}

/// Relies on `String::push`: it appends exactly the one character to the
/// end of the string.
#[verifier::external_body]
fn push_char(s: &mut String, c: char)
    ensures
        final(s)@ == old(s)@.push(c),
{
    s.push(c);
}

/// Returns the characters of `s` as a vector.
fn str_to_chars(s: &str) -> (v: Vec<char>)
    ensures
        v@ == s@,
{
    let n = s.unicode_len();
    let mut v: Vec<char> = Vec::new();
    let mut i: usize = 0;
    while i < n
        invariant
            i <= n,
            n == s@.len(),
            v@ == s@.take(i as int),
        decreases n - i,
    {
        v.push(s.get_char(i));
        proof {
            assert(s@.take(i + 1) =~= s@.take(i as int).push(s@[i as int]));
        }
        i = i + 1;
    }
    proof {
        assert(s@.take(n as int) =~= s@);
    }
    v
}

/// Returns the string made of exactly the characters of `v`.
fn chars_to_string(v: &Vec<char>) -> (s: String)
    ensures
        s@ == v@,
{
    let mut s = String::new();
    let mut i: usize = 0;
    while i < v.len()
        invariant
            i <= v@.len(),
            s@ == v@.take(i as int),
        decreases v@.len() - i,
    {
        push_char(&mut s, v[i]);
        proof {
            assert(v@.take(i + 1) =~= v@.take(i as int).push(v@[i as int]));
        }
        i = i + 1;
    }
    proof {
        assert(v@.take(v@.len() as int) =~= v@);
    }
    s
}

/// Appends every character of `xs` to `out`.
fn push_all(out: &mut Vec<char>, xs: &Vec<char>)
    ensures
        final(out)@ == old(out)@ + xs@,
{
    let mut j: usize = 0;
    while j < xs.len()
        invariant
            j <= xs@.len(),
            out@ == old(out)@ + xs@.take(j as int),
        decreases xs@.len() - j,
    {
        out.push(xs[j]);
        proof {
            assert(old(out)@ + xs@.take(j + 1) =~= (old(out)@ + xs@.take(j as int)).push(
                xs@[j as int],
            ));
        }
        j = j + 1;
    }
    proof {
        assert(old(out)@ + xs@.take(xs@.len() as int) =~= old(out)@ + xs@);
    }
}

/// Returns the lines of `v`, split at line feeds, with the carriage
/// return of a `\r\n` line break dropped.
fn split_chars_into_lines(v: &Vec<char>) -> (ls: Vec<Vec<char>>)
    ensures
        ls@.map_values(|l: Vec<char>| l@) == split_lines(v@),
{
    let mut ls: Vec<Vec<char>> = Vec::new();
    let mut cur: Vec<char> = Vec::new();
    let mut i: usize = 0;
    proof {
        assert(v@.skip(0) =~= v@);
    }
    while i < v.len()
        invariant
            i <= v@.len(),
            split_lines(v@) == ls@.map_values(|l: Vec<char>| l@) + lines_from(
                cur@,
                v@.skip(i as int),
            ),
        decreases v@.len() - i,
    {
        let ghost rest = v@.skip(i as int);
        proof {
            assert(rest[0] == v@[i as int]);
            assert(rest.skip(1) =~= v@.skip(i + 1));
        }
        let c = v[i];
        if c == '\n' {
            let ghost cur0 = cur@;
            if cur.len() > 0 && cur[cur.len() - 1] == '\r' {
                cur.pop();
            }
            proof {
                assert(cur@ == drop_cr(cur0));
            }
            ls.push(cur);
            cur = Vec::new();
            proof {
                assert(ls@.map_values(|l: Vec<char>| l@) =~= ls@.drop_last().map_values(
                    |l: Vec<char>| l@,
                ) + seq![drop_cr(cur0)]);
            }
        } else {
            cur.push(c);
        }
        i = i + 1;
    }
    proof {
        assert(v@.skip(v@.len() as int) =~= Seq::<char>::empty());
    }
    if cur.len() > 0 {
        ls.push(cur);
        proof {
            assert(ls@.map_values(|l: Vec<char>| l@) =~= ls@.drop_last().map_values(
                |l: Vec<char>| l@,
            ) + seq![ls@.last()@]);
        }
    }
    ls
}

/// Joining one more line appends a line feed separator, except before the
/// very first line.
proof fn lemma_join_snoc(ls: Seq<Seq<char>>, i: int)
    requires
        0 <= i < ls.len(),
    ensures
        i == 0 ==> join_nl(ls.take(1)) == ls[0],
        i > 0 ==> join_nl(ls.take(i + 1)) == join_nl(ls.take(i)) + seq!['\n'] + ls[i],
{
    assert(ls.take(i + 1).drop_last() =~= ls.take(i));
    assert(ls.take(i + 1).last() == ls[i]);
    if i == 0 {
        assert(ls.take(1)[0] == ls[0]);
    }
}

/// Returns the text with `end_char` appended to every line.
pub fn add_end_chars(contents: &str, end_char: char) -> (r: String)
    ensures
        r@ == ends_text(contents@, end_char),
{
    let chars = str_to_chars(contents);
    let lines = split_chars_into_lines(&chars);
    let ghost ended = Seq::new(
        split_lines(contents@).len(),
        |i: int| split_lines(contents@)[i].push(end_char),
    );
    let mut out: Vec<char> = Vec::new();
    let mut i: usize = 0;
    while i < lines.len()
        invariant
            i <= lines@.len(),
            lines@.map_values(|l: Vec<char>| l@) == split_lines(contents@),
            ended == Seq::new(
                split_lines(contents@).len(),
                |j: int| split_lines(contents@)[j].push(end_char),
            ),
            out@ == join_nl(ended.take(i as int)),
        decreases lines@.len() - i,
    {
        let ghost out0 = out@;
        if i > 0 {
            out.push('\n');
        }
        push_all(&mut out, &lines[i]);
        out.push(end_char);
        proof {
            assert(lines@.map_values(|l: Vec<char>| l@)[i as int] == lines@[i as int]@);
            assert(ended[i as int] == lines@[i as int]@.push(end_char));
            lemma_join_snoc(ended, i as int);
            if i == 0 {
                assert(out@ =~= ended[0]);
            } else {
                assert(out@ =~= join_nl(ended.take(i as int)) + seq!['\n'] + ended[i as int]);
            }
        }
        i = i + 1;
    }
    proof {
        assert(ended.take(lines@.len() as int) =~= ended);
    }
    chars_to_string(&out)
}

/// Returns the text with every line prefixed by its right-aligned
/// one-based index.
pub fn add_line_numbers(contents: &str) -> (r: String)
    ensures
        r@ == numbered_text(contents@),
{
    let chars = str_to_chars(contents);
    let lines = split_chars_into_lines(&chars);
    let ghost numbered = Seq::new(
        split_lines(contents@).len(),
        |i: int| num_prefix((i + 1) as nat) + split_lines(contents@)[i],
    );
    let mut out: Vec<char> = Vec::new();
    let mut i: usize = 0;
    while i < lines.len()
        invariant
            i <= lines@.len(),
            lines@.map_values(|l: Vec<char>| l@) == split_lines(contents@),
            numbered == Seq::new(
                split_lines(contents@).len(),
                |j: int| num_prefix((j + 1) as nat) + split_lines(contents@)[j],
            ),
            out@ == join_nl(numbered.take(i as int)),
        decreases lines@.len() - i,
    {
        let ghost base = if i == 0 {
            out@
        } else {
            out@ + seq!['\n']
        };
        if i > 0 {
            out.push('\n');
        }
        out.push(' ');
        out.push(' ');
        let index: u64 = (i as u64) + 1;
        let digits = u64_digits(index);
        let dl = digits.len();
        proof {
            assert(out@ =~= base + seq![' ', ' ']);
        }
        let ghost before_pad = out@;
        let mut pads: usize = 0;
        let needed: usize = if dl >= 4 {
            0
        } else {
            4 - dl
        };
        proof {
            assert(needed == pad_len(dec_rep(index as nat).len()));
            assert(before_pad + Seq::new(0, |x: int| ' ') =~= before_pad);
        }
        while pads < needed
            invariant
                pads <= needed,
                out@ == before_pad + Seq::new(pads as nat, |x: int| ' '),
            decreases needed - pads,
        {
            out.push(' ');
            proof {
                assert(before_pad + Seq::new((pads + 1) as nat, |x: int| ' ') =~= (before_pad
                    + Seq::new(pads as nat, |x: int| ' ')).push(' '));
            }
            pads = pads + 1;
        }
        push_all(&mut out, &digits);
        out.push(' ');
        push_all(&mut out, &lines[i]);
        proof {
            assert(lines@.map_values(|l: Vec<char>| l@)[i as int] == lines@[i as int]@);
            assert(numbered[i as int] == num_prefix((i + 1) as nat) + lines@[i as int]@);
            assert(out@ =~= base + (num_prefix((i + 1) as nat) + lines@[i as int]@));
            lemma_join_snoc(numbered, i as int);
            if i == 0 {
                assert(out@ =~= numbered[0]);
            } else {
                assert(out@ =~= join_nl(numbered.take(i as int)) + seq!['\n'] + numbered[i as int]);
            }
        }
        i = i + 1;
    }
    proof {
        assert(numbered.take(lines@.len() as int) =~= numbered);
    }
    chars_to_string(&out)
}

/// Returns the text with every leftmost pair of adjacent spaces replaced
/// by the two-character tab marker `^I`.
pub fn add_tab_chars(contents: &str) -> (r: String)
    ensures
        r@ == tabbed(contents@),
{
    let chars = str_to_chars(contents);
    let mut out: Vec<char> = Vec::new();
    let mut i: usize = 0;
    proof {
        assert(chars@.skip(0) =~= chars@);
    }
    while i < chars.len()
        invariant
            i <= chars@.len(),
            chars@ == contents@,
            tabbed(contents@) == out@ + tabbed(chars@.skip(i as int)),
        decreases chars@.len() - i,
    {
        let ghost rest = chars@.skip(i as int);
        let ghost out0 = out@;
        proof {
            assert(rest[0] == chars@[i as int]);
            if rest.len() >= 2 {
                assert(rest[1] == chars@[i + 1]);
            }
        }
        if chars[i] == ' ' && i + 1 < chars.len() && chars[i + 1] == ' ' {
            out.push('^');
            out.push('I');
            proof {
                assert(rest.skip(2) =~= chars@.skip(i + 2));
                assert(out@ =~= out0 + seq!['^', 'I']);
                assert(out@ + tabbed(chars@.skip(i + 2)) =~= out0 + tabbed(rest));
            }
            i = i + 2;
        } else {
            out.push(chars[i]);
            proof {
                assert(rest.skip(1) =~= chars@.skip(i + 1));
                assert(out@ =~= out0 + seq![rest[0]]);
                assert(out@ + tabbed(chars@.skip(i + 1)) =~= out0 + tabbed(rest));
            }
            i = i + 1;
        }
    }
    proof {
        assert(chars@.skip(chars@.len() as int) =~= Seq::<char>::empty());
    }
    chars_to_string(&out)
}

} // verus!
