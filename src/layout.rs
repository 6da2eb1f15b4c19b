//! The drawing rules of a grid of centred text cells, and the code that
//! draws one.
use vstd::prelude::*;

verus! {

/// `n` copies of the character `c`.
pub open spec fn run(c: char, n: nat) -> Seq<char> {
    Seq::new(n, |_i: int| c)
}

/// `s` centred in `width` characters: the missing characters become spaces,
/// half of them on the left, and the odd one on the right. Text at least as
/// wide as `width` stays as it is.
pub open spec fn center(s: Seq<char>, width: nat) -> Seq<char> {
    let pad: nat = if s.len() < width { (width - s.len()) as nat } else { 0 };
    run(' ', pad / 2) + s + run(' ', (pad - pad / 2) as nat)
}

/// The larger of `a` and `b`.
pub open spec fn larger(a: nat, b: nat) -> nat {
    if a < b {
        b
    } else {
        a
    }
}

/// The longest length among `ss`, or 0 when there is none.
pub open spec fn max_len(ss: Seq<Seq<char>>) -> nat
    decreases ss.len(),
{
    if ss.len() == 0 {
        0
    } else {
        larger(max_len(ss.drop_last()), ss.last().len())
    }
}

/// The dashes of a separator line: for each content width `w`, `w + 2`
/// dashes (one space of margin on either side of the text) and a `+`.
pub open spec fn rule_cells(ws: Seq<nat>) -> Seq<char>
    decreases ws.len(),
{
    if ws.len() == 0 {
        Seq::empty()
    } else {
        rule_cells(ws.drop_last()) + run('-', ws.last() + 2) + seq!['+']
    }
}

/// A separator line for the content widths `ws`.
pub open spec fn rule(ws: Seq<nat>) -> Seq<char> {
    seq!['+'] + rule_cells(ws) + seq!['\n']
}

/// The cells of a content line: each of `cells` centred in its width plus two,
/// followed by `|`.
pub open spec fn line_cells(cells: Seq<Seq<char>>, ws: Seq<nat>) -> Seq<char>
    decreases cells.len(),
{
    if cells.len() == 0 {
        Seq::empty()
    } else {
        let k = cells.len() - 1;
        line_cells(cells.drop_last(), ws) + center(cells.last(), (ws[k] + 2) as nat) + seq!['|']
    }
}

/// A content line holding `cells` in columns of content widths `ws`.
pub open spec fn line(cells: Seq<Seq<char>>, ws: Seq<nat>) -> Seq<char> {
    seq!['|'] + line_cells(cells, ws) + seq!['\n']
}

/// The first `k` of `lines`, each followed by `sep` when `all` holds; the
/// last of `lines` is followed by `sep` in any case.
pub open spec fn block(lines: Seq<Seq<char>>, sep: Seq<char>, all: bool, k: nat) -> Seq<char>
    decreases k,
{
    if k == 0 {
        Seq::empty()
    } else {
        block(lines, sep, all, (k - 1) as nat) + lines[k - 1] + if all || k == lines.len() {
            sep
        } else {
            Seq::empty()
        }
    }
}

/// A whole grid: a separator, the heading line `head`, a separator, then one
/// line per element of `body`, separated as [`block`] says.
pub open spec fn grid(ws: Seq<nat>, head: Seq<Seq<char>>, body: Seq<Seq<Seq<char>>>, all: bool) -> Seq<char> {
    let sep = rule(ws);
    sep + line(head, ws) + sep + block(
        Seq::new(body.len(), |k: int| line(body[k], ws)),
        sep,
        all,
        body.len(),
    )
}

/// The widths of `widths` as natural numbers.
pub open spec fn nats(widths: Seq<usize>) -> Seq<nat> {
    widths.map_values(|w: usize| w as nat)
}

/// The number of characters of the longest of `ss`, 0 when there is none.
pub fn longest(ss: &Vec<String>) -> (m: usize)
    ensures
        m == max_len(ss.deep_view()),
{
    let ghost v = ss.deep_view();
    let mut m: usize = 0;
    let mut i: usize = 0;
    while i < ss.len()
        invariant
            i <= ss.len(),
            v == ss.deep_view(),
            m == max_len(v.take(i as int)),
        decreases ss.len() - i,
    {
        let len = ss[i].as_str().unicode_len();
        if m < len {
            m = len;
        }
        proof {
            let t = v.take(i + 1);
            assert(t.drop_last() =~= v.take(i as int));
        }
        i = i + 1;
    }
    assert(v.take(ss.len() as int) =~= v);
    m
}

/// Appends `n` copies of the one character of `unit`.
fn push_run(out: &mut String, unit: &str, n: usize)
    requires
        unit@.len() == 1,
    ensures
        final(out)@ == old(out)@ + run(unit@[0], n as nat),
{
    let ghost start = out@;
    let mut i: usize = 0;
    while i < n
        invariant
            i <= n,
            unit@.len() == 1,
            out@ == start + run(unit@[0], i as nat),
        decreases n - i,
    {
        out.append(unit);
        i = i + 1;
        assert(out@ =~= start + run(unit@[0], i as nat));
    }
}

/// Appends `s` centred in `w + 2` characters, then `|`.
fn push_cell(out: &mut String, s: &String, w: usize)
    ensures
        final(out)@ == old(out)@ + center(s@, (w + 2) as nat) + seq!['|'],
{
    proof {
        reveal_strlit(" ");
        reveal_strlit("|");
    }
    let ghost start = out@;
    let len = s.as_str().unicode_len();
    if len <= w {
        let d = w - len;
        out.append(" ");
        push_run(out, " ", d / 2);
        out.append(s.as_str());
        push_run(out, " ", d - d / 2);
        out.append(" ");
        assert(run(' ', 1) + run(' ', (d / 2) as nat) =~= run(' ', (d / 2 + 1) as nat));
        assert(run(' ', (d - d / 2) as nat) + run(' ', 1) =~= run(' ', (d - d / 2 + 1) as nat));
    } else if len - w == 1 {
        out.append(s.as_str());
        out.append(" ");
        assert(run(' ', 0) + s@ + run(' ', 1) =~= s@ + seq![' ']);
    } else {
        out.append(s.as_str());
        assert(run(' ', 0) + s@ + run(' ', 0) =~= s@);
    }
    out.append("|");
    assert(out@ =~= start + center(s@, (w + 2) as nat) + seq!['|']);
}

/// Appends a separator line for the content widths `widths`.
fn push_rule(out: &mut String, widths: &Vec<usize>)
    ensures
        final(out)@ == old(out)@ + rule(nats(widths@)),
{
    proof {
        reveal_strlit("+");
        reveal_strlit("\n");
    }
    let ghost start = out@;
    let ghost ws = nats(widths@);
    out.append("+");
    let mut i: usize = 0;
    while i < widths.len()
        invariant
            i <= widths.len(),
            ws == nats(widths@),
            out@ == start + seq!['+'] + rule_cells(ws.take(i as int)),
        decreases widths.len() - i,
    {
        proof {
            reveal_strlit("+");
            reveal_strlit("-");
            reveal_strlit("--");
        }
        push_run(out, "-", widths[i]);
        out.append("--");
        out.append("+");
        proof {
            let t = ws.take(i + 1);
            assert(t.drop_last() =~= ws.take(i as int));
            assert(run('-', widths[i as int] as nat) + seq!['-', '-'] =~= run('-', t.last() + 2));
        }
        i = i + 1;
        assert(out@ =~= start + seq!['+'] + rule_cells(ws.take(i as int)));
    }
    assert(ws.take(widths.len() as int) =~= ws);
    out.append("\n");
    assert(out@ =~= start + rule(ws));
}

/// Appends a content line holding `cells` in columns of content widths
/// `widths`.
fn push_line(out: &mut String, cells: &Vec<String>, widths: &Vec<usize>)
    requires
        cells.len() <= widths.len(),
    ensures
        final(out)@ == old(out)@ + line(cells.deep_view(), nats(widths@)),
{
    proof {
        reveal_strlit("|");
        reveal_strlit("\n");
    }
    let ghost start = out@;
    let ghost ws = nats(widths@);
    let ghost cs = cells.deep_view();
    out.append("|");
    let mut i: usize = 0;
    while i < cells.len()
        invariant
            i <= cells.len() <= widths.len(),
            ws == nats(widths@),
            cs == cells.deep_view(),
            out@ == start + seq!['|'] + line_cells(cs.take(i as int), ws),
        decreases cells.len() - i,
    {
        push_cell(out, &cells[i], widths[i]);
        proof {
            let t = cs.take(i + 1);
            assert(t.drop_last() =~= cs.take(i as int));
            assert(t.last() == cells[i as int]@);
        }
        i = i + 1;
        assert(out@ =~= start + seq!['|'] + line_cells(cs.take(i as int), ws));
    }
    assert(cs.take(cells.len() as int) =~= cs);
    out.append("\n");
    assert(out@ =~= start + line(cs, ws));
}

/// Draws a grid with content widths `widths`, the heading cells `head` and
/// one line of cells per element of `body`. With `all`, a separator follows
/// every line of `body`; without it, only the last.
pub fn render_grid(widths: &Vec<usize>, head: &Vec<String>, body: &Vec<Vec<String>>, all: bool) -> (r: String)
    requires
        head.len() <= widths.len(),
        forall|k: int| 0 <= k < body.len() ==> #[trigger] body[k].len() <= widths.len(),
    ensures
        r@ == grid(nats(widths@), head.deep_view(), body.deep_view(), all),
{
    let ghost ws = nats(widths@);
    let ghost bs = body.deep_view();
    let ghost lines = Seq::new(bs.len(), |k: int| line(bs[k], ws));
    let mut sep = String::new();
    push_rule(&mut sep, widths);
    let mut out = String::new();
    out.append(sep.as_str());
    push_line(&mut out, head, widths);
    out.append(sep.as_str());
    let ghost top = out@;
    assert(top =~= rule(ws) + line(head.deep_view(), ws) + rule(ws));
    let mut k: usize = 0;
    while k < body.len()
        invariant
            k <= body.len(),
            forall|j: int| 0 <= j < body.len() ==> #[trigger] body[j].len() <= widths.len(),
            ws == nats(widths@),
            bs == body.deep_view(),
            lines == Seq::new(bs.len(), |k: int| line(bs[k], ws)),
            sep@ == rule(ws),
            out@ == top + block(lines, sep@, all, k as nat),
        decreases body.len() - k,
    {
        push_line(&mut out, &body[k], widths);
        assert(body[k as int].deep_view() == bs[k as int]);
        if all || k + 1 == body.len() {
            out.append(sep.as_str());
        }
        k = k + 1;
        assert(out@ =~= top + block(lines, sep@, all, k as nat));
    }
    out
}

} // verus!
