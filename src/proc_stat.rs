//! The iowait column of the kernel's CPU statistics text: lines keyed by a
//! leading "cpu", whitespace-separated fields, iowait the sixth field.
use vstd::prelude::*;

verus! {

/// ASCII whitespace: space, tab, newline, vertical tab, form feed, carriage return.
pub open spec fn is_space(b: u8) -> bool {
    b == 32 || (9 <= b && b <= 13)
}

/// An ASCII decimal digit.
pub open spec fn is_digit(b: u8) -> bool {
    48 <= b && b <= 57
}

/// The pieces of `s` between newlines (one more piece than there are newlines).
pub open spec fn split_lines(s: Seq<u8>) -> Seq<Seq<u8>>
    decreases s.len(),
{
    if s.len() == 0 {
        seq![Seq::empty()]
    } else {
        let init = split_lines(s.drop_last());
        if s.last() == 10 {
            init.push(Seq::empty())
        } else {
            init.update(init.len() - 1, init.last().push(s.last()))
        }
    }
}

/// The maximal runs of non-whitespace bytes of `s`, in order.
pub open spec fn fields(s: Seq<u8>) -> Seq<Seq<u8>>
    decreases s.len(),
{
    if s.len() == 0 {
        Seq::empty()
    } else {
        let init = fields(s.drop_last());
        if is_space(s.last()) {
            init
        } else if s.len() >= 2 && !is_space(s[s.len() - 2]) {
            init.update(init.len() - 1, init.last().push(s.last()))
        } else {
            init.push(seq![s.last()])
        }
    }
}

/// The value of a run of decimal digits.
pub open spec fn digits_value(f: Seq<u8>) -> nat
    decreases f.len(),
{
    if f.len() == 0 {
        0
    } else {
        digits_value(f.drop_last()) * 10 + (f.last() - 48) as nat
    }
}

/// Whether a field is a counter: one or more digits, with a value that fits in 64 bits.
pub open spec fn is_counter(f: Seq<u8>) -> bool {
    f.len() > 0 && (forall|i: int| 0 <= i < f.len() ==> is_digit(#[trigger] f[i])) && digits_value(f)
        <= u64::MAX
}

/// A line that starts with "cpu".
pub open spec fn is_cpu_line(line: Seq<u8>) -> bool {
    line.len() >= 3 && line[0] == 99 && line[1] == 112 && line[2] == 117
}

/// What one line contributes: nothing unless it is a CPU line; the value of its
/// sixth field when that is a counter; an error otherwise.
pub open spec fn line_iowait(line: Seq<u8>) -> Result<Option<nat>, ()> {
    if !is_cpu_line(line) {
        Ok(None)
    } else if fields(line).len() > 5 && is_counter(fields(line)[5]) {
        Ok(Some(digits_value(fields(line)[5])))
    } else {
        Err(())
    }
}

/// The iowait values of all CPU lines, or an error if one cannot be read.
pub open spec fn iowait_values(lines: Seq<Seq<u8>>) -> Result<Seq<nat>, ()>
    decreases lines.len(),
{
    if lines.len() == 0 {
        Ok(Seq::empty())
    } else {
        match iowait_values(lines.drop_last()) {
            Err(()) => Err(()),
            Ok(vs) => match line_iowait(lines.last()) {
                Err(()) => Err(()),
                Ok(None) => Ok(vs),
                Ok(Some(v)) => Ok(vs.push(v)),
            },
        }
    }
}

/// Sum of a sequence.
pub open spec fn sum_nat(vs: Seq<nat>) -> nat
    decreases vs.len(),
{
    if vs.len() == 0 {
        0
    } else {
        sum_nat(vs.drop_last()) + vs.last()
    }
}

/// Mean iowait over the CPU lines of `text`, in thousandths, or an error when
/// there is no CPU line or a CPU line has no readable iowait field.
pub open spec fn mean_iowait_milli(text: Seq<u8>) -> Result<nat, ()> {
    match iowait_values(split_lines(text)) {
        Err(()) => Err(()),
        Ok(vs) => if vs.len() == 0 {
            Err(())
        } else {
            Ok(sum_nat(vs) * 1000 / vs.len())
        },
    }
}

proof fn lemma_fields_nonempty(s: Seq<u8>)
    requires
        s.len() > 0,
        !is_space(s.last()),
    ensures
        fields(s).len() >= 1,
    decreases s.len(),
{
    if s.len() >= 2 && !is_space(s[s.len() - 2]) {
        assert(s.drop_last().last() == s[s.len() - 2]);
        lemma_fields_nonempty(s.drop_last());
    }
}

/// `sum * 1000 / count`, computed without overflow.
fn milli_mean(sum: u128, count: u128) -> (r: u128)
    requires
        0 < count <= u64::MAX as u128 + 1,
        sum <= count * (u64::MAX as u128),
    ensures
        r as int == sum as int * 1000 / count as int,
{
    let q = sum / count;
    let rem = sum % count;
    proof {
        assert(q as int <= u64::MAX as int) by (nonlinear_arith)
            requires q as int == sum as int / count as int, sum as int <= count as int * (u64::MAX as int), count > 0;
        assert(rem < count);
        assert(sum as int * 1000 / count as int == q as int * 1000 + rem as int * 1000 / count as int) by (nonlinear_arith)
            requires q as int == sum as int / count as int, rem as int == sum as int % count as int, count > 0;
    }
    q * 1000 + rem * 1000 / count
}

/// Reads a run of digits `s[start..end]` as a 64-bit counter.
fn parse_counter(s: &[u8], start: usize, end: usize) -> (r: Option<u64>)
    requires
        start <= end <= s@.len(),
    ensures
        r is Some <==> is_counter(s@.subrange(start as int, end as int)),
        r is Some ==> r->Some_0 == digits_value(s@.subrange(start as int, end as int)),
{
    let ghost f = s@.subrange(start as int, end as int);
    if start == end {
        return None;
    }
    let mut v: u64 = 0;
    let mut k: usize = start;
    while k < end
        invariant
            start <= k <= end <= s@.len(),
            f == s@.subrange(start as int, end as int),
            forall|i: int| start <= i < k ==> is_digit(#[trigger] s@[i]),
            v == digits_value(s@.subrange(start as int, k as int)),
        decreases end - k,
    {
        let b = s[k];
        let ghost next = s@.subrange(start as int, k + 1);
        proof {
            assert(next.drop_last() =~= s@.subrange(start as int, k as int));
        }
        if !(48 <= b && b <= 57) {
            proof {
                assert(!is_digit(f[k - start]));
            }
            return None;
        }
        let d = (b - 48) as u64;
        if v > (u64::MAX - d) / 10 {
            proof {
                assert(f.subrange(0, k - start + 1) =~= next);
                assert forall|i: int| 0 <= i <= k - start implies is_digit(#[trigger] f[i]) by {
                    assert(f[i] == s@[start + i]);
                }
                lemma_digits_grow(f, k - start);
                assert(digits_value(next) == v * 10 + d);
                assert(v * 10 + d > u64::MAX) by (nonlinear_arith)
                    requires v > (u64::MAX - d) / 10, d <= 9;
            }
            return None;
        }
        v = v * 10 + d;
        k = k + 1;
    }
    proof {
        assert(s@.subrange(start as int, k as int) =~= f);
        assert forall|i: int| 0 <= i < f.len() implies is_digit(#[trigger] f[i]) by {
            assert(f[i] == s@[start + i]);
        }
    }
    Some(v)
}

/// Once a prefix of digits exceeds a bound, every longer prefix does too.
proof fn lemma_digits_grow(f: Seq<u8>, n: int)
    requires
        0 <= n < f.len(),
        forall|i: int| 0 <= i <= n ==> is_digit(#[trigger] f[i]),
    ensures
        digits_value(f) >= digits_value(f.subrange(0, n + 1)) || exists|i: int| n < i < f.len() && !is_digit(
            #[trigger] f[i],
        ),
    decreases f.len(),
{
    if f.len() == n + 1 {
        assert(f.subrange(0, n + 1) =~= f);
    } else if is_digit(f.last()) {
        let g = f.drop_last();
        assert(g.subrange(0, n + 1) =~= f.subrange(0, n + 1));
        lemma_digits_grow(g, n);
        if exists|i: int| n < i < g.len() && !is_digit(#[trigger] g[i]) {
            let i = choose|i: int| n < i < g.len() && !is_digit(#[trigger] g[i]);
            assert(!is_digit(f[i]));
        }
    } else {
        assert(!is_digit(f[f.len() - 1]));
    }
}

/// Reads the sixth field of the line `s[start..end]` if that is a CPU line.
fn read_line(s: &[u8], start: usize, end: usize) -> (r: Result<Option<u64>, ()>)
    requires
        start <= end <= s@.len(),
    ensures
        match line_iowait(s@.subrange(start as int, end as int)) {
            Err(()) => r is Err,
            Ok(None) => r == Ok::<Option<u64>, ()>(None),
            Ok(Some(v)) => r is Ok && r->Ok_0 is Some && r->Ok_0->Some_0 == v,
        },
{
    let ghost line = s@.subrange(start as int, end as int);
    if !(end - start >= 3 && s[start] == 99 && s[start + 1] == 112 && s[start + 2] == 117) {
        return Ok(None);
    }
    let mut k: usize = start;
    let mut count: usize = 0;
    let mut f_start: usize = start;
    let mut f_end: usize = start;
    while k < end
        invariant
            start <= k <= end <= s@.len(),
            line == s@.subrange(start as int, end as int),
            count == fields(s@.subrange(start as int, k as int)).len(),
            count <= k - start,
            count > 5 ==> start <= f_start <= f_end <= k && fields(s@.subrange(start as int, k as int))[5]
                == s@.subrange(f_start as int, f_end as int),
            count == 6 && k > start && !is_space(s@[k - 1]) ==> f_end == k,
        decreases end - k,
    {
        let b = s[k];
        let ghost pre = s@.subrange(start as int, k as int);
        let ghost next = s@.subrange(start as int, k + 1);
        proof {
            assert(next.drop_last() =~= pre);
            assert(next.last() == b);
        }
        if b == 32 || (9 <= b && b <= 13) {
        } else if k > start && !(s[k - 1] == 32 || (9 <= s[k - 1] && s[k - 1] <= 13)) {
            proof {
                assert(next[next.len() - 2] == s@[k - 1]);
                assert(pre.last() == s@[k - 1]);
                lemma_fields_nonempty(pre);
            }
            if count == 6 {
                proof {
                    assert(s@.subrange(f_start as int, k + 1) =~= s@.subrange(f_start as int, k as int).push(b));
                }
                f_end = k + 1;
            }
        } else {
            proof {
                if k > start {
                    assert(next[next.len() - 2] == s@[k - 1]);
                }
            }
            if count == 5 {
                f_start = k;
                f_end = k + 1;
                proof {
                    assert(s@.subrange(k as int, k + 1) =~= seq![b]);
                }
            }
            count = count + 1;
        }
        k = k + 1;
    }
    proof {
        assert(s@.subrange(start as int, k as int) == line);
    }
    if count > 5 {
        match parse_counter(s, f_start, f_end) {
            Some(v) => Ok(Some(v)),
            None => Err(()),
        }
    } else {
        Err(())
    }
}

/// Mean iowait over the CPU lines of the kernel statistics text, in thousandths.
pub fn mean_iowait(text: &[u8]) -> (r: Result<u128, ()>)
    ensures
        match mean_iowait_milli(text@) {
            Err(()) => r is Err,
            Ok(m) => r is Ok && r->Ok_0 == m,
        },
{
    let n = text.len();
    let mut ls: usize = 0;
    let mut k: usize = 0;
    let mut sum: u128 = 0;
    let mut cnt: u64 = 0;
    let ghost mut done: Seq<Seq<u8>> = Seq::empty();
    let ghost mut vals: Seq<nat> = Seq::empty();
    proof {
        assert(text@.subrange(0, 0) =~= Seq::<u8>::empty());
        assert(done.push(text@.subrange(0, 0)) =~= seq![Seq::<u8>::empty()]);
    }
    while k < n
        invariant
            n == text@.len(),
            ls <= k <= n,
            split_lines(text@.subrange(0, k as int)) == done.push(text@.subrange(ls as int, k as int)),
            iowait_values(done) == Ok::<Seq<nat>, ()>(vals),
            sum == sum_nat(vals),
            cnt == vals.len(),
            cnt <= k,
            sum <= cnt * (u64::MAX as nat),
        decreases n - k,
    {
        let ghost pre = text@.subrange(0, k as int);
        let ghost next = text@.subrange(0, k + 1);
        proof {
            assert(next.drop_last() =~= pre);
            assert(next.last() == text@[k as int]);
        }
        if text[k] == 10 {
            let ghost line = text@.subrange(ls as int, k as int);
            let got = read_line(text, ls, k);
            proof {
                assert(done.push(line).drop_last() =~= done);
                assert(done.push(line).last() == line);
            }
            match got {
                Err(()) => {
                    proof {
                        lemma_values_err_sticky(text@, done.push(line), k + 1);
                    }
                    return Err(());
                },
                Ok(None) => {},
                Ok(Some(v)) => {
                    proof {
                        assert(vals.push(v as nat).drop_last() =~= vals);
                    }
                    sum = sum + v as u128;
                    cnt = cnt + 1;
                    proof {
                        vals = vals.push(v as nat);
                    }
                },
            }
            proof {
                done = done.push(line);
                assert(text@.subrange(k + 1, k + 1) =~= Seq::<u8>::empty());
            }
            ls = k + 1;
        } else {
            proof {
                assert(text@.subrange(ls as int, k + 1) =~= text@.subrange(ls as int, k as int).push(text@[k as int]));
                assert(done.push(text@.subrange(ls as int, k as int)).update(done.len() as int, text@.subrange(ls as int, k + 1))
                    =~= done.push(text@.subrange(ls as int, k + 1)));
            }
        }
        k = k + 1;
    }
    let ghost last_line = text@.subrange(ls as int, n as int);
    let got = read_line(text, ls, n);
    proof {
        assert(text@.subrange(0, n as int) =~= text@);
        assert(done.push(last_line).drop_last() =~= done);
    }
    match got {
        Err(()) => Err(()),
        Ok(None) => {
            if cnt == 0 {
                Err(())
            } else {
                Ok(milli_mean(sum, cnt as u128))
            }
        },
        Ok(Some(v)) => {
            proof {
                assert(vals.push(v as nat).drop_last() =~= vals);
            }
            let total = sum + v as u128;
            let c = cnt as u128 + 1;
            Ok(milli_mean(total, c))
        },
    }
}

/// The complete lines of a prefix stay the first lines of every longer prefix.
proof fn lemma_split_prefix(text: Seq<u8>, k: int, j: int)
    requires
        0 <= k <= j <= text.len(),
    ensures
        split_lines(text.subrange(0, k)).len() <= split_lines(text.subrange(0, j)).len(),
        split_lines(text.subrange(0, j)).subrange(0, split_lines(text.subrange(0, k)).len() - 1)
            == split_lines(text.subrange(0, k)).drop_last(),
    decreases j - k,
{
    lemma_split_nonempty(text.subrange(0, k));
    if j > k {
        lemma_split_prefix(text, k, j - 1);
        let pre = text.subrange(0, j - 1);
        let cur = text.subrange(0, j);
        assert(cur.drop_last() =~= pre);
        lemma_split_nonempty(pre);
        let m = split_lines(text.subrange(0, k)).len() - 1;
        assert(split_lines(cur).subrange(0, m) =~= split_lines(pre).subrange(0, m));
    } else {
        assert(split_lines(text.subrange(0, j)).subrange(0, split_lines(text.subrange(0, k)).len() - 1)
            =~= split_lines(text.subrange(0, k)).drop_last());
    }
}

proof fn lemma_split_nonempty(s: Seq<u8>)
    ensures
        split_lines(s).len() >= 1,
    decreases s.len(),
{
    if s.len() > 0 {
        lemma_split_nonempty(s.drop_last());
    }
}

/// An error in some line stays an error whatever lines follow.
proof fn lemma_values_err_prefix(p: Seq<Seq<u8>>, q: Seq<Seq<u8>>)
    requires
        iowait_values(p) is Err,
        p.len() <= q.len(),
        q.subrange(0, p.len() as int) == p,
    ensures
        iowait_values(q) is Err,
    decreases q.len(),
{
    if q.len() == p.len() {
        assert(q =~= p);
    } else {
        assert(q.drop_last().subrange(0, p.len() as int) =~= p);
        lemma_values_err_prefix(p, q.drop_last());
    }
}

/// An error in a complete line makes the whole text unreadable.
proof fn lemma_values_err_sticky(text: Seq<u8>, lines: Seq<Seq<u8>>, k: int)
    requires
        iowait_values(lines) is Err,
        0 < k <= text.len(),
        split_lines(text.subrange(0, k)) == lines.push(Seq::empty()),
    ensures
        mean_iowait_milli(text) is Err,
{
    lemma_split_prefix(text, k, text.len() as int);
    assert(text.subrange(0, text.len() as int) =~= text);
    assert(lines.push(Seq::empty()).drop_last() =~= lines);
    lemma_values_err_prefix(lines, split_lines(text));
}

} // verus!
