use std::collections::{HashMap, HashSet};

use vstd::prelude::*;

verus! {

/// The id of a thread or a process.
pub type Pid = i32;

/// The CPU time that a thread has used, in clock ticks.
#[derive(Debug, Copy, Clone, PartialEq, Eq, Structural)]
pub struct ThreadStat {
    pub s_time: i64,
    pub u_time: i64,
}

impl ThreadStat {
    /// The ticks spent in the kernel and in user space, together.
    pub open spec fn spec_total_ticks(self) -> int {
        self.s_time + self.u_time
    }

    pub fn total_ticks(&self) -> (t: i128)
        ensures
            t == self.spec_total_ticks(),
    {
        self.s_time as i128 + self.u_time as i128
    }
}

impl Default for ThreadStat {
    fn default() -> (s: Self)
        ensures
            s == (ThreadStat { s_time: 0, u_time: 0 }),
    {
        ThreadStat { s_time: 0, u_time: 0 }
    }
}

/// What was read of the process's threads at one tick: the clock ticks per
/// second, the CPU time of each thread that could be read, and the ids of the
/// live threads, when they could be listed.
pub struct ThreadSample {
    pub ticks_per_second: u64,
    pub stats: HashMap<Pid, ThreadStat>,
    pub alive: Option<HashSet<Pid>>,
}

impl ThreadSample {
    /// A sample in which nothing could be read.
    pub fn empty(ticks_per_second: u64) -> (s: Self)
        ensures
            s.ticks_per_second == ticks_per_second,
            s.stats@ == Map::<Pid, ThreadStat>::empty(),
            s.alive is None,
    {
        ThreadSample { ticks_per_second, stats: HashMap::new(), alive: None }
    }
}

/// Whether `b` separates the fields of a stat line: a space, tab, line feed
/// or carriage return.
pub open spec fn is_blank(b: u8) -> bool {
    b == 32 || b == 9 || b == 10 || b == 13
}

/// The position of the last `)` among the first `n` bytes of `s`, or -1.
pub open spec fn last_close_paren(s: Seq<u8>, n: int) -> int
    decreases n,
{
    if n <= 0 {
        -1
    } else if s[n - 1] == 41 {
        n - 1
    } else {
        last_close_paren(s, n - 1)
    }
}

/// The first position at or after `i` that is not blank (or the end).
pub open spec fn skip_blanks(s: Seq<u8>, i: int) -> int
    decreases s.len() - i,
{
    if 0 <= i < s.len() && is_blank(s[i]) {
        skip_blanks(s, i + 1)
    } else {
        i
    }
}

/// The first position at or after `i` that is blank (or the end).
pub open spec fn field_end(s: Seq<u8>, i: int) -> int
    decreases s.len() - i,
{
    if 0 <= i < s.len() && !is_blank(s[i]) {
        field_end(s, i + 1)
    } else {
        i
    }
}

/// Where the `n`-th blank-separated field at or after `i` (counting from 0)
/// begins and ends; empty when there is no such field.
pub open spec fn nth_field(s: Seq<u8>, i: int, n: nat) -> (int, int)
    decreases n,
{
    let b = skip_blanks(s, i);
    if n == 0 {
        (b, field_end(s, b))
    } else {
        nth_field(s, field_end(s, b), (n - 1) as nat)
    }
}

/// The value of a sequence of decimal digits.
pub open spec fn digits_value(t: Seq<u8>) -> int
    decreases t.len(),
{
    if t.len() == 0 {
        0
    } else {
        digits_value(t.drop_last()) * 10 + (t.last() - 48)
    }
}

/// Whether every byte of `t` is a decimal digit.
pub open spec fn all_digits(t: Seq<u8>) -> bool {
    forall|k: int| 0 <= k < t.len() ==> 48 <= #[trigger] t[k] <= 57
}

/// The number that the bytes from `b` to `e` of `s` spell: some when they are
/// one or more decimal digits whose value fits in an `i64`.
pub open spec fn spec_parse_count(s: Seq<u8>, b: int, e: int) -> Option<i64> {
    let t = s.subrange(b, e);
    if b < e && all_digits(t) && digits_value(t) <= i64::MAX {
        Some(digits_value(t) as i64)
    } else {
        None
    }
}

/// What a thread's stat line (`/proc/<pid>/task/<tid>/stat`) says of its CPU
/// time. The thread's name, in parentheses, may hold blanks, so the fields
/// are counted after the last `)`: the third field of the line is the first
/// after it, and user time (the fourteenth) and system time (the fifteenth)
/// are the twelfth and the thirteenth after it.
pub open spec fn spec_parse_thread_stat(s: Seq<u8>) -> Option<ThreadStat> {
    let p = last_close_paren(s, s.len() as int);
    if p < 0 {
        None
    } else {
        let (ub, ue) = nth_field(s, p + 1, 11);
        let (sb, se) = nth_field(s, p + 1, 12);
        match (spec_parse_count(s, ub, ue), spec_parse_count(s, sb, se)) {
            (Some(u), Some(st)) => Some(ThreadStat { s_time: st, u_time: u }),
            _ => None,
        }
    }
}

proof fn lemma_skip_blanks_bounds(s: Seq<u8>, i: int)
    requires
        0 <= i <= s.len(),
    ensures
        i <= skip_blanks(s, i) <= s.len(),
    decreases s.len() - i,
{
    if i < s.len() && is_blank(s[i]) {
        lemma_skip_blanks_bounds(s, i + 1);
    }
}

proof fn lemma_field_end_bounds(s: Seq<u8>, i: int)
    requires
        0 <= i <= s.len(),
    ensures
        i <= field_end(s, i) <= s.len(),
    decreases s.len() - i,
{
    if i < s.len() && !is_blank(s[i]) {
        lemma_field_end_bounds(s, i + 1);
    }
}

proof fn lemma_nth_field_bounds(s: Seq<u8>, i: int, n: nat)
    requires
        0 <= i <= s.len(),
    ensures
        i <= nth_field(s, i, n).0 <= nth_field(s, i, n).1 <= s.len(),
    decreases n,
{
    lemma_skip_blanks_bounds(s, i);
    let b = skip_blanks(s, i);
    lemma_field_end_bounds(s, b);
    if n > 0 {
        lemma_nth_field_bounds(s, field_end(s, b), (n - 1) as nat);
    }
}

fn last_close_paren_exec(s: &[u8]) -> (r: Option<usize>)
    ensures
        match r {
            Some(p) => p == last_close_paren(s@, s@.len() as int),
            None => last_close_paren(s@, s@.len() as int) < 0,
        },
{
    let mut n: usize = s.len();
    while n > 0
        invariant
            n <= s@.len(),
            last_close_paren(s@, s@.len() as int) == last_close_paren(s@, n as int),
        decreases n,
    {
        if s[n - 1] == 41u8 {
            return Some(n - 1);
        }
        n = n - 1;
    }
    None
}

fn is_blank_exec(b: u8) -> (r: bool)
    ensures
        r == is_blank(b),
{
    b == 32u8 || b == 9u8 || b == 10u8 || b == 13u8
}

fn skip_blanks_exec(s: &[u8], i: usize) -> (r: usize)
    requires
        i <= s@.len(),
    ensures
        r == skip_blanks(s@, i as int),
{
    let mut j: usize = i;
    while j < s.len() && is_blank_exec(s[j])
        invariant
            i <= j <= s@.len(),
            skip_blanks(s@, i as int) == skip_blanks(s@, j as int),
        decreases s@.len() - j,
    {
        j = j + 1;
    }
    j
}

fn field_end_exec(s: &[u8], i: usize) -> (r: usize)
    requires
        i <= s@.len(),
    ensures
        r == field_end(s@, i as int),
{
    let mut j: usize = i;
    while j < s.len() && !is_blank_exec(s[j])
        invariant
            i <= j <= s@.len(),
            field_end(s@, i as int) == field_end(s@, j as int),
        decreases s@.len() - j,
    {
        j = j + 1;
    }
    j
}

fn nth_field_exec(s: &[u8], i: usize, n: usize) -> (r: (usize, usize))
    requires
        i <= s@.len(),
    ensures
        r.0 == nth_field(s@, i as int, n as nat).0,
        r.1 == nth_field(s@, i as int, n as nat).1,
{
    let mut from: usize = i;
    let mut left: usize = n;
    while left > 0
        invariant
            from <= s@.len(),
            nth_field(s@, i as int, n as nat) == nth_field(s@, from as int, left as nat),
        decreases left,
    {
        let b = skip_blanks_exec(s, from);
        proof {
            lemma_skip_blanks_bounds(s@, from as int);
            lemma_field_end_bounds(s@, b as int);
        }
        from = field_end_exec(s, b);
        left = left - 1;
    }
    let b = skip_blanks_exec(s, from);
    proof {
        lemma_skip_blanks_bounds(s@, from as int);
    }
    (b, field_end_exec(s, b))
}

/// The value of a digit sequence, held at `CAP` once it reaches it.
spec fn capped(v: int) -> int {
    if v >= 0x8000_0000_0000_0000 {
        0x8000_0000_0000_0000
    } else {
        v
    }
}

proof fn lemma_digits_value_nonneg(t: Seq<u8>)
    requires
        all_digits(t),
    ensures
        digits_value(t) >= 0,
    decreases t.len(),
{
    if t.len() > 0 {
        assert(all_digits(t.drop_last())) by {
            assert forall|k: int| 0 <= k < t.drop_last().len() implies 48 <= #[trigger] t.drop_last()[k] <= 57 by {
                assert(t.drop_last()[k] == t[k]);
            }
        }
        lemma_digits_value_nonneg(t.drop_last());
        assert(48 <= t[t.len() - 1] <= 57);
    }
}

fn parse_count_exec(s: &[u8], b: usize, e: usize) -> (r: Option<i64>)
    requires
        b <= e <= s@.len(),
    ensures
        r == spec_parse_count(s@, b as int, e as int),
{
    if b == e {
        return None;
    }
    let mut acc: u128 = 0;
    let mut k: usize = b;
    while k < e
        invariant
            b <= k <= e <= s@.len(),
            all_digits(s@.subrange(b as int, k as int)),
            acc == capped(digits_value(s@.subrange(b as int, k as int))),
            digits_value(s@.subrange(b as int, k as int)) >= 0,
        decreases e - k,
    {
        let d = s[k];
        if d < 48u8 || d > 57u8 {
            proof {
                let t = s@.subrange(b as int, e as int);
                assert(t[k - b] == d);
                assert(!all_digits(t));
            }
            return None;
        }
        let ghost prev = s@.subrange(b as int, k as int);
        let ghost next = s@.subrange(b as int, k + 1);
        assert(next.drop_last() =~= prev);
        assert(next.last() == d);
        assert(all_digits(next)) by {
            assert forall|j: int| 0 <= j < next.len() implies 48 <= #[trigger] next[j] <= 57 by {
                if j < prev.len() {
                    assert(next[j] == prev[j]);
                }
            }
        }
        let ghost v = digits_value(prev);
        assert(digits_value(next) == v * 10 + (d - 48));
        if acc >= 0x8000_0000_0000_0000u128 {
            assert(v >= 0x8000_0000_0000_0000);
            assert(v * 10 >= 0x8000_0000_0000_0000) by (nonlinear_arith)
                requires
                    v >= 0x8000_0000_0000_0000,
            ;
        } else {
            assert(acc == v);
            let n: u128 = acc * 10 + (d - 48u8) as u128;
            if n >= 0x8000_0000_0000_0000u128 {
                acc = 0x8000_0000_0000_0000u128;
            } else {
                acc = n;
            }
        }
        k = k + 1;
    }
    assert(s@.subrange(b as int, e as int) == s@.subrange(b as int, k as int));
    if acc > 0x7fff_ffff_ffff_ffffu128 {
        None
    } else {
        Some(acc as i64)
    }
}

/// Reads a thread's CPU time from its stat line, as `spec_parse_thread_stat`
/// says.
pub fn parse_thread_stat(s: &[u8]) -> (r: Option<ThreadStat>)
    ensures
        r == spec_parse_thread_stat(s@),
{
    let p = match last_close_paren_exec(s) {
        Some(p) => p,
        None => {
            return None;
        },
    };
    proof {
        assert(p < s@.len()) by {
            lemma_last_close_paren_bounds(s@, s@.len() as int);
        }
        lemma_nth_field_bounds(s@, p + 1, 11);
        lemma_nth_field_bounds(s@, p + 1, 12);
    }
    let len = s.len();
    assert(p < len);
    let start = p + 1;
    let (ub, ue) = nth_field_exec(s, start, 11);
    let (sb, se) = nth_field_exec(s, start, 12);
    match (parse_count_exec(s, ub, ue), parse_count_exec(s, sb, se)) {
        (Some(u), Some(st)) => Some(ThreadStat { s_time: st, u_time: u }),
        _ => None,
    }
}

proof fn lemma_last_close_paren_bounds(s: Seq<u8>, n: int)
    requires
        0 <= n <= s.len(),
    ensures
        last_close_paren(s, n) < n,
        last_close_paren(s, n) >= -1,
    decreases n,
{
    if n > 0 && s[n - 1] != 41 {
        lemma_last_close_paren_bounds(s, n - 1);
    }
}

} // verus!
