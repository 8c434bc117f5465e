//! A verified grammar for textual IP addresses.
//!
//! Validation must decide whether a bind address is syntactically
//! valid without touching the network stack, so the grammar of IPv4
//! dotted-quad literals (and of bracketed IPv6 literals) is stated here as
//! spec functions over character sequences, and the checkers are proved
//! against it.

use vstd::prelude::*;

verus! {

/// Is `c` a decimal digit?
pub open spec fn is_digit(c: char) -> bool {
    48 <= c as u32 <= 57
}

/// The numeric value of a decimal digit.
pub open spec fn digit_val(c: char) -> int {
    c as u32 - 48
}

/// Ten to the `n`-th power.
pub open spec fn pow10(n: nat) -> int
    decreases n,
{
    if n == 0 {
        1
    } else {
        10 * pow10((n - 1) as nat)
    }
}

/// The decimal value of a sequence of digit characters.
pub open spec fn decimal_value(t: Seq<char>) -> int
    decreases t.len(),
{
    if t.len() == 0 {
        0
    } else {
        decimal_value(t.drop_last()) * 10 + digit_val(t.last())
    }
}

/// The pieces of `s` between occurrences of `sep`, scanning from the left
/// with `cur` as the piece read so far.  Splitting the empty string yields
/// one empty piece, as `str::split` does.
pub open spec fn split_go(s: Seq<char>, sep: char, cur: Seq<char>) -> Seq<Seq<char>>
    decreases s.len(),
{
    if s.len() == 0 {
        seq![cur]
    } else if s[0] == sep {
        seq![cur] + split_go(s.skip(1), sep, Seq::empty())
    } else {
        split_go(s.skip(1), sep, cur.push(s[0]))
    }
}

/// The pieces of `s` between occurrences of `sep`.
pub open spec fn split_on(s: Seq<char>, sep: char) -> Seq<Seq<char>> {
    split_go(s, sep, Seq::empty())
}

/// One part of a dotted-quad IPv4 literal: one to three digits, no
/// superfluous leading zero, value at most 255.
pub open spec fn valid_octet(t: Seq<char>) -> bool {
    &&& 1 <= t.len() <= 3
    &&& (forall|i: int| 0 <= i < t.len() ==> is_digit(t[i]))
    &&& (t.len() > 1 ==> t[0] != '0')
    &&& decimal_value(t) <= 255
}

/// A dotted-quad IPv4 literal: four octets separated by dots.
pub open spec fn valid_ipv4(s: Seq<char>) -> bool {
    let parts = split_on(s, '.');
    &&& parts.len() == 4
    &&& (forall|i: int| 0 <= i < 4 ==> valid_octet(parts[i]))
}

/// Is `c` a hexadecimal digit?
pub open spec fn is_hex_digit(c: char) -> bool {
    ||| 48 <= c as u32 <= 57
    ||| 97 <= c as u32 <= 102
    ||| 65 <= c as u32 <= 70
}

/// One group of an IPv6 literal: one to four hexadecimal digits.
pub open spec fn is_h16(t: Seq<char>) -> bool {
    &&& 1 <= t.len() <= 4
    &&& (forall|i: int| 0 <= i < t.len() ==> is_hex_digit(t[i]))
}

/// Are the pieces `lo` to `hi` (exclusive) of `parts` all groups?
pub open spec fn all_h16(parts: Seq<Seq<char>>, lo: int, hi: int) -> bool {
    forall|i: int| lo <= i < hi ==> is_h16(#[trigger] parts[i])
}

/// A well-formed run of groups ending the address: every piece a group,
/// except that the final piece may be an embedded dotted-quad.
pub open spec fn tail_ok(parts: Seq<Seq<char>>, lo: int, hi: int) -> bool {
    &&& lo < hi
    &&& all_h16(parts, lo, hi - 1)
    &&& (is_h16(parts[hi - 1]) || valid_ipv4(parts[hi - 1]))
}

/// How many sixteen-bit groups the run stands for: an embedded dotted-quad
/// counts as two.
pub open spec fn tail_groups(parts: Seq<Seq<char>>, lo: int, hi: int) -> int {
    (hi - 1 - lo) + if valid_ipv4(parts[hi - 1]) {
        2int
    } else {
        1int
    }
}

/// An IPv6 literal, split on colons: either eight groups (the last two of
/// which may stand as one embedded dotted-quad), or a single zero
/// compression `::` standing for the missing groups, at the start, the
/// end, in the middle, or alone.
pub open spec fn valid_ipv6(s: Seq<char>) -> bool {
    let parts = split_on(s, ':');
    let m = parts.len() as int;
    ||| (m == 8 && all_h16(parts, 0, 8))
    ||| (m == 7 && all_h16(parts, 0, 6) && valid_ipv4(parts[6]))
    ||| (m == 3 && parts[0].len() == 0 && parts[1].len() == 0 && parts[2].len() == 0)
    ||| (m >= 3 && parts[0].len() == 0 && parts[1].len() == 0 && tail_ok(parts, 2, m)
        && tail_groups(parts, 2, m) <= 7)
    ||| (m >= 3 && parts[m - 1].len() == 0 && parts[m - 2].len() == 0 && all_h16(parts, 0, m - 2)
        && m - 2 <= 7)
    ||| (exists|i: int|
        1 <= i <= m - 2 && (#[trigger] parts[i]).len() == 0 && all_h16(parts, 0, i) && tail_ok(
            parts,
            i + 1,
            m,
        ) && i + tail_groups(parts, i + 1, m) <= 7)
}

/// Decides `valid_octet` on the characters of `s` between `start` and `end`.
#[verifier::loop_isolation(false)]
fn check_octet(s: &str, start: usize, end: usize) -> (r: bool)
    requires
        start <= end <= s@.len(),
    ensures
        r == valid_octet(s@.subrange(start as int, end as int)),
{
    let ghost t = s@.subrange(start as int, end as int);
    let len = end - start;
    if len < 1 || len > 3 {
        return false;
    }
    let mut j = start;
    while j < end
        invariant
            start <= j <= end <= s@.len(),
            forall|k: int| start <= k < j ==> is_digit(s@[k]),
        decreases end - j,
    {
        let c = s.get_char(j);
        let u = c as u32;
        if u < 48 || u > 57 {
            proof {
                let jj = j as int - start as int;
                assert(0 <= jj < t.len());
                assert(t[jj] == s@[start as int + jj]);
                assert(!is_digit(t[jj]));
            }
            return false;
        }
        j = j + 1;
    }
    assert(forall|i: int| 0 <= i < t.len() ==> t[i] == s@[start + i] && is_digit(t[i]));
    if len > 1 && s.get_char(start) == '0' {
        proof {
            assert(t[0] == s@[start as int]);
        }
        return false;
    }
    let mut val: u32 = 0;
    let mut k = start;
    proof {
        assert(s@.subrange(start as int, start as int) =~= Seq::<char>::empty());
        assert(pow10(0) == 1);
        assert(pow10(1) == 10);
        assert(pow10(2) == 100);
        assert(pow10(3) == 1000);
    }
    while k < end
        invariant
            start <= k <= end <= s@.len(),
            end - start <= 3,
            forall|i: int| start <= i < end ==> is_digit(s@[i]),
            val == decimal_value(s@.subrange(start as int, k as int)),
            val < pow10((k - start) as nat),
            pow10(0) == 1 && pow10(1) == 10 && pow10(2) == 100 && pow10(3) == 1000,
        decreases end - k,
    {
        let c = s.get_char(k);
        let d = (c as u32) - 48;
        proof {
            let pre = s@.subrange(start as int, k as int);
            let post = s@.subrange(start as int, k + 1 as int);
            assert(post.drop_last() =~= pre);
            assert(post.last() == s@[k as int]);
            assert(pow10(((k + 1) - start) as nat) == 10 * pow10((k - start) as nat));
            assert(val < pow10((k - start) as nat) <= 100);
        }
        val = val * 10 + d;
        k = k + 1;
    }
    proof {
        assert(t[0] == s@[start as int]);
        assert(val == decimal_value(t));
    }
    val <= 255
}

/// Decides `valid_ipv4` on `s`.
#[verifier::loop_isolation(false)]
pub fn is_valid_ipv4(s: &str) -> (r: bool)
    ensures
        r == valid_ipv4(s@),
{
    let n = s.unicode_len();
    let mut i: usize = 0;
    let mut tok_start: usize = 0;
    let mut nparts: usize = 0;
    let mut all_ok: bool = true;
    let ghost mut done: Seq<Seq<char>> = Seq::empty();
    proof {
        assert(s@.skip(0) =~= s@);
        assert(s@.subrange(0, 0) =~= Seq::<char>::empty());
        assert(Seq::<Seq<char>>::empty() + split_go(s@, '.', Seq::<char>::empty()) =~= split_go(
            s@,
            '.',
            Seq::<char>::empty(),
        ));
    }
    while i < n
        invariant
            i <= n,
            tok_start <= i,
            n == s@.len(),
            nparts == done.len(),
            nparts <= i,
            split_on(s@, '.') == done + split_go(
                s@.skip(i as int),
                '.',
                s@.subrange(tok_start as int, i as int),
            ),
            all_ok == (forall|j: int| 0 <= j < done.len() ==> valid_octet(done[j])),
        decreases n - i,
    {
        let c = s.get_char(i);
        proof {
            assert(s@.skip(i as int)[0] == s@[i as int]);
            assert(s@.skip(i as int).skip(1) =~= s@.skip(i + 1 as int));
        }
        if c == '.' {
            let ok = check_octet(s, tok_start, i);
            all_ok = all_ok && ok;
            proof {
                let cur = s@.subrange(tok_start as int, i as int);
                let rest = split_go(s@.skip(i + 1 as int), '.', Seq::<char>::empty());
                assert(Seq::<char>::empty() =~= s@.subrange(i + 1 as int, i + 1 as int));
                assert(split_go(s@.skip(i as int), '.', cur) == seq![cur] + rest);
                assert(done + (seq![cur] + rest) =~= done.push(cur) + rest);
                let done2 = done.push(cur);
                assert(forall|j: int| 0 <= j < done.len() ==> done2[j] == done[j]);
                assert(done2[done.len() as int] == cur);
                done = done2;
            }
            nparts = nparts + 1;
            tok_start = i + 1;
        } else {
            proof {
                assert(s@.subrange(tok_start as int, i as int).push(s@[i as int]) =~= s@.subrange(
                    tok_start as int,
                    i + 1 as int,
                ));
            }
        }
        i = i + 1;
    }
    let ok_last = check_octet(s, tok_start, n);
    let r = all_ok && ok_last && nparts == 3;
    proof {
        let last = s@.subrange(tok_start as int, n as int);
        assert(s@.skip(n as int).len() == 0);
        assert(split_go(s@.skip(n as int), '.', last) == seq![last]);
        assert(done + seq![last] =~= done.push(last));
        let parts = split_on(s@, '.');
        assert(parts == done.push(last));
        assert(parts.len() == done.len() + 1);
        assert(forall|j: int| 0 <= j < done.len() ==> parts[j] == done[j]);
        assert(parts[done.len() as int] == last);
        if r {
            assert(forall|j: int| 0 <= j < 4 ==> valid_octet(parts[j]));
            assert(valid_ipv4(s@));
        } else {
            if nparts != 3 {
                assert(parts.len() != 4);
            } else if !ok_last {
                assert(!valid_octet(parts[3]));
            } else {
                let j = choose|j: int| 0 <= j < done.len() && !valid_octet(done[j]);
                assert(!valid_octet(parts[j]));
            }
            assert(!valid_ipv4(s@));
        }
    }
    r
}

/// Do the index pairs point at exactly the pieces of `s` between colons?
spec fn parts_match(s: Seq<char>, parts: Seq<(usize, usize)>) -> bool {
    &&& parts.len() == split_on(s, ':').len()
    &&& (forall|k: int|
        0 <= k < parts.len() ==> 0 <= (#[trigger] parts[k]).0 <= parts[k].1 <= s.len()
            && s.subrange(parts[k].0 as int, parts[k].1 as int) == split_on(s, ':')[k])
}

/// The boundaries of the pieces of `s` between colons: piece `k` of the
/// split runs from `r[k].0` to `r[k].1`.
#[verifier::loop_isolation(false)]
fn colon_parts(s: &str) -> (r: Vec<(usize, usize)>)
    ensures
        parts_match(s@, r@),
{
    let n = s.unicode_len();
    let mut i: usize = 0;
    let mut tok_start: usize = 0;
    let mut parts: Vec<(usize, usize)> = Vec::new();
    let ghost mut done: Seq<Seq<char>> = Seq::empty();
    proof {
        assert(s@.skip(0) =~= s@);
        assert(s@.subrange(0, 0) =~= Seq::<char>::empty());
        assert(Seq::<Seq<char>>::empty() + split_go(s@, ':', Seq::<char>::empty()) =~= split_go(
            s@,
            ':',
            Seq::<char>::empty(),
        ));
    }
    while i < n
        invariant
            i <= n,
            tok_start <= i,
            n == s@.len(),
            parts@.len() == done.len(),
            split_on(s@, ':') == done + split_go(
                s@.skip(i as int),
                ':',
                s@.subrange(tok_start as int, i as int),
            ),
            forall|k: int|
                0 <= k < parts@.len() ==> 0 <= (#[trigger] parts@[k]).0 <= parts@[k].1 <= s@.len()
                    && s@.subrange(parts@[k].0 as int, parts@[k].1 as int) == done[k],
        decreases n - i,
    {
        let c = s.get_char(i);
        proof {
            assert(s@.skip(i as int)[0] == s@[i as int]);
            assert(s@.skip(i as int).skip(1) =~= s@.skip(i + 1 as int));
        }
        if c == ':' {
            let ghost pre = parts@;
            parts.push((tok_start, i));
            proof {
                let cur = s@.subrange(tok_start as int, i as int);
                let rest = split_go(s@.skip(i + 1 as int), ':', Seq::<char>::empty());
                assert(Seq::<char>::empty() =~= s@.subrange(i + 1 as int, i + 1 as int));
                assert(split_go(s@.skip(i as int), ':', cur) == seq![cur] + rest);
                assert(done + (seq![cur] + rest) =~= done.push(cur) + rest);
                let done2 = done.push(cur);
                assert(forall|j: int| 0 <= j < done.len() ==> done2[j] == done[j]);
                assert(done2[done.len() as int] == cur);
                done = done2;
                assert(forall|j: int| 0 <= j < pre.len() ==> parts@[j] == pre[j]);
                assert(parts@[pre.len() as int] == (tok_start, i));
            }
            tok_start = i + 1;
        } else {
            proof {
                assert(s@.subrange(tok_start as int, i as int).push(s@[i as int]) =~= s@.subrange(
                    tok_start as int,
                    i + 1 as int,
                ));
            }
        }
        i = i + 1;
    }
    let ghost pre = parts@;
    parts.push((tok_start, n));
    proof {
        let last = s@.subrange(tok_start as int, n as int);
        assert(s@.skip(n as int).len() == 0);
        assert(split_go(s@.skip(n as int), ':', last) == seq![last]);
        assert(done + seq![last] =~= done.push(last));
        assert(forall|j: int| 0 <= j < pre.len() ==> parts@[j] == pre[j]);
        assert(parts@[pre.len() as int] == (tok_start, n));
    }
    parts
}

/// Decides `is_h16` on the characters of `s` between `start` and `end`.
#[verifier::loop_isolation(false)]
fn check_h16(s: &str, start: usize, end: usize) -> (r: bool)
    requires
        start <= end <= s@.len(),
    ensures
        r == is_h16(s@.subrange(start as int, end as int)),
{
    let ghost t = s@.subrange(start as int, end as int);
    let len = end - start;
    if len < 1 || len > 4 {
        return false;
    }
    let mut j = start;
    while j < end
        invariant
            start <= j <= end <= s@.len(),
            forall|k: int| start <= k < j ==> is_hex_digit(s@[k]),
        decreases end - j,
    {
        let u = s.get_char(j) as u32;
        if !((48 <= u && u <= 57) || (97 <= u && u <= 102) || (65 <= u && u <= 70)) {
            proof {
                let jj = j as int - start as int;
                assert(t[jj] == s@[start as int + jj]);
                assert(!is_hex_digit(t[jj]));
            }
            return false;
        }
        j = j + 1;
    }
    assert(forall|i: int| 0 <= i < t.len() ==> t[i] == s@[start + i] && is_hex_digit(t[i]));
    true
}

/// Decides `valid_ipv4` on the characters of `s` between `start` and `end`.
fn check_ipv4_range(s: &str, start: usize, end: usize) -> (r: bool)
    requires
        start <= end <= s@.len(),
    ensures
        r == valid_ipv4(s@.subrange(start as int, end as int)),
{
    let sub = s.substring_char(start, end);
    is_valid_ipv4(sub)
}

/// Decides `all_h16` over the pieces `lo` to `hi` of the split.
#[verifier::loop_isolation(false)]
fn parts_all_h16(s: &str, parts: &Vec<(usize, usize)>, lo: usize, hi: usize) -> (r: bool)
    requires
        parts_match(s@, parts@),
        lo <= hi <= parts@.len(),
    ensures
        r == all_h16(split_on(s@, ':'), lo as int, hi as int),
{
    let ghost ps = split_on(s@, ':');
    let mut k = lo;
    while k < hi
        invariant
            lo <= k <= hi,
            forall|t: int| lo <= t < k ==> is_h16(#[trigger] ps[t]),
        decreases hi - k,
    {
        let (a, b) = parts[k];
        if !check_h16(s, a, b) {
            proof {
                assert(!is_h16(ps[k as int]));
            }
            return false;
        }
        k = k + 1;
    }
    true
}

/// Decides `tail_ok` over the pieces `lo` to `hi` of the split.
fn parts_tail_ok(s: &str, parts: &Vec<(usize, usize)>, lo: usize, hi: usize) -> (r: bool)
    requires
        parts_match(s@, parts@),
        hi <= parts@.len(),
    ensures
        r == (lo < hi && tail_ok(split_on(s@, ':'), lo as int, hi as int)),
{
    if lo >= hi {
        return false;
    }
    let (a, b) = parts[hi - 1];
    parts_all_h16(s, parts, lo, hi - 1) && (check_h16(s, a, b) || check_ipv4_range(s, a, b))
}

/// Decides whether `tail_groups` over the pieces `lo` to `hi` of the
/// split stays within `bound`.
fn parts_tail_groups_at_most(
    s: &str,
    parts: &Vec<(usize, usize)>,
    lo: usize,
    hi: usize,
    bound: usize,
) -> (r: bool)
    requires
        parts_match(s@, parts@),
        lo < hi <= parts@.len(),
        bound <= 8,
    ensures
        r == (tail_groups(split_on(s@, ':'), lo as int, hi as int) <= bound),
{
    let base = hi - 1 - lo;
    if base > bound {
        return false;
    }
    let (a, b) = parts[hi - 1];
    let last_v4 = check_ipv4_range(s, a, b);
    let groups = base + if last_v4 {
        2
    } else {
        1
    };
    groups <= bound
}

/// Is piece `k` of the split empty?
fn part_is_empty(s: &str, parts: &Vec<(usize, usize)>, k: usize) -> (r: bool)
    requires
        parts_match(s@, parts@),
        k < parts@.len(),
    ensures
        r == (split_on(s@, ':')[k as int].len() == 0),
{
    let (a, b) = parts[k];
    proof {
        assert(split_on(s@, ':')[k as int].len() == b - a);
    }
    a == b
}

/// The first empty piece of the split, if any.
#[verifier::loop_isolation(false)]
fn first_empty_part(s: &str, parts: &Vec<(usize, usize)>) -> (r: Option<usize>)
    requires
        parts_match(s@, parts@),
    ensures
        ({
            let ps = split_on(s@, ':');
            match r {
                Some(e) => e < ps.len() && ps[e as int].len() == 0 && (forall|k: int|
                    0 <= k < e ==> (#[trigger] ps[k]).len() != 0),
                None => forall|k: int| 0 <= k < ps.len() ==> (#[trigger] ps[k]).len() != 0,
            }
        }),
{
    let ghost ps = split_on(s@, ':');
    let mut k: usize = 0;
    while k < parts.len()
        invariant
            k <= parts@.len(),
            forall|t: int| 0 <= t < k ==> (#[trigger] ps[t]).len() != 0,
        decreases parts@.len() - k,
    {
        if part_is_empty(s, parts, k) {
            return Some(k);
        }
        k = k + 1;
    }
    None
}

/// Decides `valid_ipv6` on `s`.
#[verifier::loop_isolation(false)]
pub fn is_valid_ipv6(s: &str) -> (r: bool)
    ensures
        r == valid_ipv6(s@),
{
    let parts = colon_parts(s);
    let ghost ps = split_on(s@, ':');
    let m = parts.len();

    let full8 = m == 8 && parts_all_h16(s, &parts, 0, 8);
    let full_v4 = m == 7 && parts_all_h16(s, &parts, 0, 6) && {
        let (a, b) = parts[6];
        check_ipv4_range(s, a, b)
    };
    let colons_only = m == 3 && part_is_empty(s, &parts, 0) && part_is_empty(s, &parts, 1)
        && part_is_empty(s, &parts, 2);
    let lead = m >= 3 && part_is_empty(s, &parts, 0) && part_is_empty(s, &parts, 1)
        && parts_tail_ok(s, &parts, 2, m) && parts_tail_groups_at_most(s, &parts, 2, m, 7);
    let trail = m >= 3 && part_is_empty(s, &parts, m - 1) && part_is_empty(s, &parts, m - 2)
        && parts_all_h16(s, &parts, 0, m - 2) && m - 2 <= 7;
    let mid = if m >= 3 {
        match first_empty_part(s, &parts) {
            Some(e) => 1 <= e && e <= m - 2 && e <= 6 && parts_all_h16(s, &parts, 0, e)
                && parts_tail_ok(s, &parts, e + 1, m) && parts_tail_groups_at_most(
                s,
                &parts,
                e + 1,
                m,
                7 - e,
            ),
            None => false,
        }
    } else {
        false
    };
    let r = full8 || full_v4 || colons_only || lead || trail || mid;
    proof {
        let mid_spec = exists|i: int|
            1 <= i <= ps.len() - 2 && (#[trigger] ps[i]).len() == 0 && all_h16(ps, 0, i) && tail_ok(
                ps,
                i + 1,
                ps.len() as int,
            ) && i + tail_groups(ps, i + 1, ps.len() as int) <= 7;
        if mid_spec && !mid {
            let i = choose|i: int|
                1 <= i <= ps.len() - 2 && (#[trigger] ps[i]).len() == 0 && all_h16(ps, 0, i)
                    && tail_ok(ps, i + 1, ps.len() as int) && i + tail_groups(
                    ps,
                    i + 1,
                    ps.len() as int,
                ) <= 7;
            assert(forall|k: int| 0 <= k < i ==> is_h16(#[trigger] ps[k]));
            assert(forall|k: int| 0 <= k < i ==> (#[trigger] ps[k]).len() != 0);
            assert(false);
        }
    }
    r
}

/// A syntactically valid textual IP address: a dotted-quad IPv4 literal,
/// or an IPv6 literal enclosed in brackets, as a socket address writes it.
pub open spec fn valid_ip_text(s: Seq<char>) -> bool {
    ||| valid_ipv4(s)
    ||| (s.len() >= 2 && s[0] == '[' && s[s.len() - 1] == ']' && valid_ipv6(
        s.subrange(1, s.len() - 1),
    ))
}

/// Decides `valid_ip_text` on `s`.
pub fn is_valid_ip_text(s: &str) -> (r: bool)
    ensures
        r == valid_ip_text(s@),
{
    if is_valid_ipv4(s) {
        return true;
    }
    let n = s.unicode_len();
    if n >= 2 && s.get_char(0) == '[' && s.get_char(n - 1) == ']' {
        let inner = s.substring_char(1, n - 1);
        return is_valid_ipv6(inner);
    }
    false
}

} // verus!
