//! Character-level string operations shared by the name and path logic,
//! each stated over `Seq<char>` and implemented with a loop.
use vstd::prelude::*;

verus! {

/// The Unicode `White_Space` property (PropList.txt), the set of characters
/// that `str::trim` removes from both ends of a string.
pub open spec fn is_white_space(c: char) -> bool {
    let u = c as u32;
    ||| 0x09 <= u <= 0x0d
    ||| u == 0x20
    ||| u == 0x85
    ||| u == 0xa0
    ||| u == 0x1680
    ||| 0x2000 <= u <= 0x200a
    ||| u == 0x2028
    ||| u == 0x2029
    ||| u == 0x202f
    ||| u == 0x205f
    ||| u == 0x3000
}

/// `s` with its leading white space removed.
pub open spec fn trim_start_ws(s: Seq<char>) -> Seq<char>
    decreases s.len(),
{
    if s.len() > 0 && is_white_space(s[0]) {
        trim_start_ws(s.drop_first())
    } else {
        s
    }
}

/// `s` with its trailing white space removed.
pub open spec fn trim_end_ws(s: Seq<char>) -> Seq<char>
    decreases s.len(),
{
    if s.len() > 0 && is_white_space(s.last()) {
        trim_end_ws(s.drop_last())
    } else {
        s
    }
}

/// `s` with white space removed from both ends.
pub open spec fn trim_ws(s: Seq<char>) -> Seq<char> {
    trim_end_ws(trim_start_ws(s))
}

/// `s` with every leading and trailing occurrence of `c` removed.
pub open spec fn trim_char(s: Seq<char>, c: char) -> Seq<char> {
    trim_end_char(trim_start_char(s, c), c)
}

/// `s` with every leading occurrence of `c` removed.
pub open spec fn trim_start_char(s: Seq<char>, c: char) -> Seq<char>
    decreases s.len(),
{
    if s.len() > 0 && s[0] == c {
        trim_start_char(s.drop_first(), c)
    } else {
        s
    }
}

/// `s` with every trailing occurrence of `c` removed.
pub open spec fn trim_end_char(s: Seq<char>, c: char) -> Seq<char>
    decreases s.len(),
{
    if s.len() > 0 && s.last() == c {
        trim_end_char(s.drop_last(), c)
    } else {
        s
    }
}

/// `pat` occurs in `s` starting at position `i`.
pub open spec fn occurs_at(s: Seq<char>, pat: Seq<char>, i: int) -> bool {
    0 <= i && i + pat.len() <= s.len() && s.subrange(i, i + pat.len()) == pat
}

/// `pat` occurs somewhere in `s`.
pub open spec fn contains_seq(s: Seq<char>, pat: Seq<char>) -> bool {
    exists|i: int| occurs_at(s, pat, i)
}

/// `s` holds the character `c`.
pub open spec fn has_char(s: Seq<char>, c: char) -> bool {
    exists|i: int| 0 <= i < s.len() && s[i] == c
}

/// `s` with every `c` removed.
pub open spec fn remove_char(s: Seq<char>, c: char) -> Seq<char>
    decreases s.len(),
{
    if s.len() == 0 {
        s
    } else if s[0] == c {
        remove_char(s.drop_first(), c)
    } else {
        seq![s[0]] + remove_char(s.drop_first(), c)
    }
}

/// Tests the `White_Space` property of one character.
pub fn char_is_white_space(c: char) -> (r: bool)
    ensures
        r == is_white_space(c),
{
    let u = c as u32;
    (0x09 <= u && u <= 0x0d) || u == 0x20 || u == 0x85 || u == 0xa0 || u == 0x1680 || (0x2000
        <= u && u <= 0x200a) || u == 0x2028 || u == 0x2029 || u == 0x202f || u == 0x205f || u
        == 0x3000
}

proof fn lemma_trim_start_step(s: Seq<char>, i: int)
    requires
        0 <= i < s.len(),
        is_white_space(s[i]),
    ensures
        trim_start_ws(s.subrange(i, s.len() as int)) == trim_start_ws(
            s.subrange(i + 1, s.len() as int),
        ),
{
    let t = s.subrange(i, s.len() as int);
    assert(t.drop_first() =~= s.subrange(i + 1, s.len() as int));
}

proof fn lemma_trim_end_step(s: Seq<char>, j: int)
    requires
        0 < j <= s.len(),
        is_white_space(s[j - 1]),
    ensures
        trim_end_ws(s.subrange(0, j)) == trim_end_ws(s.subrange(0, j - 1)),
{
    let t = s.subrange(0, j);
    assert(t.drop_last() =~= s.subrange(0, j - 1));
}

/// Removes leading and trailing white space, as `str::trim` does.
pub fn trim_white_space(s: &str) -> (r: String)
    ensures
        r@ == trim_ws(s@),
{
    let n = s.unicode_len();
    let mut i: usize = 0;
    assert(s@.subrange(0, n as int) =~= s@);
    while i < n && char_is_white_space(s.get_char(i))
        invariant
            n == s@.len(),
            i <= n,
            trim_start_ws(s@) == trim_start_ws(s@.subrange(i as int, n as int)),
        decreases n - i,
    {
        proof {
            lemma_trim_start_step(s@, i as int);
        }
        i = i + 1;
    }
    let ghost head = s@.subrange(i as int, n as int);
    assert(trim_start_ws(s@) == head) by {
        if i < n {
            assert(head[0] == s@[i as int]);
        } else {
            assert(head.len() == 0);
        }
    }
    let mut j: usize = n;
    assert(head.subrange(0, (n - i) as int) =~= head);
    while j > i && char_is_white_space(s.get_char(j - 1))
        invariant
            n == s@.len(),
            i <= j <= n,
            head == s@.subrange(i as int, n as int),
            trim_end_ws(head) == trim_end_ws(head.subrange(0, (j - i) as int)),
        decreases j,
    {
        proof {
            assert(head[(j - i - 1) as int] == s@[(j - 1) as int]);
            lemma_trim_end_step(head, (j - i) as int);
        }
        j = j - 1;
    }
    let ghost body = head.subrange(0, (j - i) as int);
    assert(trim_end_ws(head) == body) by {
        if j > i {
            assert(body.last() == s@[(j - 1) as int]);
        }
    }
    assert(body =~= s@.subrange(i as int, j as int));
    let sub = s.substring_char(i, j);
    String::from_str(sub)
}

/// Removes every leading and trailing `c`, as `str::trim_matches(c)` does.
pub fn trim_matches_char(s: &str, c: char) -> (r: String)
    ensures
        r@ == trim_char(s@, c),
{
    let n = s.unicode_len();
    let mut i: usize = 0;
    assert(s@.subrange(0, n as int) =~= s@);
    while i < n && s.get_char(i) == c
        invariant
            n == s@.len(),
            i <= n,
            trim_start_char(s@, c) == trim_start_char(s@.subrange(i as int, n as int), c),
        decreases n - i,
    {
        assert(s@.subrange(i as int, n as int).drop_first() =~= s@.subrange(
            i + 1,
            n as int,
        ));
        i = i + 1;
    }
    let ghost head = s@.subrange(i as int, n as int);
    assert(trim_start_char(s@, c) == head) by {
        if i < n {
            assert(head[0] == s@[i as int]);
        }
    }
    let mut j: usize = n;
    assert(head.subrange(0, (n - i) as int) =~= head);
    while j > i && s.get_char(j - 1) == c
        invariant
            n == s@.len(),
            i <= j <= n,
            head == s@.subrange(i as int, n as int),
            trim_end_char(head, c) == trim_end_char(head.subrange(0, (j - i) as int), c),
        decreases j,
    {
        assert(head.subrange(0, (j - i) as int).drop_last() =~= head.subrange(
            0,
            (j - i - 1) as int,
        ));
        assert(head[(j - i - 1) as int] == s@[(j - 1) as int]);
        j = j - 1;
    }
    let ghost body = head.subrange(0, (j - i) as int);
    assert(trim_end_char(head, c) == body) by {
        if j > i {
            assert(body.last() == s@[(j - 1) as int]);
        }
    }
    assert(body =~= s@.subrange(i as int, j as int));
    String::from_str(s.substring_char(i, j))
}

/// Tests whether `s` holds the character `c`, as `str::contains(c)` does.
pub fn str_has_char(s: &str, c: char) -> (r: bool)
    ensures
        r == has_char(s@, c),
{
    let n = s.unicode_len();
    let mut i: usize = 0;
    while i < n
        invariant
            n == s@.len(),
            i <= n,
            forall|k: int| 0 <= k < i ==> s@[k] != c,
        decreases n - i,
    {
        if s.get_char(i) == c {
            return true;
        }
        i = i + 1;
    }
    false
}

/// Tests whether `pat` occurs at position `i` of `s`.
pub fn occurs_at_exec(s: &str, pat: &str, i: usize) -> (r: bool)
    requires
        s@.len() <= usize::MAX,
    ensures
        r == occurs_at(s@, pat@, i as int),
{
    let n = s.unicode_len();
    let m = pat.unicode_len();
    if i > n || m > n - i {
        return false;
    }
    let mut k: usize = 0;
    while k < m
        invariant
            n == s@.len(),
            m == pat@.len(),
            i + m <= n,
            k <= m,
            forall|t: int| 0 <= t < k ==> s@[i + t] == pat@[t],
        decreases m - k,
    {
        if s.get_char(i + k) != pat.get_char(k) {
            assert(s@.subrange(i as int, i + m)[k as int] != pat@[k as int]);
            return false;
        }
        k = k + 1;
    }
    assert(s@.subrange(i as int, i + m) =~= pat@);
    true
}

/// Tests whether `pat` occurs in `s`, as `str::contains(pat)` does.
pub fn str_contains(s: &str, pat: &str) -> (r: bool)
    ensures
        r == contains_seq(s@, pat@),
{
    let n = s.unicode_len();
    let mut i: usize = 0;
    while i < n
        invariant
            n == s@.len(),
            i <= n,
            forall|k: int| 0 <= k < i ==> !occurs_at(s@, pat@, k),
        decreases n - i,
    {
        if occurs_at_exec(s, pat, i) {
            return true;
        }
        i = i + 1;
    }
    occurs_at_exec(s, pat, n)
}

proof fn lemma_remove_char_tail(s: Seq<char>, c: char, i: int)
    requires
        0 <= i < s.len(),
    ensures
        remove_char(s.subrange(i, s.len() as int), c) == (if s[i] == c {
            remove_char(s.subrange(i + 1, s.len() as int), c)
        } else {
            seq![s[i]] + remove_char(s.subrange(i + 1, s.len() as int), c)
        }),
{
    let t = s.subrange(i, s.len() as int);
    assert(t.drop_first() =~= s.subrange(i + 1, s.len() as int));
    assert(t[0] == s[i]);
}

/// Removes every `c` from `s`, as `str::replace(c, "")` does.
pub fn remove_all_char(s: &str, c: char) -> (r: String)
    ensures
        r@ == remove_char(s@, c),
{
    let n = s.unicode_len();
    let mut out = String::new();
    let mut i: usize = 0;
    assert(s@.subrange(0, n as int) =~= s@);
    while i < n
        invariant
            n == s@.len(),
            i <= n,
            remove_char(s@, c) == out@ + remove_char(s@.subrange(i as int, n as int), c),
        decreases n - i,
    {
        proof {
            lemma_remove_char_tail(s@, c, i as int);
        }
        if s.get_char(i) != c {
            let one = s.substring_char(i, i + 1);
            assert(one@ =~= seq![s@[i as int]]);
            let ghost before = out@;
            out.append(one);
            assert(before + (seq![s@[i as int]] + remove_char(
                s@.subrange(i + 1, n as int),
                c,
            )) =~= out@ + remove_char(s@.subrange(i + 1, n as int), c));
        }
        i = i + 1;
    }
    assert(s@.subrange(n as int, n as int) =~= Seq::<char>::empty());
    assert(out@ + Seq::<char>::empty() =~= out@);
    out
}

} // verus!
