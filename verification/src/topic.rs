use vstd::prelude::*;

verus! {

/// End of the `/`-delimited segment that starts at `from`: the index of
/// the first `/` at or after `from`, or the length of the topic if no
/// further `/` occurs.
pub open spec fn seg_end(s: Seq<char>, from: int) -> int
    recommends
        0 <= from <= s.len(),
    decreases s.len() - from, when from <= s.len()
{
    if from >= s.len() {
        s.len() as int
    } else if s[from] == '/' {
        from
    } else {
        seg_end(s, from + 1)
    }
}

pub proof fn lemma_seg_end(s: Seq<char>, from: int)
    requires
        0 <= from <= s.len(),
    ensures
        from <= seg_end(s, from) <= s.len(),
        forall|j: int| from <= j < seg_end(s, from) ==> s[j] != '/',
        seg_end(s, from) < s.len() ==> s[seg_end(s, from)] == '/',
    decreases s.len() - from,
{
    if from < s.len() && s[from] != '/' {
        lemma_seg_end(s, from + 1);
    }
}

/// The first `/`-delimited segment of a topic: the routing key.
pub open spec fn spec_first_segment(s: Seq<char>) -> Seq<char> {
    s.subrange(0, seg_end(s, 0))
}

/// The second `/`-delimited segment of a topic, where one exists: the
/// location identifier of the device that published the message.
pub open spec fn spec_second_segment(s: Seq<char>) -> Option<Seq<char>> {
    let e0 = seg_end(s, 0);
    if e0 < s.len() {
        Some(s.subrange(e0 + 1, seg_end(s, e0 + 1)))
    } else {
        None
    }
}

/// The third `/`-delimited segment of a topic, where one exists.
pub open spec fn spec_third_segment(s: Seq<char>) -> Option<Seq<char>> {
    let e0 = seg_end(s, 0);
    if e0 < s.len() {
        let e1 = seg_end(s, e0 + 1);
        if e1 < s.len() {
            Some(s.subrange(e1 + 1, seg_end(s, e1 + 1)))
        } else {
            None
        }
    } else {
        None
    }
}

pub open spec fn spec_ends_with(s: Seq<char>, suffix: Seq<char>) -> bool {
    suffix.len() <= s.len() && s.subrange(s.len() - suffix.len(), s.len() as int) == suffix
}

/// Index of the first `/` at or after `from`, or the topic's length.
fn seg_end_exec(s: &str, from: usize) -> (r: usize)
    requires
        from <= s@.len(),
    ensures
        r == seg_end(s@, from as int),
        from <= r <= s@.len(),
{
    proof {
        lemma_seg_end(s@, from as int);
    }
    let n = s.unicode_len();
    let mut i = from;
    while i < n
        invariant
            from <= i <= n,
            n == s@.len(),
            seg_end(s@, from as int) == seg_end(s@, i as int),
        decreases n - i,
    {
        let c = s.get_char(i);
        if c == '/' {
            return i;
        }
        i = i + 1;
    }
    i
}

/// The routing key of a topic: everything before the first `/`, or the
/// whole topic when it has no `/`.
pub fn first_segment<'a>(s: &'a str) -> (r: &'a str)
    ensures
        r@ == spec_first_segment(s@),
{
    proof {
        lemma_seg_end(s@, 0);
    }
    let e = seg_end_exec(s, 0);
    s.substring_char(0, e)
}

/// The location identifier of a topic: the segment after the first `/`,
/// or None when the topic has a single segment.
pub fn second_segment<'a>(s: &'a str) -> (r: Option<&'a str>)
    ensures
        match r {
            Some(seg) => spec_second_segment(s@) == Some(seg@),
            None => spec_second_segment(s@) is None,
        },
{
    let n = s.unicode_len();
    let e0 = seg_end_exec(s, 0);
    if e0 < n {
        proof {
            lemma_seg_end(s@, e0 + 1);
        }
        let e1 = seg_end_exec(s, e0 + 1);
        Some(s.substring_char(e0 + 1, e1))
    } else {
        None
    }
}

/// The third segment of a topic, or None when it has fewer than three.
pub fn third_segment<'a>(s: &'a str) -> (r: Option<&'a str>)
    ensures
        match r {
            Some(seg) => spec_third_segment(s@) == Some(seg@),
            None => spec_third_segment(s@) is None,
        },
{
    let n = s.unicode_len();
    let e0 = seg_end_exec(s, 0);
    if e0 < n {
        let e1 = seg_end_exec(s, e0 + 1);
        if e1 < n {
            proof {
                lemma_seg_end(s@, e1 + 1);
            }
            let e2 = seg_end_exec(s, e1 + 1);
            Some(s.substring_char(e1 + 1, e2))
        } else {
            None
        }
    } else {
        None
    }
}

/// Whether the topic ends in the given suffix, character for character.
pub fn str_ends_with(s: &str, suffix: &str) -> (r: bool)
    ensures
        r == spec_ends_with(s@, suffix@),
{
    let n = s.unicode_len();
    let m = suffix.unicode_len();
    if m > n {
        return false;
    }
    let start = n - m;
    let mut i: usize = 0;
    while i < m
        invariant
            0 <= i <= m,
            m <= n,
            start == n - m,
            n == s@.len(),
            m == suffix@.len(),
            forall|j: int| 0 <= j < i ==> s@[start + j] == suffix@[j],
        decreases m - i,
    {
        let a = s.get_char(start + i);
        let b = suffix.get_char(i);
        if a != b {
            proof {
                let sub = s@.subrange(start as int, n as int);
                assert(sub[i as int] == s@[start + i]);
            }
            return false;
        }
        i = i + 1;
    }
    proof {
        assert(s@.subrange(start as int, n as int) =~= suffix@);
    }
    true
}

} // verus!
