//! Text rules: what counts as whitespace, trimming, and staging.

use vstd::prelude::*;
use vstd::std_specs::iter::IteratorSpec;

verus! {

/// Whether `c` has the Unicode property `White_Space`.
pub open spec fn is_whitespace_spec(c: char) -> bool {
    let n = c as u32;
    ||| 0x09 <= n <= 0x0D
    ||| n == 0x20
    ||| n == 0x85
    ||| n == 0xA0
    ||| n == 0x1680
    ||| 0x2000 <= n <= 0x200A
    ||| n == 0x2028
    ||| n == 0x2029
    ||| n == 0x202F
    ||| n == 0x205F
    ||| n == 0x3000
}

/// Tests a character for the Unicode property `White_Space`.
pub fn is_whitespace(c: char) -> (r: bool)
    ensures
        r == is_whitespace_spec(c),
{
    let n: u32 = c as u32;
    (0x09 <= n && n <= 0x0D) || n == 0x20 || n == 0x85 || n == 0xA0 || n == 0x1680 || (0x2000 <= n
        && n <= 0x200A) || n == 0x2028 || n == 0x2029 || n == 0x202F || n == 0x205F || n == 0x3000
}

/// `s` without its leading whitespace.
pub open spec fn trim_start_spec(s: Seq<char>) -> Seq<char>
    decreases s.len(),
{
    if s.len() > 0 && is_whitespace_spec(s[0]) {
        trim_start_spec(s.drop_first())
    } else {
        s
    }
}

/// `s` without its trailing whitespace.
pub open spec fn trim_end_spec(s: Seq<char>) -> Seq<char>
    decreases s.len(),
{
    if s.len() > 0 && is_whitespace_spec(s.last()) {
        trim_end_spec(s.drop_last())
    } else {
        s
    }
}

/// `s` without the whitespace around it. Whitespace inside the text,
/// blank lines included, stays.
pub open spec fn trimmed(s: Seq<char>) -> Seq<char> {
    trim_end_spec(trim_start_spec(s))
}

/// Every character of `s` is whitespace.
pub open spec fn all_whitespace(s: Seq<char>) -> bool {
    forall|i: int| 0 <= i < s.len() ==> is_whitespace_spec(#[trigger] s[i])
}

/// Leading whitespace is dropped up to the first other character.
proof fn lemma_trim_start_at(s: Seq<char>, first: int)
    requires
        0 <= first <= s.len(),
        all_whitespace(s.subrange(0, first)),
        first < s.len() ==> !is_whitespace_spec(s[first]),
    ensures
        trim_start_spec(s) == s.subrange(first, s.len() as int),
    decreases first,
{
    if first == 0 {
        assert(s.subrange(0, s.len() as int) == s);
    } else {
        assert(s.subrange(0, first)[0] == s[0]);
        let t = s.drop_first();
        assert forall|i: int| 0 <= i < first - 1 implies is_whitespace_spec(
            #[trigger] t.subrange(0, first - 1)[i],
        ) by {
            assert(t.subrange(0, first - 1)[i] == s.subrange(0, first)[i + 1]);
        }
        lemma_trim_start_at(t, first - 1);
        assert(t.subrange(first - 1, t.len() as int) == s.subrange(first, s.len() as int));
    }
}

/// Trailing whitespace is dropped down to the last other character.
proof fn lemma_trim_end_at(s: Seq<char>, end: int)
    requires
        0 <= end <= s.len(),
        all_whitespace(s.subrange(end, s.len() as int)),
        0 < end ==> !is_whitespace_spec(s[end - 1]),
    ensures
        trim_end_spec(s) == s.subrange(0, end),
    decreases s.len() - end,
{
    if end == s.len() {
        assert(s.subrange(0, end) == s);
    } else {
        assert(s.subrange(end, s.len() as int)[s.len() - end - 1] == s.last());
        let t = s.drop_last();
        assert forall|i: int| 0 <= i < t.len() - end implies is_whitespace_spec(
            #[trigger] t.subrange(end, t.len() as int)[i],
        ) by {
            assert(t.subrange(end, t.len() as int)[i] == s.subrange(end, s.len() as int)[i]);
        }
        lemma_trim_end_at(t, end);
        assert(t.subrange(0, end) == s.subrange(0, end));
    }
}

/// Where trimming cuts: `first` is the place of the first character that is
/// no whitespace and `end` the place after the last one (`first == end` where
/// there is none).
pub proof fn lemma_trimmed_bounds(s: Seq<char>, first: int, end: int)
    requires
        0 <= first <= end <= s.len(),
        all_whitespace(s.subrange(0, first)),
        all_whitespace(s.subrange(end, s.len() as int)),
        first < end ==> !is_whitespace_spec(s[first]) && !is_whitespace_spec(s[end - 1]),
        first == end ==> all_whitespace(s),
    ensures
        trimmed(s) == s.subrange(first, end),
{
    if first < end {
        lemma_trim_start_at(s, first);
        let t = s.subrange(first, s.len() as int);
        assert forall|i: int| 0 <= i < s.len() - end implies is_whitespace_spec(
            #[trigger] t.subrange(end - first, t.len() as int)[i],
        ) by {
            assert(t.subrange(end - first, t.len() as int)[i] == s.subrange(
                end,
                s.len() as int,
            )[i]);
        }
        lemma_trim_end_at(t, end - first);
        assert(t.subrange(0, end - first) == s.subrange(first, end));
    } else {
        assert(s.subrange(0, s.len() as int) == s);
        lemma_trim_start_at(s, s.len() as int);
        assert(s.subrange(first, end) == Seq::<char>::empty());
        assert(s.subrange(s.len() as int, s.len() as int) == Seq::<char>::empty());
    }
}

/// What trimming the start leaves is the end of `s`, begins with a character
/// that is no whitespace unless it is empty, and only whitespace went.
pub proof fn lemma_trim_start_shape(s: Seq<char>)
    ensures
        trim_start_spec(s).len() <= s.len(),
        trim_start_spec(s) == s.subrange(s.len() - trim_start_spec(s).len(), s.len() as int),
        all_whitespace(s.subrange(0, s.len() - trim_start_spec(s).len())),
        trim_start_spec(s).len() > 0 ==> !is_whitespace_spec(trim_start_spec(s)[0]),
    decreases s.len(),
{
    if s.len() > 0 && is_whitespace_spec(s[0]) {
        let t = s.drop_first();
        lemma_trim_start_shape(t);
        let r = trim_start_spec(t);
        let cut = s.len() - r.len();
        assert(t.subrange(t.len() - r.len(), t.len() as int) == s.subrange(cut, s.len() as int));
        assert forall|i: int| 0 <= i < cut implies is_whitespace_spec(
            #[trigger] s.subrange(0, cut)[i],
        ) by {
            if i > 0 {
                assert(s.subrange(0, cut)[i] == t.subrange(0, cut - 1)[i - 1]);
            }
        }
    } else {
        assert(s.subrange(0, s.len() as int) == s);
    }
}

/// What trimming the end leaves is the start of `s`, ends with a character
/// that is no whitespace unless it is empty, and only whitespace went.
pub proof fn lemma_trim_end_shape(s: Seq<char>)
    ensures
        trim_end_spec(s).len() <= s.len(),
        trim_end_spec(s) == s.subrange(0, trim_end_spec(s).len() as int),
        all_whitespace(s.subrange(trim_end_spec(s).len() as int, s.len() as int)),
        trim_end_spec(s).len() > 0 ==> !is_whitespace_spec(trim_end_spec(s).last()),
    decreases s.len(),
{
    if s.len() > 0 && is_whitespace_spec(s.last()) {
        let t = s.drop_last();
        lemma_trim_end_shape(t);
        let r = trim_end_spec(t);
        let keep = r.len() as int;
        assert(t.subrange(0, keep) == s.subrange(0, keep));
        assert forall|i: int| 0 <= i < s.len() - keep implies is_whitespace_spec(
            #[trigger] s.subrange(keep, s.len() as int)[i],
        ) by {
            if i < t.len() - keep {
                assert(s.subrange(keep, s.len() as int)[i] == t.subrange(keep, t.len() as int)[i]);
            }
        }
    } else {
        assert(s.subrange(0, s.len() as int) == s);
    }
}

/// How many characters trimming takes from the start of `s`.
pub open spec fn leading_whitespace(s: Seq<char>) -> int {
    s.len() - trim_start_spec(s).len()
}

/// Trimming keeps one stretch of `s`, takes only whitespace from either side
/// of it, and leaves no whitespace at either end of what it keeps.
pub proof fn lemma_trimmed_shape(s: Seq<char>)
    ensures
        0 <= leading_whitespace(s) <= leading_whitespace(s) + trimmed(s).len() <= s.len(),
        trimmed(s) == s.subrange(
            leading_whitespace(s),
            leading_whitespace(s) + trimmed(s).len(),
        ),
        all_whitespace(s.subrange(0, leading_whitespace(s))),
        all_whitespace(s.subrange(leading_whitespace(s) + trimmed(s).len(), s.len() as int)),
        trimmed(s).len() > 0 ==> !is_whitespace_spec(trimmed(s)[0]) && !is_whitespace_spec(
            trimmed(s).last(),
        ),
        trimmed(s).len() == 0 ==> all_whitespace(s),
{
    let m = trim_start_spec(s);
    let t = trimmed(s);
    let lead = leading_whitespace(s);
    lemma_trim_start_shape(s);
    lemma_trim_end_shape(m);
    assert(t == s.subrange(lead, lead + t.len())) by {
        assert(m.subrange(0, t.len() as int) == s.subrange(lead, lead + t.len()));
    }
    assert forall|i: int| 0 <= i < s.len() - lead - t.len() implies is_whitespace_spec(
        #[trigger] s.subrange(lead + t.len(), s.len() as int)[i],
    ) by {
        assert(s.subrange(lead + t.len(), s.len() as int)[i] == m.subrange(
            t.len() as int,
            m.len() as int,
        )[i]);
    }
    if t.len() > 0 {
        assert(t[0] == m[0]);
    } else {
        assert forall|i: int| 0 <= i < s.len() implies is_whitespace_spec(#[trigger] s[i]) by {
            if i < lead {
                assert(s[i] == s.subrange(0, lead)[i]);
            } else {
                assert(s[i] == m.subrange(0, m.len() as int)[i - lead]);
            }
        }
    }
}

/// Trimming twice gives what trimming once gives.
pub proof fn lemma_trim_idempotent(s: Seq<char>)
    ensures
        trimmed(trimmed(s)) == trimmed(s),
{
    let t = trimmed(s);
    lemma_trimmed_shape(s);
    if t.len() > 0 {
        assert(trim_start_spec(t) == t);
        assert(trim_end_spec(t) == t);
    }
}

/// Text with no whitespace at either end is what trimming leaves alone.
pub proof fn lemma_trim_fixed_point(s: Seq<char>)
    ensures
        trimmed(s) == s <==> (s.len() > 0 ==> !is_whitespace_spec(s[0]) && !is_whitespace_spec(
            s.last(),
        )),
{
    lemma_trimmed_shape(s);
    if s.len() > 0 && trimmed(s) == s {
        assert(trimmed(s).len() > 0);
    }
}

/// Whitespace added at the end does not change what trimming gives.
pub proof fn lemma_trim_ignores_trailing_whitespace(s: Seq<char>, c: char)
    requires
        is_whitespace_spec(c),
    ensures
        trimmed(s.push(c)) == trimmed(s),
{
    let t = trimmed(s);
    let lead = leading_whitespace(s);
    let end = lead + t.len();
    let p = s.push(c);
    lemma_trimmed_shape(s);
    assert(p.subrange(0, lead) == s.subrange(0, lead));
    assert forall|i: int| 0 <= i < p.len() - end implies is_whitespace_spec(
        #[trigger] p.subrange(end, p.len() as int)[i],
    ) by {
        if i < s.len() - end {
            assert(p.subrange(end, p.len() as int)[i] == s.subrange(end, s.len() as int)[i]);
        }
    }
    if t.len() == 0 {
        assert forall|i: int| 0 <= i < p.len() implies is_whitespace_spec(#[trigger] p[i]) by {
            if i < s.len() {
                assert(p[i] == s[i]);
            }
        }
    } else {
        assert(p[lead] == t[0]);
        assert(p[end - 1] == t.last());
    }
    lemma_trimmed_bounds(p, lead, end);
    assert(p.subrange(lead, end) == s.subrange(lead, end));
}

/// The text without the whitespace around it, as `str::trim` gives it.
pub fn trim(s: &str) -> (r: &str)
    ensures
        r@ == trimmed(s@),
{
    let n: usize = s.unicode_len();
    let mut first: usize = 0;
    let mut end: usize = 0;
    let mut seen: bool = false;
    let mut i: usize = 0;
    let mut it = s.chars();
    loop
        invariant
            n == s@.len(),
            0 <= i <= n,
            it.remaining() == s@.subrange(i as int, n as int),
            !seen ==> first == 0 && end == 0 && all_whitespace(s@.subrange(0, i as int)),
            seen ==> first < end <= i && !is_whitespace_spec(s@[first as int])
                && !is_whitespace_spec(s@[end - 1]) && all_whitespace(s@.subrange(0, first as int))
                && all_whitespace(s@.subrange(end as int, i as int)),
        ensures
            i == n,
            !seen ==> first == 0 && end == 0 && all_whitespace(s@),
            seen ==> first < end <= n && !is_whitespace_spec(s@[first as int])
                && !is_whitespace_spec(s@[end - 1]) && all_whitespace(s@.subrange(0, first as int))
                && all_whitespace(s@.subrange(end as int, n as int)),
        decreases n - i,
    {
        let ghost before = it.remaining();
        match it.next() {
            None => {
                assert(s@.subrange(0, n as int) == s@);
                break ;
            },
            Some(c) => {
                assert(before[0] == s@[i as int]);
                assert(before.drop_first() == s@.subrange(i + 1, n as int));
                if is_whitespace(c) {
                    proof {
                        if seen {
                            assert forall|k: int| 0 <= k < i + 1 - end implies is_whitespace_spec(
                                #[trigger] s@.subrange(end as int, i + 1)[k],
                            ) by {
                                if k < i - end {
                                    assert(s@.subrange(end as int, i + 1)[k] == s@.subrange(
                                        end as int,
                                        i as int,
                                    )[k]);
                                }
                            }
                        } else {
                            assert forall|k: int| 0 <= k < i + 1 implies is_whitespace_spec(
                                #[trigger] s@.subrange(0, i + 1)[k],
                            ) by {
                                if k < i {
                                    assert(s@.subrange(0, i + 1)[k] == s@.subrange(0, i as int)[k]);
                                }
                            }
                        }
                    }
                } else {
                    if !seen {
                        first = i;
                        seen = true;
                    }
                    end = i + 1;
                    assert(s@.subrange(end as int, i + 1) == Seq::<char>::empty());
                }
                i = i + 1;
            },
        }
    }
    proof {
        if !seen {
            assert(s@.subrange(0, 0) == Seq::<char>::empty());
            assert(s@.subrange(n as int, n as int) == Seq::<char>::empty());
            lemma_trim_start_at(s@, n as int);
        }
        lemma_trimmed_bounds(s@, first as int, end as int);
    }
    s.substring_char(first, end)
}

/// What is written to the temporary file for `input`: the text and one line
/// end after it, whatever the text ends with.
pub open spec fn staged(input: Seq<char>) -> Seq<char> {
    input.push('\n')
}

/// The content to stage in the temporary file for `input`.
pub fn stage_content(input: &str) -> (r: String)
    ensures
        r@ == staged(input@),
{
    proof {
        reveal_strlit("\n");
    }
    let line_end = "\n";
    assert(line_end@ == seq!['\n']);
    let r = input.to_owned().concat(line_end);
    assert(r@ == input@.push('\n'));
    r
}

} // verus!
