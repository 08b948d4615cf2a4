//! Branch-name derivation: truncating an issue title at a word boundary,
//! slugging it into a lowercase dash-separated form, and joining it to the
//! issue number, together with the label-splitting helpers.

use crate::text::char_alphanumeric;
use crate::text::char_lower;
use crate::text::char_whitespace;
use crate::text::chars_of_str;
use crate::text::is_alnum;
use crate::text::is_sep;
use crate::text::is_space;
use crate::text::lower_char;
use crate::text::string_of_chars;
use crate::text::vec_range;
use crate::text::Sep;
use crate::text::spec_is_sep;
use vstd::prelude::*;

verus! {

/// The decimal digit character for a value below ten.
pub open spec fn spec_digit(d: int) -> char {
    if d == 0 {
        '0'
    } else if d == 1 {
        '1'
    } else if d == 2 {
        '2'
    } else if d == 3 {
        '3'
    } else if d == 4 {
        '4'
    } else if d == 5 {
        '5'
    } else if d == 6 {
        '6'
    } else if d == 7 {
        '7'
    } else if d == 8 {
        '8'
    } else {
        '9'
    }
}

/// The usual decimal rendering of a natural number, most significant
/// digit first, with no leading zeros (a single `'0'` for zero).
pub open spec fn spec_decimal(n: int) -> Seq<char>
    decreases n,
{
    if n < 10 {
        seq![spec_digit(n)]
    } else {
        spec_decimal(n / 10) + seq![spec_digit(n % 10)]
    }
}

fn digit_char(d: u64) -> (c: char)
    requires
        d < 10,
    ensures
        c == spec_digit(d as int),
{
    if d == 0 {
        '0'
    } else if d == 1 {
        '1'
    } else if d == 2 {
        '2'
    } else if d == 3 {
        '3'
    } else if d == 4 {
        '4'
    } else if d == 5 {
        '5'
    } else if d == 6 {
        '6'
    } else if d == 7 {
        '7'
    } else if d == 8 {
        '8'
    } else {
        '9'
    }
}

fn push_decimal(n: u64, out: &mut Vec<char>)
    ensures
        final(out)@ == old(out)@ + spec_decimal(n as int),
    decreases n,
{
    if n < 10 {
        out.push(digit_char(n));
    } else {
        push_decimal(n / 10, out);
        out.push(digit_char(n % 10));
    }
}

/// The index of the last whitespace character in `s`, or `-1` if there is
/// none.
pub open spec fn spec_last_ws(s: Seq<char>) -> int
    decreases s.len(),
{
    if s.len() == 0 {
        -1
    } else if char_whitespace(s.last()) {
        s.len() - 1
    } else {
        spec_last_ws(s.drop_last())
    }
}

/// Whether cutting `s` after `max` characters lands in the middle of a
/// word: a word character stands on each side of the cut.
pub open spec fn spec_cut_mid_word(s: Seq<char>, max: int) -> bool {
    0 < max < s.len() && !char_whitespace(s[max]) && !char_whitespace(s[max - 1])
}

/// The title after truncation: at most `max` characters. When the cut
/// lands mid-word, it is backed off to the last whitespace within the
/// truncated slice; when the slice holds no whitespace, the hard
/// truncation is kept.
pub open spec fn spec_truncate(s: Seq<char>, max: int) -> Seq<char> {
    if s.len() <= max {
        s
    } else {
        let head = s.take(max);
        if spec_cut_mid_word(s, max) && spec_last_ws(head) >= 0 {
            head.take(spec_last_ws(head))
        } else {
            head
        }
    }
}

proof fn lemma_last_ws(s: Seq<char>)
    ensures
        spec_last_ws(s) >= 0 ==> spec_last_ws(s) < s.len() && char_whitespace(s[spec_last_ws(s)]),
        spec_last_ws(s) < 0 ==> spec_last_ws(s) == -1,
        forall|j: int| spec_last_ws(s) < j < s.len() ==> !char_whitespace(s[j]),
    decreases s.len(),
{
    if s.len() == 0 {
    } else if char_whitespace(s.last()) {
    } else {
        lemma_last_ws(s.drop_last());
        assert(forall|j: int| 0 <= j < s.len() - 1 ==> s.drop_last()[j] == s[j]);
    }
}

fn find_last_ws(v: &Vec<char>) -> (r: Option<usize>)
    ensures
        r matches Some(i) ==> i == spec_last_ws(v@) && i < v@.len(),
        r is None ==> spec_last_ws(v@) == -1,
{
    let mut j: usize = v.len();
    proof {
        assert(v@.take(v@.len() as int) =~= v@);
    }
    while j > 0
        invariant
            j <= v@.len(),
            spec_last_ws(v@) == spec_last_ws(v@.take(j as int)),
        decreases j,
    {
        j = j - 1;
        if is_space(v[j]) {
            proof {
                assert(v@.take(j + 1 as int).last() == v@[j as int]);
            }
            return Some(j);
        }
        proof {
            assert(v@.take(j + 1 as int).last() == v@[j as int]);
            assert(v@.take(j + 1 as int).drop_last() =~= v@.take(j as int));
        }
    }
    None
}

fn truncate_chars(v: &Vec<char>, max: usize) -> (r: Vec<char>)
    ensures
        r@ == spec_truncate(v@, max as int),
{
    if v.len() <= max {
        proof {
            assert(v@.subrange(0, v@.len() as int) =~= v@);
        }
        vec_range(v, 0, v.len())
    } else {
        let mid_word = max > 0 && !is_space(v[max]) && !is_space(v[max - 1]);
        let head = vec_range(v, 0, max);
        proof {
            assert(head@ =~= v@.take(max as int));
            assert(mid_word == spec_cut_mid_word(v@, max as int));
            lemma_last_ws(head@);
        }
        if !mid_word {
            return head;
        }
        match find_last_ws(&head) {
            Some(i) => {
                let r = vec_range(&head, 0, i);
                proof {
                    assert(r@ =~= head@.take(spec_last_ws(head@)));
                }
                r
            },
            None => head,
        }
    }
}

/// The text with its leading whitespace removed.
pub open spec fn spec_trim_front(s: Seq<char>) -> Seq<char>
    decreases s.len(),
{
    if s.len() > 0 && char_whitespace(s.first()) {
        spec_trim_front(s.drop_first())
    } else {
        s
    }
}

/// The text with its trailing whitespace removed.
pub open spec fn spec_trim_back(s: Seq<char>) -> Seq<char>
    decreases s.len(),
{
    if s.len() > 0 && char_whitespace(s.last()) {
        spec_trim_back(s.drop_last())
    } else {
        s
    }
}

/// The text with leading and trailing whitespace removed.
pub open spec fn spec_trim(s: Seq<char>) -> Seq<char> {
    spec_trim_back(spec_trim_front(s))
}

proof fn lemma_trim_front_skip(s: Seq<char>, i: int)
    requires
        0 <= i <= s.len(),
        forall|j: int| 0 <= j < i ==> char_whitespace(s[j]),
        i == s.len() || !char_whitespace(s[i]),
    ensures
        spec_trim_front(s) == s.skip(i),
    decreases i,
{
    if i == 0 {
        assert(s.skip(0) =~= s);
    } else {
        lemma_trim_front_skip(s.drop_first(), i - 1);
        assert(forall|j: int| 0 <= j < s.len() - 1 ==> s.drop_first()[j] == s[j + 1]);
        assert(s.drop_first().skip(i - 1) =~= s.skip(i));
    }
}

proof fn lemma_trim_back_take(s: Seq<char>, i: int)
    requires
        0 <= i <= s.len(),
        forall|j: int| i <= j < s.len() ==> char_whitespace(s[j]),
        i == 0 || !char_whitespace(s[i - 1]),
    ensures
        spec_trim_back(s) == s.take(i),
    decreases s.len() - i,
{
    if i == s.len() {
        if s.len() == 0 {
            assert(s.take(0) =~= s);
        } else {
            assert(s.take(s.len() as int) =~= s);
        }
    } else {
        lemma_trim_back_take(s.drop_last(), i);
        assert(forall|j: int| 0 <= j < s.len() - 1 ==> s.drop_last()[j] == s[j]);
        assert(s.drop_last().take(i) =~= s.take(i));
    }
}

fn first_non_space(v: &Vec<char>, from: usize) -> (r: usize)
    requires
        from <= v@.len(),
    ensures
        from <= r <= v@.len(),
        forall|j: int| from <= j < r ==> char_whitespace(v@[j]),
        r < v@.len() ==> !char_whitespace(v@[r as int]),
    decreases v@.len() - from,
{
    if from < v.len() && is_space(v[from]) {
        first_non_space(v, from + 1)
    } else {
        from
    }
}

fn last_non_space(v: &Vec<char>, upto: usize) -> (r: usize)
    requires
        upto <= v@.len(),
    ensures
        r <= upto,
        forall|j: int| r <= j < upto ==> char_whitespace(v@[j]),
        r > 0 ==> !char_whitespace(v@[r - 1]),
    decreases upto,
{
    if upto > 0 && is_space(v[upto - 1]) {
        last_non_space(v, upto - 1)
    } else {
        upto
    }
}

fn trim_chars(v: &Vec<char>) -> (r: Vec<char>)
    ensures
        r@ == spec_trim(v@),
{
    let lo = first_non_space(v, 0);
    if lo == v.len() {
        proof {
            lemma_trim_front_skip(v@, lo as int);
            assert(v@.skip(lo as int) =~= Seq::<char>::empty());
        }
        Vec::new()
    } else {
        let hi = last_non_space(v, v.len());
        assert(lo < hi);
        proof {
            lemma_trim_front_skip(v@, lo as int);
            let t = v@.skip(lo as int);
            assert(forall|j: int| 0 <= j < t.len() ==> t[j] == v@[j + lo]);
            lemma_trim_back_take(t, hi - lo);
            assert(t.take(hi - lo) =~= v@.subrange(lo as int, hi as int));
        }
        vec_range(v, lo, hi)
    }
}

/// The text, each character replaced by its lowercase mapping.
pub open spec fn spec_lower(s: Seq<char>) -> Seq<char>
    decreases s.len(),
{
    if s.len() == 0 {
        Seq::empty()
    } else {
        spec_lower(s.drop_last()) + char_lower(s.last())
    }
}

fn lower_chars(v: &Vec<char>) -> (r: Vec<char>)
    ensures
        r@ == spec_lower(v@),
        forall|j: int|
            0 <= j < v@.len() && !char_alphanumeric(v@[j]) ==> char_lower(#[trigger] v@[j])
                =~= seq![v@[j]],
{
    let mut out: Vec<char> = Vec::new();
    let mut i: usize = 0;
    while i < v.len()
        invariant
            i <= v@.len(),
            out@ == spec_lower(v@.take(i as int)),
            forall|j: int|
                0 <= j < i && !char_alphanumeric(v@[j]) ==> char_lower(#[trigger] v@[j])
                    =~= seq![v@[j]],
        decreases v@.len() - i,
    {
        let mut lc = lower_char(v[i]);
        out.append(&mut lc);
        i = i + 1;
        proof {
            assert(v@.take(i as int).drop_last() =~= v@.take(i - 1));
            assert(v@.take(i as int).last() == v@[i - 1]);
        }
    }
    proof {
        assert(v@.take(v@.len() as int) =~= v@);
    }
    out
}

/// Whether slugging keeps a character: alphanumeric and whitespace stay,
/// everything else is stripped.
pub open spec fn spec_keep(c: char) -> bool {
    char_alphanumeric(c) || char_whitespace(c)
}

/// The text with every stripped character removed.
pub open spec fn spec_filter_keep(s: Seq<char>) -> Seq<char>
    decreases s.len(),
{
    if s.len() == 0 {
        Seq::empty()
    } else {
        spec_filter_keep(s.drop_last()) + (if spec_keep(s.last()) {
            seq![s.last()]
        } else {
            Seq::<char>::empty()
        })
    }
}

fn filter_keep_chars(v: &Vec<char>) -> (r: Vec<char>)
    ensures
        r@ == spec_filter_keep(v@),
{
    let mut out: Vec<char> = Vec::new();
    let mut i: usize = 0;
    while i < v.len()
        invariant
            i <= v@.len(),
            out@ == spec_filter_keep(v@.take(i as int)),
        decreases v@.len() - i,
    {
        let c = v[i];
        if is_alnum(c) || is_space(c) {
            out.push(c);
        }
        i = i + 1;
        proof {
            assert(v@.take(i as int).drop_last() =~= v@.take(i - 1));
            assert(v@.take(i as int).last() == v@[i - 1]);
            assert(out@ =~= spec_filter_keep(v@.take(i as int)));
        }
    }
    proof {
        assert(v@.take(v@.len() as int) =~= v@);
    }
    out
}

/// The length of the leading run of non-separator characters.
pub open spec fn spec_word_end(s: Seq<char>, m: Sep) -> int
    decreases s.len(),
{
    if s.len() == 0 {
        0
    } else if spec_is_sep(m, s.first()) {
        0
    } else {
        1 + spec_word_end(s.drop_first(), m)
    }
}

proof fn lemma_word_end(s: Seq<char>, m: Sep)
    ensures
        0 <= spec_word_end(s, m) <= s.len(),
        forall|j: int| 0 <= j < spec_word_end(s, m) ==> !spec_is_sep(m, s[j]),
        spec_word_end(s, m) < s.len() ==> spec_is_sep(m, s[spec_word_end(s, m)]),
    decreases s.len(),
{
    if s.len() == 0 {
    } else if spec_is_sep(m, s.first()) {
    } else {
        lemma_word_end(s.drop_first(), m);
        assert(forall|j: int| 0 <= j < s.len() - 1 ==> s.drop_first()[j] == s[j + 1]);
        assert forall|j: int| 0 <= j < spec_word_end(s, m) implies !spec_is_sep(m, s[j]) by {
            if j > 0 {
                assert(s[j] == s.drop_first()[j - 1]);
            }
        }
    }
}

proof fn lemma_word_end_of(s: Seq<char>, m: Sep, e: int)
    requires
        0 <= e <= s.len(),
        forall|j: int| 0 <= j < e ==> !spec_is_sep(m, s[j]),
        e < s.len() ==> spec_is_sep(m, s[e]),
    ensures
        spec_word_end(s, m) == e,
    decreases e,
{
    if e == 0 {
    } else {
        lemma_word_end_of(s.drop_first(), m, e - 1);
        assert(forall|j: int| 0 <= j < s.len() - 1 ==> s.drop_first()[j] == s[j + 1]);
    }
}

/// The maximal runs of non-separator characters, in order: how a text is
/// split into words, with empty segments dropped.
pub open spec fn spec_words(s: Seq<char>, m: Sep) -> Seq<Seq<char>>
    decreases s.len(),
    via spec_words_decreases
{
    if s.len() == 0 {
        Seq::empty()
    } else if spec_is_sep(m, s.first()) {
        spec_words(s.drop_first(), m)
    } else {
        seq![s.take(spec_word_end(s, m))] + spec_words(s.skip(spec_word_end(s, m)), m)
    }
}

#[via_fn]
proof fn spec_words_decreases(s: Seq<char>, m: Sep) {
    if s.len() > 0 && !spec_is_sep(m, s.first()) {
        lemma_word_end(s, m);
    }
}

fn word_end_from(v: &Vec<char>, m: Sep, from: usize) -> (r: usize)
    requires
        from <= v@.len(),
    ensures
        from <= r <= v@.len(),
        forall|j: int| from <= j < r ==> !spec_is_sep(m, v@[j]),
        r < v@.len() ==> spec_is_sep(m, v@[r as int]),
    decreases v@.len() - from,
{
    if from < v.len() && !is_sep(m, v[from]) {
        word_end_from(v, m, from + 1)
    } else {
        from
    }
}

fn split_words(v: &Vec<char>, m: Sep) -> (r: Vec<Vec<char>>)
    ensures
        r.deep_view() == spec_words(v@, m),
{
    let mut out: Vec<Vec<char>> = Vec::new();
    let mut i: usize = 0;
    proof {
        assert(out.deep_view() =~~= Seq::<Seq<char>>::empty());
        assert(v@.skip(0) =~= v@);
    }
    while i < v.len()
        invariant
            i <= v@.len(),
            out.deep_view() + spec_words(v@.skip(i as int), m) =~~= spec_words(v@, m),
        decreases v@.len() - i,
    {
        if is_sep(m, v[i]) {
            proof {
                assert(v@.skip(i as int).len() > 0);
                assert(v@.skip(i as int).first() == v@[i as int]);
                assert(v@.skip(i as int).drop_first() =~= v@.skip(i + 1 as int));
            }
            i = i + 1;
        } else {
            let e = word_end_from(v, m, i);
            assert(e > i);
            let w = vec_range(v, i, e);
            proof {
                let rest = v@.skip(i as int);
                assert(forall|j: int| 0 <= j < rest.len() ==> rest[j] == v@[j + i]);
                lemma_word_end_of(rest, m, e - i);
                assert(rest.take(e - i) =~= v@.subrange(i as int, e as int));
                assert(rest.skip(e - i) =~= v@.skip(e as int));
                assert(spec_words(rest, m) =~~= seq![v@.subrange(i as int, e as int)]
                    + spec_words(v@.skip(e as int), m));
            }
            let ghost pre = out.deep_view();
            proof {
                assert(w.deep_view() =~= w@);
            }
            out.push(w);
            proof {
                assert(out.deep_view() =~~= pre.push(v@.subrange(i as int, e as int)));
            }
            i = e;
        }
    }
    proof {
        assert(v@.skip(v@.len() as int) =~= Seq::<char>::empty());
        assert(out.deep_view() =~~= spec_words(v@, m));
    }
    out
}

/// The words joined with a single dash between neighbours.
pub open spec fn spec_join_dash(ws: Seq<Seq<char>>) -> Seq<char>
    decreases ws.len(),
{
    if ws.len() == 0 {
        Seq::empty()
    } else if ws.len() == 1 {
        ws[0]
    } else {
        spec_join_dash(ws.drop_last()) + seq!['-'] + ws.last()
    }
}

fn join_dash(ws: &Vec<Vec<char>>) -> (r: Vec<char>)
    ensures
        r@ == spec_join_dash(ws.deep_view()),
{
    let ghost dv = ws.deep_view();
    proof {
        assert(dv.len() == ws@.len());
        assert(forall|k: int| 0 <= k < dv.len() ==> dv[k] == ws@[k].deep_view());
    }
    let mut out: Vec<char> = Vec::new();
    let mut k: usize = 0;
    while k < ws.len()
        invariant
            k <= ws@.len(),
            dv == ws.deep_view(),
            dv.len() == ws@.len(),
            forall|t: int| 0 <= t < dv.len() ==> dv[t] == ws@[t]@,
            out@ == spec_join_dash(dv.take(k as int)),
        decreases ws@.len() - k,
    {
        if k > 0 {
            out.push('-');
        }
        let w = &ws[k];
        let mut j: usize = 0;
        while j < w.len()
            invariant
                j <= w@.len(),
                k < ws@.len(),
                dv.len() == ws@.len(),
                forall|t: int| 0 <= t < dv.len() ==> dv[t] == ws@[t]@,
                w@ == ws@[k as int]@,
                out@ == spec_join_dash(dv.take(k as int)) + (if k > 0 {
                    seq!['-']
                } else {
                    Seq::<char>::empty()
                }) + w@.take(j as int),
            decreases w@.len() - j,
        {
            out.push(w[j]);
            j = j + 1;
            proof {
                assert(w@.take(j as int) =~= w@.take(j - 1).push(w@[j - 1]));
            }
        }
        k = k + 1;
        proof {
            assert(w@.take(w@.len() as int) =~= w@);
            assert(dv.take(k as int).drop_last() =~= dv.take(k - 1));
            assert(dv.take(k as int).last() == dv[k - 1]);
            if k == 1 {
                assert(out@ =~= dv[0]);
                assert(spec_join_dash(dv.take(1)) == dv.take(1)[0]);
            }
            assert(out@ =~= spec_join_dash(dv.take(k as int)));
        }
    }
    proof {
        assert(dv.take(dv.len() as int) =~= dv);
    }
    out
}

/// The slugged form of an already-truncated title: trimmed, lowercased,
/// stripped to alphanumerics and whitespace, split on whitespace, and
/// joined with dashes.
pub open spec fn spec_dash_case(s: Seq<char>) -> Seq<char> {
    spec_join_dash(spec_words(spec_filter_keep(spec_lower(spec_trim(s))), Sep::Space))
}

/// The slugged title component of a branch name.
pub open spec fn spec_slug(s: Seq<char>, max: int) -> Seq<char> {
    if max == 0 {
        Seq::empty()
    } else {
        spec_dash_case(spec_truncate(s, max))
    }
}

/// Whether a character survives neither as a word character nor as a
/// separator: it is stripped by slugging.
pub open spec fn spec_stripped(c: char) -> bool {
    !char_alphanumeric(c) && !char_whitespace(c)
}

proof fn lemma_truncate_prefix(s: Seq<char>, max: int)
    requires
        max >= 0,
    ensures
        spec_truncate(s, max).len() <= s.len(),
        spec_truncate(s, max) =~= s.take(spec_truncate(s, max).len() as int),
{
    if s.len() <= max {
        assert(s.take(s.len() as int) =~= s);
    } else {
        let head = s.take(max);
        lemma_last_ws(head);
        if spec_cut_mid_word(s, max) && spec_last_ws(head) >= 0 {
            assert(head.take(spec_last_ws(head)) =~= s.take(spec_last_ws(head)));
        }
    }
}

proof fn lemma_trim_front_stripped(s: Seq<char>)
    requires
        forall|j: int| 0 <= j < s.len() ==> spec_stripped(#[trigger] s[j]),
    ensures
        spec_trim_front(s) == s,
{
    if s.len() > 0 && char_whitespace(s.first()) {
        assert(spec_stripped(s[0]));
        assert(false);
    }
}

proof fn lemma_trim_back_stripped(s: Seq<char>)
    requires
        forall|j: int| 0 <= j < s.len() ==> spec_stripped(#[trigger] s[j]),
    ensures
        spec_trim_back(s) == s,
{
    if s.len() > 0 && char_whitespace(s.last()) {
        assert(spec_stripped(s[s.len() - 1]));
        assert(false);
    }
}

proof fn lemma_lower_pointwise_id(s: Seq<char>)
    requires
        forall|j: int| 0 <= j < s.len() ==> char_lower(#[trigger] s[j]) == seq![s[j]],
    ensures
        spec_lower(s) == s,
    decreases s.len(),
{
    if s.len() > 0 {
        lemma_lower_pointwise_id(s.drop_last());
        assert(char_lower(s.last()) == seq![s[s.len() - 1]]);
        assert(s.drop_last() + seq![s.last()] =~= s);
    }
}

proof fn lemma_filter_none(s: Seq<char>)
    requires
        forall|j: int| 0 <= j < s.len() ==> !spec_keep(#[trigger] s[j]),
    ensures
        spec_filter_keep(s) == Seq::<char>::empty(),
    decreases s.len(),
{
    if s.len() > 0 {
        lemma_filter_none(s.drop_last());
        assert(!spec_keep(s[s.len() - 1]));
        assert(spec_filter_keep(s) =~= Seq::<char>::empty());
    }
}

/// A title whose characters are all stripped (neither alphanumeric nor
/// whitespace) slugs to the empty text, provided each of those characters
/// is its own lowercase mapping.
proof fn lemma_dash_case_stripped_empty(t: Seq<char>)
    requires
        forall|j: int| 0 <= j < t.len() ==> spec_stripped(#[trigger] t[j]),
        forall|j: int| 0 <= j < t.len() ==> char_lower(#[trigger] t[j]) == seq![t[j]],
    ensures
        spec_dash_case(t) == Seq::<char>::empty(),
{
    lemma_trim_front_stripped(t);
    lemma_trim_back_stripped(t);
    lemma_lower_pointwise_id(t);
    assert(forall|j: int| 0 <= j < t.len() ==> !spec_keep(#[trigger] t[j]));
    lemma_filter_none(t);
}

/// A title made only of stripped characters (neither alphanumeric nor
/// whitespace) slugs to the empty text, and the branch name still comes
/// out defined: the decimal number followed by a dash. The last
/// hypothesis is exactly what the trusted lowercase wrapper supplies: a
/// character that is not alphanumeric is its own lowercase mapping.
pub proof fn lemma_stripped_title_keeps_bare_number(n: int, title: Seq<char>, max: int)
    ensures
        (max >= 0 && (forall|j: int| 0 <= j < title.len() ==> spec_stripped(#[trigger] title[j]))
            && (forall|j: int|
            0 <= j < title.len() ==> char_lower(#[trigger] title[j]) == seq![title[j]])) ==> (
        spec_slug(title, max) == Seq::<char>::empty() && spec_branch_name(n, title, max)
            =~= spec_decimal(n) + seq!['-']),
{
    if max >= 0 && (forall|j: int| 0 <= j < title.len() ==> spec_stripped(#[trigger] title[j]))
        && (forall|j: int|
        0 <= j < title.len() ==> char_lower(#[trigger] title[j]) == seq![title[j]]) {
        if max != 0 {
            lemma_truncate_prefix(title, max);
            let t1 = spec_truncate(title, max);
            assert forall|j: int| 0 <= j < t1.len() implies spec_stripped(#[trigger] t1[j])
                && char_lower(t1[j]) == seq![t1[j]] by {
                assert(t1[j] == title[j]);
            }
            lemma_trim_front_stripped(t1);
            lemma_trim_back_stripped(t1);
            assert(spec_trim(t1) == t1);
            lemma_dash_case_stripped_empty(t1);
        }
    }
}

/// The slug of a title, exactly as the branch name uses it: truncate to
/// at most `max_length` characters, backing off to the last whitespace
/// when the cut lands mid-word; then trim, lowercase, strip everything
/// but alphanumerics and whitespace, and join the remaining words with
/// dashes. A title made only of stripped characters (punctuation and
/// other symbols) slugs to the empty string.
pub fn truncate_and_dash_case(input: &str, max_length: usize) -> (r: String)
    ensures
        r@ == spec_slug(input@, max_length as int),
        (forall|j: int| 0 <= j < input@.len() ==> spec_stripped(#[trigger] input@[j])) ==> r@
            =~= Seq::<char>::empty(),
{
    if max_length == 0 {
        return String::new();
    }
    let v = chars_of_str(input);
    let t1 = truncate_chars(&v, max_length);
    let t2 = trim_chars(&t1);
    let t3 = lower_chars(&t2);
    let t4 = filter_keep_chars(&t3);
    let ws = split_words(&t4, Sep::Space);
    let j = join_dash(&ws);
    let r = string_of_chars(&j);
    proof {
        if forall|j: int| 0 <= j < input@.len() ==> spec_stripped(#[trigger] input@[j]) {
            lemma_truncate_prefix(input@, max_length as int);
            assert(forall|j: int| 0 <= j < t1@.len() ==> spec_stripped(#[trigger] t1@[j]));
            lemma_trim_front_skip(t1@, 0);
            assert(t1@.skip(0) =~= t1@);
            lemma_trim_back_stripped(t1@);
            assert(t2@ == t1@);
            assert(forall|j: int| 0 <= j < t2@.len() ==> spec_stripped(#[trigger] t2@[j]));
            assert(forall|j: int| 0 <= j < t2@.len() ==> char_lower(#[trigger] t2@[j]) == seq![
                t2@[j],
            ]);
            lemma_dash_case_stripped_empty(t2@);
        }
    }
    r
}

/// The branch name derived from an issue: the decimal issue number, a
/// dash, and the slugged title.
pub open spec fn spec_branch_name(n: int, title: Seq<char>, max: int) -> Seq<char> {
    spec_decimal(n) + seq!['-'] + spec_slug(title, max)
}

/// Derives the branch name for an issue. A title made only of stripped
/// characters still yields a defined name: the number followed by a dash.
pub fn branch_name(issue_number: u64, title: &str, max_length: usize) -> (r: String)
    ensures
        r@ == spec_branch_name(issue_number as int, title@, max_length as int),
        (forall|j: int| 0 <= j < title@.len() ==> spec_stripped(#[trigger] title@[j])) ==> r@
            =~= spec_decimal(issue_number as int) + seq!['-'],
{
    let mut out: Vec<char> = Vec::new();
    push_decimal(issue_number, &mut out);
    out.push('-');
    let slug = truncate_and_dash_case(title, max_length);
    let mut sc = chars_of_str(slug.as_str());
    out.append(&mut sc);
    proof {
        assert(out@ =~= spec_branch_name(
            issue_number as int,
            title@,
            max_length as int,
        ));
    }
    string_of_chars(&out)
}

/// With a zero length budget the title component is empty: the branch name
/// degenerates to the decimal number and a dash.
pub proof fn lemma_zero_max_empty_title(n: int, title: Seq<char>)
    ensures
        spec_slug(title, 0) == Seq::<char>::empty(),
        spec_branch_name(n, title, 0) =~= spec_decimal(n) + seq!['-'],
{
}

/// A title already within the length budget is not truncated: slugging
/// alone is applied.
pub proof fn lemma_short_title_not_truncated(title: Seq<char>, max: int)
    requires
        title.len() <= max,
    ensures
        spec_truncate(title, max) == title,
        max != 0 ==> spec_slug(title, max) == spec_dash_case(title),
{
}

/// Branch naming is a pure function: the same number, title and length
/// budget always name the same branch.
pub proof fn lemma_branch_name_deterministic(
    n: int,
    title: Seq<char>,
    max: int,
    r1: Seq<char>,
    r2: Seq<char>,
)
    requires
        r1 == spec_branch_name(n, title, max),
        r2 == spec_branch_name(n, title, max),
    ensures
        r1 == r2,
{
}

/// The labels a GitHub issue is given: the input split on commas and
/// whitespace, with empty segments dropped.
pub open spec fn spec_github_labels(s: Seq<char>) -> Seq<Seq<char>> {
    spec_words(s, Sep::SpaceOrComma)
}

/// Splits a comma- or whitespace-separated label list into labels.
pub fn split_on_comma_and_whitespace(labels: &str) -> (r: Vec<String>)
    ensures
        r.deep_view() == spec_github_labels(labels@),
{
    let v = chars_of_str(labels);
    let ws = split_words(&v, Sep::SpaceOrComma);
    strings_of_words(ws)
}

/// Each word trimmed, with the words that trim to nothing dropped.
pub open spec fn spec_trimmed_nonempty(ws: Seq<Seq<char>>) -> Seq<Seq<char>>
    decreases ws.len(),
{
    if ws.len() == 0 {
        Seq::empty()
    } else {
        spec_trimmed_nonempty(ws.drop_last()) + (if spec_trim(ws.last()).len() > 0 {
            seq![spec_trim(ws.last())]
        } else {
            Seq::<Seq<char>>::empty()
        })
    }
}

/// The labels a GitLab issue is given: the input split on commas, each
/// piece trimmed, and empty pieces dropped.
pub open spec fn spec_gitlab_labels(s: Seq<char>) -> Seq<Seq<char>> {
    spec_trimmed_nonempty(spec_words(s, Sep::Comma))
}

/// Splits a comma-separated label list into trimmed, non-empty labels.
pub fn split_on_commas_trimmed(labels: &str) -> (r: Vec<String>)
    ensures
        r.deep_view() == spec_gitlab_labels(labels@),
{
    let v = chars_of_str(labels);
    let ws = split_words(&v, Sep::Comma);
    let ghost dv = ws.deep_view();
    let mut out: Vec<String> = Vec::new();
    let mut k: usize = 0;
    proof {
        assert(out.deep_view() =~~= spec_trimmed_nonempty(dv.take(0)));
    }
    while k < ws.len()
        invariant
            k <= ws@.len(),
            dv == ws.deep_view(),
            dv.len() == ws@.len(),
            forall|t: int| 0 <= t < dv.len() ==> dv[t] == ws@[t]@,
            out.deep_view() =~~= spec_trimmed_nonempty(dv.take(k as int)),
        decreases ws@.len() - k,
    {
        let w = &ws[k];
        let t = trim_chars(w);
        let ghost pre = out.deep_view();
        if t.len() > 0 {
            out.push(string_of_chars(&t));
            proof {
                assert(out.deep_view() =~~= pre.push(t@));
            }
        }
        k = k + 1;
        proof {
            assert(dv.take(k as int).drop_last() =~= dv.take(k - 1));
            assert(dv.take(k as int).last() == dv[k - 1]);
            assert(out.deep_view() =~~= spec_trimmed_nonempty(dv.take(k as int)));
        }
    }
    proof {
        assert(dv.take(dv.len() as int) =~= dv);
    }
    out
}

fn strings_of_words(ws: Vec<Vec<char>>) -> (r: Vec<String>)
    ensures
        r.deep_view() == ws.deep_view(),
{
    let ghost dv = ws.deep_view();
    let mut out: Vec<String> = Vec::new();
    let mut k: usize = 0;
    while k < ws.len()
        invariant
            k <= ws@.len(),
            dv == ws.deep_view(),
            dv.len() == ws@.len(),
            forall|t: int| 0 <= t < dv.len() ==> dv[t] == ws@[t]@,
            out.deep_view() =~~= dv.take(k as int),
        decreases ws@.len() - k,
    {
        let ghost pre = out.deep_view();
        let s = string_of_chars(&ws[k]);
        out.push(s);
        k = k + 1;
        proof {
            assert(out.deep_view() =~~= pre.push(dv[k - 1]));
            assert(dv.take(k as int) =~~= dv.take(k - 1).push(dv[k - 1]));
        }
    }
    proof {
        assert(dv.take(dv.len() as int) =~= dv);
    }
    out
}

} // verus!
