use vstd::prelude::*;

verus! {

/// `needle` stands in `hay` at offset `i`, as a contiguous run of characters.
pub open spec fn occurs_at(hay: Seq<char>, needle: Seq<char>, i: int) -> bool {
    &&& 0 <= i
    &&& i + needle.len() <= hay.len()
    &&& hay.subrange(i, i + needle.len()) == needle
}

/// `needle` is a contiguous substring of `hay`.
pub open spec fn contains(hay: Seq<char>, needle: Seq<char>) -> bool {
    exists|i: int| occurs_at(hay, needle, i)
}

/// The characters of `s`, in order.
pub fn chars_of(s: &str) -> (v: Vec<char>)
    ensures
        v@ == s@,
{
    let mut v: Vec<char> = Vec::new();
    let chars = s.chars();
    for c in it: chars
        invariant
            it.seq() == s@,
            v@ == s@.take(it.index()),
    {
        v.push(c);
    }
    v
}

/// Whether `needle` stands in `hay` at offset `at`.
fn matches_at(hay: &Vec<char>, needle: &Vec<char>, at: usize) -> (b: bool)
    requires
        at + needle.len() <= hay.len(),
    ensures
        b == occurs_at(hay@, needle@, at as int),
{
    let mut k: usize = 0;
    while k < needle.len()
        invariant
            k <= needle.len(),
            at + needle.len() <= hay.len(),
            forall|j: int| 0 <= j < k ==> hay@[at + j] == needle@[j],
        decreases needle.len() - k,
    {
        if hay[at + k] != needle[k] {
            proof {
                let window = hay@.subrange(at as int, at + needle.len());
                assert(window[k as int] == hay@[at + k]);
            }
            return false;
        }
        k += 1;
    }
    assert(hay@.subrange(at as int, at + needle.len()) =~= needle@);
    true
}

/// Substring search on character vectors.
pub fn contains_chars(hay: &Vec<char>, needle: &Vec<char>) -> (b: bool)
    ensures
        b == contains(hay@, needle@),
{
    if needle.len() > hay.len() {
        return false;
    }
    let last: usize = hay.len() - needle.len();
    let mut at: usize = 0;
    loop
        invariant
            last == hay.len() - needle.len(),
            at <= last,
            forall|i: int| 0 <= i < at ==> !occurs_at(hay@, needle@, i),
        decreases last - at,
    {
        if matches_at(hay, needle, at) {
            return true;
        }
        if at == last {
            return false;
        }
        at += 1;
    }
}

/// Whether `needle` is a contiguous substring of `hay`. The empty string is a
/// substring of every string.
pub fn contains_text(hay: &str, needle: &str) -> (b: bool)
    ensures
        b == contains(hay@, needle@),
{
    let h = chars_of(hay);
    let n = chars_of(needle);
    contains_chars(&h, &n)
}

/// The last `n` characters of `s`, or all of `s` where it has no more than `n`.
pub open spec fn last_chars(s: Seq<char>, n: int) -> Seq<char> {
    if s.len() <= n {
        s
    } else {
        s.subrange(s.len() - n, s.len() as int)
    }
}

/// The trailing window of a text: its last `n` characters, counted as
/// characters and not as bytes. A text shorter than the window is returned
/// whole, and a window of zero characters is empty.
pub fn last_n_chars(string: &str, n: usize) -> (tail: String)
    ensures
        tail@ == last_chars(string@, n as int),
{
    let len = string.unicode_len();
    if len <= n {
        string.to_owned()
    } else {
        string.substring_char(len - n, len).to_owned()
    }
}

/// `s` without the newline characters at its end.
pub open spec fn trimmed(s: Seq<char>) -> Seq<char>
    decreases s.len(),
{
    if s.len() > 0 && s.last() == '\n' {
        trimmed(s.drop_last())
    } else {
        s
    }
}

/// `trimmed(s)` is the one prefix of `s` that does not end in a newline and
/// is followed by newlines only.
pub proof fn lemma_trimmed_is_prefix(s: Seq<char>, keep: int)
    requires
        0 <= keep <= s.len(),
        keep == 0 || s[keep - 1] != '\n',
        forall|j: int| keep <= j < s.len() ==> s[j] == '\n',
    ensures
        trimmed(s) == s.subrange(0, keep),
    decreases s.len(),
{
    if keep == s.len() {
        assert(s.subrange(0, keep) =~= s);
    } else {
        let shorter = s.drop_last();
        lemma_trimmed_is_prefix(shorter, keep);
        assert(shorter.subrange(0, keep) =~= s.subrange(0, keep));
    }
}

/// A text without a newline at its end is left as it is.
pub proof fn lemma_trimmed_keeps_clean_text(s: Seq<char>)
    requires
        s.len() == 0 || s.last() != '\n',
    ensures
        trimmed(s) == s,
{
}

/// A trimmed text does not end in a newline.
pub proof fn lemma_trimmed_is_clean(s: Seq<char>)
    ensures
        trimmed(s).len() == 0 || trimmed(s).last() != '\n',
        trimmed(s).len() <= s.len(),
    decreases s.len(),
{
    if s.len() > 0 && s.last() == '\n' {
        lemma_trimmed_is_clean(s.drop_last());
    }
}

/// Trimming twice is trimming once.
pub proof fn lemma_trimmed_idempotent(s: Seq<char>)
    ensures
        trimmed(trimmed(s)) == trimmed(s),
{
    lemma_trimmed_is_clean(s);
    lemma_trimmed_keeps_clean_text(trimmed(s));
}

/// A marker that lies within the last `window` characters of a text lies in
/// its trailing window.
pub proof fn lemma_window_holds_recent(text: Seq<char>, needle: Seq<char>, at: int, window: int)
    requires
        occurs_at(text, needle, at),
        text.len() - at <= window,
    ensures
        contains(last_chars(text, window), needle),
{
    let tail = last_chars(text, window);
    let skipped = text.len() - tail.len();
    assert(tail.subrange(at - skipped, at - skipped + needle.len()) =~= text.subrange(
        at,
        at + needle.len(),
    ));
    assert(occurs_at(tail, needle, at - skipped));
}

/// Removes every newline at the end of `string` and nothing else: the result
/// is the longest prefix of `string` that does not end in a newline.
pub fn trim_trailing_newlines(string: &str) -> (out: String)
    ensures
        out@ == trimmed(string@),
        out@.len() <= string@.len(),
        out@ == string@.subrange(0, out@.len() as int),
        out@.len() == 0 || out@.last() != '\n',
        forall|j: int| out@.len() <= j < string@.len() ==> string@[j] == '\n',
{
    let len = string.unicode_len();
    let mut keep: usize = 0;
    let mut seen: usize = 0;
    let chars = string.chars();
    for c in it: chars
        invariant
            it.seq() == string@,
            string@.len() == len,
            seen == it.index(),
            keep <= seen,
            keep == 0 || string@[keep - 1] != '\n',
            forall|j: int| keep <= j < seen ==> string@[j] == '\n',
    {
        seen = seen + 1;
        if c != '\n' {
            keep = seen;
        }
    }
    proof {
        lemma_trimmed_is_prefix(string@, keep as int);
    }
    string.substring_char(0, keep).to_owned()
}

} // verus!
