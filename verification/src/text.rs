//! Verified text utilities: whitespace trimming and markdown code-fence
//! stripping, the two transformations applied to every completion answer
//! before it is stored or persisted.

use vstd::prelude::*;
use vstd::string::StrSliceExecFns;

verus! {

/// The whitespace characters that [`trim_text`] removes: blank, tab,
/// line feed and carriage return.
pub open spec fn is_space_char(c: char) -> bool {
    c == ' ' || c == '\t' || c == '\n' || c == '\r'
}

pub open spec fn trim_front_spec(s: Seq<char>) -> Seq<char>
    decreases s.len(),
{
    if s.len() > 0 && is_space_char(s[0]) {
        trim_front_spec(s.drop_first())
    } else {
        s
    }
}

pub open spec fn trim_back_spec(s: Seq<char>) -> Seq<char>
    decreases s.len(),
{
    if s.len() > 0 && is_space_char(s.last()) {
        trim_back_spec(s.drop_last())
    } else {
        s
    }
}

/// The text with all surrounding whitespace removed.
pub open spec fn trim_spec(s: Seq<char>) -> Seq<char> {
    trim_back_spec(trim_front_spec(s))
}

proof fn lemma_trim_front_skip(s: Seq<char>, i: int)
    requires
        0 <= i <= s.len(),
        forall|k: int| 0 <= k < i ==> is_space_char(s[k]),
        i < s.len() ==> !is_space_char(s[i]),
    ensures
        trim_front_spec(s) == s.skip(i),
    decreases i,
{
    if i == 0 {
        assert(s.skip(0) =~= s);
    } else {
        assert(is_space_char(s[0]));
        let t = s.drop_first();
        assert(forall|k: int| 0 <= k < i - 1 ==> is_space_char(#[trigger] t[k])) by {
            assert(forall|k: int| 0 <= k < i - 1 ==> #[trigger] t[k] == s[k + 1]);
        }
        assert(i - 1 < t.len() ==> !is_space_char(t[i - 1]));
        lemma_trim_front_skip(t, i - 1);
        assert(t.skip(i - 1) =~= s.skip(i));
    }
}

proof fn lemma_trim_back_take(s: Seq<char>, j: int)
    requires
        0 <= j <= s.len(),
        forall|k: int| j <= k < s.len() ==> is_space_char(s[k]),
        j > 0 ==> !is_space_char(s[j - 1]),
    ensures
        trim_back_spec(s) == s.take(j),
    decreases s.len() - j,
{
    if j == s.len() {
        assert(s.take(j) =~= s);
    } else {
        assert(is_space_char(s[s.len() - 1]));
        let t = s.drop_last();
        assert(forall|k: int| j <= k < t.len() ==> is_space_char(#[trigger] t[k])) by {
            assert(forall|k: int| 0 <= k < t.len() ==> #[trigger] t[k] == s[k]);
        }
        lemma_trim_back_take(t, j);
        assert(t.take(j) =~= s.take(j));
    }
}

proof fn lemma_trim_front_keeps_nonspace(s: Seq<char>)
    requires
        exists|j: int| 0 <= j < s.len() && !is_space_char(s[j]),
    ensures
        trim_front_spec(s).len() > 0,
        !is_space_char(trim_front_spec(s)[0]),
    decreases s.len(),
{
    let j = choose|j: int| 0 <= j < s.len() && !is_space_char(s[j]);
    if is_space_char(s[0]) {
        let t = s.drop_first();
        assert(0 <= j - 1 < t.len() && !is_space_char(t[j - 1]));
        lemma_trim_front_keeps_nonspace(t);
    }
}

proof fn lemma_trim_back_keeps_nonspace(s: Seq<char>)
    requires
        exists|j: int| 0 <= j < s.len() && !is_space_char(s[j]),
    ensures
        trim_back_spec(s).len() > 0,
        !is_space_char(trim_back_spec(s).last()),
    decreases s.len(),
{
    let j = choose|j: int| 0 <= j < s.len() && !is_space_char(s[j]);
    if is_space_char(s.last()) {
        let t = s.drop_last();
        assert(0 <= j < t.len() && !is_space_char(t[j]));
        lemma_trim_back_keeps_nonspace(t);
    }
}

proof fn lemma_trim_back_is_take(s: Seq<char>)
    ensures
        exists|k: int| 0 <= k <= s.len() && trim_back_spec(s) == s.take(k),
    decreases s.len(),
{
    if s.len() > 0 && is_space_char(s.last()) {
        let t = s.drop_last();
        lemma_trim_back_is_take(t);
        let k = choose|k: int| 0 <= k <= t.len() && trim_back_spec(t) == t.take(k);
        assert(t.take(k) =~= s.take(k));
        assert(0 <= k <= s.len() && trim_back_spec(s) == s.take(k));
    } else {
        assert(s.take(s.len() as int) =~= s);
        assert(trim_back_spec(s) == s.take(s.len() as int));
    }
}

/// Trimming keeps at least one character whenever the input holds any
/// non-whitespace character.
pub proof fn lemma_trim_nonempty(s: Seq<char>)
    requires
        exists|j: int| 0 <= j < s.len() && !is_space_char(s[j]),
    ensures
        trim_spec(s).len() > 0,
{
    lemma_trim_front_keeps_nonspace(s);
    let t = trim_front_spec(s);
    assert(0 <= 0 < t.len() && !is_space_char(t[0]));
    lemma_trim_back_keeps_nonspace(t);
}

/// Trimming is idempotent: trimming already-trimmed text changes nothing.
pub proof fn lemma_trim_idempotent(s: Seq<char>)
    ensures
        trim_spec(trim_spec(s)) == trim_spec(s),
{
    let f = trim_front_spec(s);
    let t = trim_spec(s);
    if t.len() == 0 {
        assert(trim_front_spec(t) == t);
        assert(trim_back_spec(t) == t);
    } else {
        lemma_trim_back_is_take(f);
        let k = choose|k: int| 0 <= k <= f.len() && trim_back_spec(f) == f.take(k);
        if is_space_char(t[0]) {
            // t[0] is f[0], and f = trim_front_spec(s) never begins with
            // whitespace: contradiction.
            assert(t == f.take(k));
            assert(t[0] == f[0]);
            lemma_trim_front_fixed(s);
            assert(false);
        }
        assert(trim_front_spec(t) == t);
        lemma_trim_back_fixed(f);
        assert(!is_space_char(t.last()));
        assert(trim_back_spec(t) == t);
    }
}

/// `trim_front_spec(s)` never begins with a whitespace character.
proof fn lemma_trim_front_fixed(s: Seq<char>)
    ensures
        trim_front_spec(s).len() > 0 ==> !is_space_char(trim_front_spec(s)[0]),
    decreases s.len(),
{
    if s.len() > 0 && is_space_char(s[0]) {
        lemma_trim_front_fixed(s.drop_first());
    }
}

/// `trim_back_spec(s)` never ends with a whitespace character.
proof fn lemma_trim_back_fixed(s: Seq<char>)
    ensures
        trim_back_spec(s).len() > 0 ==> !is_space_char(trim_back_spec(s).last()),
    decreases s.len(),
{
    if s.len() > 0 && is_space_char(s.last()) {
        lemma_trim_back_fixed(s.drop_last());
    }
}

fn is_space(c: char) -> (r: bool)
    ensures
        r == is_space_char(c),
{
    c == ' ' || c == '\t' || c == '\n' || c == '\r'
}

/// The text with surrounding whitespace removed, as every completion answer
/// is normalized before use.
pub fn trim_text(s: &str) -> (r: String)
    ensures
        r@ == trim_spec(s@),
{
    let n = s.unicode_len();
    let mut i: usize = 0;
    while i < n && is_space(s.get_char(i))
        invariant
            0 <= i <= n,
            n == s@.len(),
            forall|k: int| 0 <= k < i ==> is_space_char(s@[k]),
        decreases n - i,
    {
        i = i + 1;
    }
    if i == n {
        proof {
            lemma_trim_front_skip(s@, n as int);
            assert(s@.skip(n as int) =~= Seq::<char>::empty());
            assert(trim_back_spec(Seq::<char>::empty()) == Seq::<char>::empty());
        }
        String::new()
    } else {
        let mut j: usize = n;
        while j > i && is_space(s.get_char(j - 1))
            invariant
                i < j <= n,
                n == s@.len(),
                i < n,
                !is_space_char(s@[i as int]),
                forall|k: int| j <= k < n ==> is_space_char(s@[k]),
        decreases j,
        {
            proof {
                // the loop never passes the non-space character at `i`
                assert(j - 1 != i);
            }
            j = j - 1;
        }
        proof {
            lemma_trim_front_skip(s@, i as int);
            let mid = s@.skip(i as int);
            assert(forall|k: int| j - i <= k < mid.len() ==> is_space_char(#[trigger] mid[k])) by {
                assert(forall|k: int| 0 <= k < mid.len() ==> #[trigger] mid[k] == s@[k + i]);
            }
            assert(j - i > 0 ==> !is_space_char(mid[j - i - 1])) by {
                assert(mid[j - i - 1] == s@[j - 1]);
            }
            lemma_trim_back_take(mid, j - i);
            assert(mid.take(j - i) =~= s@.subrange(i as int, j as int));
        }
        let piece = s.substring_char(i, j);
        piece.to_owned()
    }
}

// --- markdown code fences ---

/// The plain fence marker: three backticks.
pub open spec fn fence_seq() -> Seq<char> {
    seq!['`', '`', '`']
}

/// The language-tagged fence marker that generated code arrives wrapped in.
pub open spec fn rust_fence_seq() -> Seq<char> {
    seq!['`', '`', '`', 'r', 'u', 's', 't']
}

pub open spec fn has_prefix(s: Seq<char>, p: Seq<char>) -> bool {
    p.len() <= s.len() && s.subrange(0, p.len() as int) == p
}

pub open spec fn has_suffix(s: Seq<char>, p: Seq<char>) -> bool {
    p.len() <= s.len() && s.subrange(s.len() - p.len(), s.len() as int) == p
}

/// Removes every leading repetition of `p`, as the original marker removal
/// does for the start of the text.
pub open spec fn strip_prefix_reps(s: Seq<char>, p: Seq<char>) -> Seq<char>
    decreases s.len(),
{
    if p.len() > 0 && has_prefix(s, p) {
        strip_prefix_reps(s.skip(p.len() as int), p)
    } else {
        s
    }
}

/// Removes every trailing repetition of `p`.
pub open spec fn strip_suffix_reps(s: Seq<char>, p: Seq<char>) -> Seq<char>
    decreases s.len(),
{
    if p.len() > 0 && has_suffix(s, p) {
        strip_suffix_reps(s.take(s.len() - p.len()), p)
    } else {
        s
    }
}

/// The code-fence stripping applied to generated code before it is written
/// out: all leading ```` ```rust ```` markers, then all remaining leading
/// ```` ``` ```` markers, then all trailing ```` ``` ```` markers.
pub open spec fn strip_fences_spec(s: Seq<char>) -> Seq<char> {
    strip_suffix_reps(
        strip_prefix_reps(strip_prefix_reps(s, rust_fence_seq()), fence_seq()),
        fence_seq(),
    )
}

proof fn lemma_strip_prefix_no_prefix(s: Seq<char>, p: Seq<char>)
    requires
        p.len() > 0,
    ensures
        !has_prefix(strip_prefix_reps(s, p), p),
    decreases s.len(),
{
    if has_prefix(s, p) {
        lemma_strip_prefix_no_prefix(s.skip(p.len() as int), p);
    }
}

proof fn lemma_strip_suffix_no_suffix(s: Seq<char>, p: Seq<char>)
    requires
        p.len() > 0,
    ensures
        !has_suffix(strip_suffix_reps(s, p), p),
    decreases s.len(),
{
    if has_suffix(s, p) {
        lemma_strip_suffix_no_suffix(s.take(s.len() - p.len()), p);
    }
}

proof fn lemma_strip_suffix_is_take(s: Seq<char>, p: Seq<char>)
    ensures
        exists|k: int| 0 <= k <= s.len() && strip_suffix_reps(s, p) == s.take(k),
    decreases s.len(),
{
    if p.len() > 0 && has_suffix(s, p) {
        let t = s.take(s.len() - p.len());
        lemma_strip_suffix_is_take(t, p);
        let k = choose|k: int| 0 <= k <= t.len() && strip_suffix_reps(t, p) == t.take(k);
        assert(t.take(k) =~= s.take(k));
        assert(0 <= k <= s.len() && strip_suffix_reps(s, p) == s.take(k));
    } else {
        assert(s.take(s.len() as int) =~= s);
        assert(strip_suffix_reps(s, p) == s.take(s.len() as int));
    }
}

proof fn lemma_no_fence_prefix_no_rust_prefix(s: Seq<char>)
    requires
        !has_prefix(s, fence_seq()),
    ensures
        !has_prefix(s, rust_fence_seq()),
{
    if has_prefix(s, rust_fence_seq()) {
        assert(s.subrange(0, 3) =~= fence_seq()) by {
            assert(s.subrange(0, 7) == rust_fence_seq());
            assert(s[0] == rust_fence_seq()[0] && s[1] == rust_fence_seq()[1] && s[2]
                == rust_fence_seq()[2]);
        }
    }
}

/// Code-fence stripping is idempotent: stripping text that has already been
/// stripped leaves it unchanged.
pub proof fn lemma_strip_fences_idempotent(s: Seq<char>)
    ensures
        strip_fences_spec(strip_fences_spec(s)) == strip_fences_spec(s),
{
    let a = strip_prefix_reps(s, rust_fence_seq());
    let b = strip_prefix_reps(a, fence_seq());
    let c = strip_suffix_reps(b, fence_seq());
    lemma_strip_prefix_no_prefix(a, fence_seq());
    lemma_strip_suffix_no_suffix(b, fence_seq());
    lemma_strip_suffix_is_take(b, fence_seq());
    let k = choose|k: int| 0 <= k <= b.len() && c == b.take(k);
    assert(!has_prefix(c, fence_seq())) by {
        if has_prefix(c, fence_seq()) {
            assert(c.subrange(0, 3) =~= b.subrange(0, 3));
            assert(has_prefix(b, fence_seq()));
        }
    }
    lemma_no_fence_prefix_no_rust_prefix(c);
    assert(strip_prefix_reps(c, rust_fence_seq()) == c);
    assert(strip_prefix_reps(c, fence_seq()) == c);
    assert(strip_suffix_reps(c, fence_seq()) == c);
}

/// The word that distinguishes a language-tagged fence from a plain one.
pub open spec fn rust_word_seq() -> Seq<char> {
    seq!['r', 'u', 's', 't']
}

/// Stripping recovers the inner text from input wrapped in
/// ```` ```rust ... ``` ```` or in plain ```` ``` ... ``` ```` markers,
/// provided the inner text does not itself begin or end with a backtick and
/// does not begin with the word `rust`.
pub proof fn lemma_strip_fences_wrapped(inner: Seq<char>)
    requires
        inner.len() > 0 ==> inner[0] != '`',
        inner.len() > 0 ==> inner[inner.len() - 1] != '`',
        !has_prefix(inner, rust_word_seq()),
    ensures
        strip_fences_spec(rust_fence_seq() + inner + fence_seq()) == inner,
        strip_fences_spec(fence_seq() + inner + fence_seq()) == inner,
{
    lemma_strip_wrapped_rust(inner);
    lemma_strip_wrapped_plain(inner);
}

/// Once the opening marker is gone, what is left is the inner text followed
/// by the closing marker; stripping it yields the inner text alone.
proof fn lemma_strip_tail(inner: Seq<char>)
    requires
        inner.len() > 0 ==> inner[0] != '`',
        inner.len() > 0 ==> inner[inner.len() - 1] != '`',
    ensures
        strip_suffix_reps(
            strip_prefix_reps(strip_prefix_reps(inner + fence_seq(), rust_fence_seq()), fence_seq()),
            fence_seq(),
        ) == inner,
{
    let t = inner + fence_seq();
    if inner.len() == 0 {
        assert(t =~= fence_seq());
        assert(!has_prefix(t, rust_fence_seq()));
        assert(strip_prefix_reps(t, rust_fence_seq()) == t);
        assert(has_prefix(t, fence_seq())) by {
            assert(t.subrange(0, 3) =~= fence_seq());
        }
        let e = t.skip(3);
        assert(e =~= Seq::<char>::empty());
        assert(strip_prefix_reps(t, fence_seq()) == strip_prefix_reps(e, fence_seq()));
        assert(strip_prefix_reps(e, fence_seq()) == e);
        assert(strip_suffix_reps(e, fence_seq()) == e);
        assert(e =~= inner);
    } else {
        assert(t[0] == inner[0]);
        assert(!has_prefix(t, rust_fence_seq())) by {
            if has_prefix(t, rust_fence_seq()) {
                assert(t[0] == rust_fence_seq()[0]);
            }
        }
        assert(!has_prefix(t, fence_seq())) by {
            if has_prefix(t, fence_seq()) {
                assert(t[0] == fence_seq()[0]);
            }
        }
        assert(strip_prefix_reps(t, rust_fence_seq()) == t);
        assert(strip_prefix_reps(t, fence_seq()) == t);
        assert(has_suffix(t, fence_seq())) by {
            assert(t.subrange(t.len() - 3, t.len() as int) =~= fence_seq());
        }
        let u = t.take(t.len() - 3);
        assert(u =~= inner);
        assert(strip_suffix_reps(t, fence_seq()) == strip_suffix_reps(inner, fence_seq()));
        assert(!has_suffix(inner, fence_seq())) by {
            if has_suffix(inner, fence_seq()) {
                assert(inner[inner.len() - 1] == fence_seq()[2]);
            }
        }
        assert(strip_suffix_reps(inner, fence_seq()) == inner);
    }
}

proof fn lemma_strip_wrapped_rust(inner: Seq<char>)
    requires
        inner.len() > 0 ==> inner[0] != '`',
        inner.len() > 0 ==> inner[inner.len() - 1] != '`',
    ensures
        strip_fences_spec(rust_fence_seq() + inner + fence_seq()) == inner,
{
    let s = rust_fence_seq() + inner + fence_seq();
    assert(has_prefix(s, rust_fence_seq())) by {
        assert(s.subrange(0, 7) =~= rust_fence_seq());
    }
    let t = s.skip(7);
    assert(t =~= inner + fence_seq());
    assert(strip_prefix_reps(s, rust_fence_seq()) == strip_prefix_reps(t, rust_fence_seq()));
    // `t` has no leading marker at all, so the first stage stops here.
    if inner.len() == 0 {
        assert(t =~= fence_seq());
        assert(!has_prefix(t, rust_fence_seq()));
    } else {
        assert(t[0] == inner[0]);
        assert(!has_prefix(t, rust_fence_seq())) by {
            if has_prefix(t, rust_fence_seq()) {
                assert(t[0] == rust_fence_seq()[0]);
            }
        }
    }
    assert(strip_prefix_reps(t, rust_fence_seq()) == t);
    lemma_strip_tail(inner);
}

proof fn lemma_strip_wrapped_plain(inner: Seq<char>)
    requires
        inner.len() > 0 ==> inner[0] != '`',
        inner.len() > 0 ==> inner[inner.len() - 1] != '`',
        !has_prefix(inner, rust_word_seq()),
    ensures
        strip_fences_spec(fence_seq() + inner + fence_seq()) == inner,
{
    let s = fence_seq() + inner + fence_seq();
    assert(!has_prefix(s, rust_fence_seq())) by {
        if has_prefix(s, rust_fence_seq()) {
            assert(forall|i: int| 0 <= i < 7 ==> s[i] == #[trigger] rust_fence_seq()[i]) by {
                assert(s.subrange(0, 7) == rust_fence_seq());
                assert(forall|i: int| 0 <= i < 7 ==> s.subrange(0, 7)[i] == s[i]);
            }
            if inner.len() >= 4 {
                assert(inner.subrange(0, 4) =~= rust_word_seq()) by {
                    assert(forall|i: int| 0 <= i < 4 ==> #[trigger] inner[i] == s[i + 3]);
                }
                assert(has_prefix(inner, rust_word_seq()));
            } else {
                // the character after the inner text is a backtick of the
                // closing marker, yet the tagged marker wants a letter there
                let pos = 3 + inner.len() as int;
                assert(pos < 7);
                assert(s[pos] == fence_seq()[0]);
                assert(rust_fence_seq()[pos] != '`');
            }
        }
    }
    assert(strip_prefix_reps(s, rust_fence_seq()) == s);
    assert(has_prefix(s, fence_seq())) by {
        assert(s.subrange(0, 3) =~= fence_seq());
    }
    let t = s.skip(3);
    assert(t =~= inner + fence_seq());
    assert(strip_prefix_reps(s, fence_seq()) == strip_prefix_reps(t, fence_seq()));
    if inner.len() == 0 {
        assert(t =~= fence_seq());
        assert(has_prefix(t, fence_seq())) by {
            assert(t.subrange(0, 3) =~= fence_seq());
        }
        let e = t.skip(3);
        assert(e =~= Seq::<char>::empty());
        assert(strip_prefix_reps(t, fence_seq()) == strip_prefix_reps(e, fence_seq()));
        assert(strip_prefix_reps(e, fence_seq()) == e);
        assert(strip_suffix_reps(e, fence_seq()) == e);
        assert(e =~= inner);
    } else {
        assert(t[0] == inner[0]);
        assert(!has_prefix(t, fence_seq())) by {
            if has_prefix(t, fence_seq()) {
                assert(t[0] == fence_seq()[0]);
            }
        }
        assert(strip_prefix_reps(t, fence_seq()) == t);
        assert(has_suffix(t, fence_seq())) by {
            assert(t.subrange(t.len() - 3, t.len() as int) =~= fence_seq());
        }
        let u = t.take(t.len() - 3);
        assert(u =~= inner);
        assert(strip_suffix_reps(t, fence_seq()) == strip_suffix_reps(inner, fence_seq()));
        assert(!has_suffix(inner, fence_seq())) by {
            if has_suffix(inner, fence_seq()) {
                assert(inner[inner.len() - 1] == fence_seq()[2]);
            }
        }
        assert(strip_suffix_reps(inner, fence_seq()) == inner);
    }
}

fn fence_at(s: &str, n: usize, i: usize) -> (r: bool)
    requires
        n == s@.len(),
        i <= n,
    ensures
        r == (i + 3 <= s@.len() && s@.subrange(i as int, i as int + 3) == fence_seq()),
{
    if n - i >= 3 {
        let m = s.get_char(i) == '`' && s.get_char(i + 1) == '`' && s.get_char(i + 2) == '`';
        proof {
            let sub = s@.subrange(i as int, i as int + 3);
            if m {
                assert(sub =~= fence_seq());
            } else {
                assert(sub[0] == s@[i as int] && sub[1] == s@[i as int + 1]);
                assert(sub[2] == s@[i as int + 2]);
                assert(sub != fence_seq()) by {
                    if sub == fence_seq() {
                        assert(sub[0] == '`' && sub[1] == '`' && sub[2] == '`');
                    }
                }
            }
        }
        m
    } else {
        false
    }
}

fn rust_fence_at(s: &str, n: usize, i: usize) -> (r: bool)
    requires
        n == s@.len(),
        i <= n,
    ensures
        r == (i + 7 <= s@.len() && s@.subrange(i as int, i as int + 7) == rust_fence_seq()),
{
    if n - i >= 7 {
        let m = s.get_char(i) == '`' && s.get_char(i + 1) == '`' && s.get_char(i + 2) == '`'
            && s.get_char(i + 3) == 'r' && s.get_char(i + 4) == 'u' && s.get_char(i + 5) == 's'
            && s.get_char(i + 6) == 't';
        proof {
            let sub = s@.subrange(i as int, i as int + 7);
            if m {
                assert(sub =~= rust_fence_seq());
            } else {
                assert(forall|k: int| 0 <= k < 7 ==> #[trigger] sub[k] == s@[i as int + k]);
                assert(sub != rust_fence_seq()) by {
                    if sub == rust_fence_seq() {
                        assert(sub[0] == '`' && sub[1] == '`' && sub[2] == '`' && sub[3] == 'r'
                            && sub[4] == 'u' && sub[5] == 's' && sub[6] == 't');
                    }
                }
            }
        }
        m
    } else {
        false
    }
}

/// Removes the markdown code-fence markers around generated code: every
/// leading ```` ```rust ```` marker, then every remaining leading
/// ```` ``` ```` marker, then every trailing ```` ``` ```` marker.
pub fn strip_code_fences(text: &str) -> (r: String)
    ensures
        r@ == strip_fences_spec(text@),
{
    let n = text.unicode_len();
    let mut start: usize = 0;
    proof {
        assert(text@.skip(0) =~= text@);
    }
    while rust_fence_at(text, n, start)
        invariant
            0 <= start <= n,
            n == text@.len(),
            strip_prefix_reps(text@, rust_fence_seq()) == strip_prefix_reps(
                text@.skip(start as int),
                rust_fence_seq(),
            ),
        decreases n - start,
    {
        proof {
            let cur = text@.skip(start as int);
            assert(cur.subrange(0, 7) =~= text@.subrange(start as int, start as int + 7));
            assert(has_prefix(cur, rust_fence_seq()));
            assert(cur.skip(7) =~= text@.skip(start as int + 7));
        }
        start = start + 7;
    }
    proof {
        let cur = text@.skip(start as int);
        assert(!has_prefix(cur, rust_fence_seq())) by {
            if has_prefix(cur, rust_fence_seq()) {
                assert(cur.subrange(0, 7) =~= text@.subrange(start as int, start as int + 7));
            }
        }
        assert(strip_prefix_reps(text@, rust_fence_seq()) == cur);
    }
    let ghost after_rust = text@.skip(start as int);
    while fence_at(text, n, start)
        invariant
            0 <= start <= n,
            n == text@.len(),
            strip_prefix_reps(text@, rust_fence_seq()) == after_rust,
            strip_prefix_reps(after_rust, fence_seq()) == strip_prefix_reps(
                text@.skip(start as int),
                fence_seq(),
            ),
        decreases n - start,
    {
        proof {
            let cur = text@.skip(start as int);
            assert(cur.subrange(0, 3) =~= text@.subrange(start as int, start as int + 3));
            assert(has_prefix(cur, fence_seq()));
            assert(cur.skip(3) =~= text@.skip(start as int + 3));
        }
        start = start + 3;
    }
    proof {
        let cur = text@.skip(start as int);
        assert(!has_prefix(cur, fence_seq())) by {
            if has_prefix(cur, fence_seq()) {
                assert(cur.subrange(0, 3) =~= text@.subrange(start as int, start as int + 3));
            }
        }
        assert(strip_prefix_reps(after_rust, fence_seq()) == cur);
    }
    let ghost after_front = text@.skip(start as int);
    let mut end: usize = n;
    proof {
        assert(after_front =~= text@.subrange(start as int, end as int));
    }
    while end - start >= 3 && fence_at(text, n, end - 3)
        invariant
            start <= end <= n,
            n == text@.len(),
            strip_prefix_reps(text@, rust_fence_seq()) == after_rust,
            strip_prefix_reps(after_rust, fence_seq()) == after_front,
            strip_suffix_reps(after_front, fence_seq()) == strip_suffix_reps(
                text@.subrange(start as int, end as int),
                fence_seq(),
            ),
        decreases end,
    {
        proof {
            let cur = text@.subrange(start as int, end as int);
            assert(cur.subrange(cur.len() - 3, cur.len() as int) =~= text@.subrange(
                end as int - 3,
                end as int,
            ));
            assert(has_suffix(cur, fence_seq()));
            assert(cur.take(cur.len() - 3) =~= text@.subrange(start as int, end as int - 3));
        }
        end = end - 3;
    }
    proof {
        let cur = text@.subrange(start as int, end as int);
        assert(!has_suffix(cur, fence_seq())) by {
            if has_suffix(cur, fence_seq()) {
                assert(end - start >= 3);
                assert(cur.subrange(cur.len() - 3, cur.len() as int) =~= text@.subrange(
                    end as int - 3,
                    end as int,
                ));
            }
        }
        assert(strip_suffix_reps(after_front, fence_seq()) == cur);
    }
    let piece = text.substring_char(start, end);
    piece.to_owned()
}

} // verus!
