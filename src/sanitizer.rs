//! Turning untrusted text into a single safe file-name component.

use vstd::prelude::*;

verus! {

/// What `sanitize_filename::sanitize` returns for a given name.
pub uninterp spec fn sanitized_name(raw: Seq<char>) -> Seq<char>;

/// Characters that never survive sanitisation: path separators, characters
/// that some file systems refuse, and control characters.
pub open spec fn is_forbidden_char(c: char) -> bool {
    ||| c == '/'
    ||| c == '\\'
    ||| c == '?'
    ||| c == '<'
    ||| c == '>'
    ||| c == ':'
    ||| c == '*'
    ||| c == '|'
    ||| c == '"'
    ||| (c as u32) <= 0x1f
    ||| (0x80 <= (c as u32) && (c as u32) <= 0x9f)
}

pub open spec fn has_no_forbidden_char(s: Seq<char>) -> bool {
    forall|i: int| 0 <= i < s.len() ==> !is_forbidden_char(#[trigger] s[i])
}

/// Empty, or made of dots only (".", "..", "...").
pub open spec fn is_dots_only(s: Seq<char>) -> bool {
    forall|i: int| 0 <= i < s.len() ==> #[trigger] s[i] == '.'
}

/// A name that, joined to a directory, names an entry directly inside it:
/// not empty, not a run of dots, and free of separators and control characters.
pub open spec fn is_safe_component(s: Seq<char>) -> bool {
    &&& s.len() > 0
    &&& !is_dots_only(s)
    &&& has_no_forbidden_char(s)
}

/// The name used where nothing usable is left of the input.
pub open spec fn placeholder() -> Seq<char> {
    seq!['u', 'n', 'n', 'a', 'm', 'e', 'd', '_', 'f', 'i', 'l', 'e']
}

pub open spec fn trim_start_spaces(s: Seq<char>) -> Seq<char>
    decreases s.len(),
{
    if s.len() > 0 && s[0] == ' ' {
        trim_start_spaces(s.drop_first())
    } else {
        s
    }
}

pub open spec fn trim_end_spaces(s: Seq<char>) -> Seq<char>
    decreases s.len(),
{
    if s.len() > 0 && s.last() == ' ' {
        trim_end_spaces(s.drop_last())
    } else {
        s
    }
}

/// `s` without its leading and trailing spaces.
pub open spec fn trim_spaces(s: Seq<char>) -> Seq<char> {
    trim_end_spaces(trim_start_spaces(s))
}

/// The safe component made of `raw`: the outside sanitiser's result, trimmed
/// of spaces, or the placeholder when nothing but dots is left.
pub open spec fn sanitize_spec(raw: Seq<char>) -> Seq<char> {
    let t = trim_spaces(sanitized_name(raw));
    if is_dots_only(t) {
        placeholder()
    } else {
        t
    }
}

/// Relies on `sanitize_filename::sanitize` (default options): it deletes every
/// path separator, every character that file systems refuse in a name, and
/// every control character, so none of them is left in its result.
#[verifier::external_body]
fn sanitize_raw(raw: &str) -> (r: String)
    ensures
        r@ == sanitized_name(raw@),
        has_no_forbidden_char(r@),
{
    sanitize_filename::sanitize(raw)
}

proof fn lemma_trim_start_from(s: Seq<char>, i: int)
    requires
        0 <= i <= s.len(),
        forall|j: int| 0 <= j < i ==> s[j] == ' ',
    ensures
        trim_start_spaces(s) == trim_start_spaces(s.subrange(i, s.len() as int)),
    decreases i,
{
    if i > 0 {
        assert(s.drop_first() =~= s.subrange(1, s.len() as int));
        let t = s.drop_first();
        lemma_trim_start_from(t, i - 1);
        assert(t.subrange(i - 1, t.len() as int) =~= s.subrange(i, s.len() as int));
    } else {
        assert(s.subrange(0, s.len() as int) =~= s);
    }
}

proof fn lemma_trim_end_to(s: Seq<char>, k: int)
    requires
        0 <= k <= s.len(),
        forall|j: int| k <= j < s.len() ==> s[j] == ' ',
    ensures
        trim_end_spaces(s) == trim_end_spaces(s.subrange(0, k)),
    decreases s.len() - k,
{
    if k < s.len() {
        let t = s.drop_last();
        lemma_trim_end_to(t, k);
        assert(t.subrange(0, k) =~= s.subrange(0, k));
    } else {
        assert(s.subrange(0, k) =~= s);
    }
}

/// The part of `s` between its leading and its trailing spaces.
fn trim_spaces_exec(s: &str) -> (r: &str)
    ensures
        r@ == trim_spaces(s@),
{
    let n = s.unicode_len();
    let mut i: usize = 0;
    while i < n && s.get_char(i) == ' '
        invariant
            n == s@.len(),
            i <= n,
            forall|j: int| 0 <= j < i ==> s@[j] == ' ',
        decreases n - i,
    {
        i = i + 1;
    }
    proof {
        lemma_trim_start_from(s@, i as int);
    }
    let ghost mid = s@.subrange(i as int, n as int);
    assert(trim_start_spaces(mid) == mid);
    let mut k: usize = n;
    while k > i && s.get_char(k - 1) == ' '
        invariant
            n == s@.len(),
            i <= k <= n,
            mid == s@.subrange(i as int, n as int),
            forall|j: int| k <= j < n ==> s@[j] == ' ',
        decreases k,
    {
        k = k - 1;
    }
    proof {
        lemma_trim_end_to(mid, k - i);
        assert(mid.subrange(0, k - i) =~= s@.subrange(i as int, k as int));
        let t = s@.subrange(i as int, k as int);
        assert(!(t.len() > 0 && t.last() == ' '));
    }
    s.substring_char(i, k)
}

fn is_dots_only_exec(s: &str) -> (r: bool)
    ensures
        r == is_dots_only(s@),
{
    let n = s.unicode_len();
    let mut i: usize = 0;
    while i < n
        invariant
            n == s@.len(),
            i <= n,
            forall|j: int| 0 <= j < i ==> s@[j] == '.',
        decreases n - i,
    {
        if s.get_char(i) != '.' {
            return false;
        }
        i = i + 1;
    }
    true
}

/// The placeholder name as a `String`.
pub fn placeholder_name() -> (r: String)
    ensures
        r@ == placeholder(),
{
    let r = String::from_str("unnamed_file");
    proof {
        reveal_strlit("unnamed_file");
        assert(r@ =~= placeholder());
    }
    r
}

/// Makes a safe file-name component of untrusted text: separators, characters
/// that file systems refuse and control characters are removed, surrounding
/// spaces are trimmed, and a name with nothing but dots left (or nothing at
/// all) becomes the placeholder. Joined to a directory, the result never
/// names anything outside it.
pub fn sanitize(raw: &str) -> (r: String)
    ensures
        r@ == sanitize_spec(raw@),
        is_safe_component(r@),
{
    let s = sanitize_raw(raw);
    let t = trim_spaces_exec(s.as_str());
    proof {
        lemma_trim_keeps_allowed(s@);
    }
    if is_dots_only_exec(t) {
        let r = placeholder_name();
        proof {
            assert(r@[0] == 'u');
            assert(has_no_forbidden_char(r@));
        }
        r
    } else {
        String::from_str(t)
    }
}

proof fn lemma_trim_keeps_allowed(s: Seq<char>)
    requires
        has_no_forbidden_char(s),
    ensures
        has_no_forbidden_char(trim_spaces(s)),
{
    lemma_trim_start_sub(s);
    lemma_trim_end_sub(trim_start_spaces(s));
}

proof fn lemma_trim_start_sub(s: Seq<char>)
    requires
        has_no_forbidden_char(s),
    ensures
        has_no_forbidden_char(trim_start_spaces(s)),
    decreases s.len(),
{
    if s.len() > 0 && s[0] == ' ' {
        lemma_trim_start_sub(s.drop_first());
    }
}

proof fn lemma_trim_end_sub(s: Seq<char>)
    requires
        has_no_forbidden_char(s),
    ensures
        has_no_forbidden_char(trim_end_spaces(s)),
    decreases s.len(),
{
    if s.len() > 0 && s.last() == ' ' {
        lemma_trim_end_sub(s.drop_last());
    }
}

} // verus!
