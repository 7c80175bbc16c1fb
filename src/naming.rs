//! Destination names for stored artifacts.

use vstd::prelude::*;
use crate::sanitizer::{
    has_no_forbidden_char, is_forbidden_char, is_safe_component, placeholder,
    placeholder_name, sanitize, sanitize_spec,
};

verus! {

/// Index of the last `c` in `s`, or -1 when there is none.
pub open spec fn last_index_of(s: Seq<char>, c: char) -> int
    decreases s.len(),
{
    if s.len() == 0 {
        -1
    } else if s.last() == c {
        s.len() - 1
    } else {
        last_index_of(s.drop_last(), c)
    }
}

/// Whether `name` has an extension: a dot after its first character.
pub open spec fn has_extension(name: Seq<char>) -> bool {
    last_index_of(name, '.') > 0
}

/// The name without its extension and the dot before it.
pub open spec fn stem_of(name: Seq<char>) -> Seq<char> {
    if has_extension(name) {
        name.subrange(0, last_index_of(name, '.'))
    } else {
        name
    }
}

/// What follows the last dot of the name (meaningful when it has an extension).
pub open spec fn extension_of(name: Seq<char>) -> Seq<char> {
    if has_extension(name) {
        name.subrange(last_index_of(name, '.') + 1, name.len() as int)
    } else {
        Seq::empty()
    }
}

/// The declared file name once sanitised; the placeholder stands in for a
/// missing one.
pub open spec fn declared_component(declared: Option<Seq<char>>) -> Seq<char> {
    match declared {
        Some(d) => sanitize_spec(d),
        None => sanitize_spec(placeholder()),
    }
}

/// `{stem}-{id}-{category}.{extension}`, or `{stem}-{id}-{category}` for a
/// declared name without an extension; every part sanitised.
pub open spec fn artifact_name_spec(
    declared: Option<Seq<char>>,
    resource_id: Seq<char>,
    category: Seq<char>,
) -> Seq<char> {
    let file = declared_component(declared);
    let tagged = stem_of(file) + seq!['-'] + sanitize_spec(resource_id) + seq!['-']
        + sanitize_spec(category);
    if has_extension(file) {
        tagged + seq!['.'] + extension_of(file)
    } else {
        tagged
    }
}

proof fn lemma_last_index(s: Seq<char>, c: char, k: int)
    requires
        -1 <= k < s.len(),
        k >= 0 ==> s[k] == c,
        forall|j: int| k < j < s.len() ==> s[j] != c,
    ensures
        last_index_of(s, c) == k,
    decreases s.len(),
{
    if s.len() > 0 && k < s.len() - 1 {
        lemma_last_index(s.drop_last(), c, k);
    }
}

proof fn lemma_last_index_bounds(s: Seq<char>, c: char)
    ensures
        -1 <= last_index_of(s, c) < s.len(),
        last_index_of(s, c) >= 0 ==> s[last_index_of(s, c)] == c,
    decreases s.len(),
{
    if s.len() > 0 && s.last() != c {
        lemma_last_index_bounds(s.drop_last(), c);
    }
}

proof fn lemma_subrange_allowed(s: Seq<char>, i: int, j: int)
    requires
        has_no_forbidden_char(s),
        0 <= i <= j <= s.len(),
    ensures
        has_no_forbidden_char(s.subrange(i, j)),
{
    assert forall|k: int| 0 <= k < j - i implies !is_forbidden_char(#[trigger] s.subrange(i, j)[k]) by {
        assert(s.subrange(i, j)[k] == s[i + k]);
    }
}

/// Index of the last dot of `s`, if any.
fn last_dot(s: &str) -> (r: Option<usize>)
    ensures
        match r {
            Some(k) => k as int == last_index_of(s@, '.'),
            None => last_index_of(s@, '.') == -1,
        },
{
    let n = s.unicode_len();
    let mut i: usize = n;
    while i > 0
        invariant
            n == s@.len(),
            i <= n,
            forall|j: int| i <= j < n ==> s@[j] != '.',
        decreases i,
    {
        if s.get_char(i - 1) == '.' {
            proof {
                lemma_last_index(s@, '.', i - 1);
            }
            return Some(i - 1);
        }
        i = i - 1;
    }
    proof {
        lemma_last_index(s@, '.', -1);
    }
    None
}

proof fn lemma_concat_allowed(a: Seq<char>, b: Seq<char>)
    requires
        has_no_forbidden_char(a),
        has_no_forbidden_char(b),
    ensures
        has_no_forbidden_char(a + b),
{
    assert forall|i: int| 0 <= i < (a + b).len() implies !is_forbidden_char(#[trigger] (a + b)[i]) by {
        if i < a.len() {
            assert((a + b)[i] == a[i]);
        } else {
            assert((a + b)[i] == b[i - a.len()]);
        }
    }
}

proof fn lemma_artifact_name_safe(
    declared: Option<Seq<char>>,
    resource_id: Seq<char>,
    category: Seq<char>,
)
    requires
        is_safe_component(declared_component(declared)),
        is_safe_component(sanitize_spec(resource_id)),
        is_safe_component(sanitize_spec(category)),
    ensures
        is_safe_component(artifact_name_spec(declared, resource_id, category)),
{
    let file = declared_component(declared);
    let dash = seq!['-'];
    let dot = seq!['.'];
    assert(has_no_forbidden_char(dash));
    assert(has_no_forbidden_char(dot));
    lemma_last_index_bounds(file, '.');
    let stem = stem_of(file);
    if has_extension(file) {
        lemma_subrange_allowed(file, 0, last_index_of(file, '.'));
        lemma_subrange_allowed(file, last_index_of(file, '.') + 1, file.len() as int);
    }
    assert(has_no_forbidden_char(stem));
    let a = stem + dash;
    lemma_concat_allowed(stem, dash);
    let b = a + sanitize_spec(resource_id);
    lemma_concat_allowed(a, sanitize_spec(resource_id));
    let c = b + dash;
    lemma_concat_allowed(b, dash);
    let tagged = c + sanitize_spec(category);
    lemma_concat_allowed(c, sanitize_spec(category));
    assert(tagged[stem.len() as int] == '-');
    let name = artifact_name_spec(declared, resource_id, category);
    if has_extension(file) {
        let e = extension_of(file);
        assert(has_no_forbidden_char(e));
        lemma_concat_allowed(tagged, dot);
        lemma_concat_allowed(tagged + dot, e);
        assert(name[stem.len() as int] == '-');
    } else {
        assert(name[stem.len() as int] == '-');
    }
}

/// The destination file name for one uploaded field: the sanitised declared
/// name (the placeholder when none was declared) split at its last dot, with
/// the sanitised resource id and category joined to its stem by hyphens. The
/// result is a single safe component, so it never leaves the uploads root.
pub fn artifact_name(declared: Option<&str>, resource_id: &str, category: &str) -> (r: String)
    ensures
        r@ == artifact_name_spec(
            match declared {
                Some(d) => Some(d@),
                None => None,
            },
            resource_id@,
            category@,
        ),
        is_safe_component(r@),
{
    let ghost declared_view = match declared {
        Some(d) => Some(d@),
        None => None,
    };
    let file = match declared {
        Some(d) => sanitize(d),
        None => {
            let p = placeholder_name();
            sanitize(p.as_str())
        },
    };
    let id = sanitize(resource_id);
    let cat = sanitize(category);
    let n = file.as_str().unicode_len();
    let dot = last_dot(file.as_str());
    proof {
        lemma_last_index_bounds(file@, '.');
    }
    let mut r: String;
    let mut ext: Option<&str> = None;
    match dot {
        Some(k) if k > 0 => {
            r = String::from_str(file.as_str().substring_char(0, k));
            ext = Some(file.as_str().substring_char(k + 1, n));
        },
        _ => {
            r = file.clone();
        },
    }
    r.append("-");
    r.append(id.as_str());
    r.append("-");
    r.append(cat.as_str());
    match ext {
        Some(e) => {
            r.append(".");
            r.append(e);
        },
        None => {},
    }
    proof {
        reveal_strlit("-");
        reveal_strlit(".");
        assert("-"@ =~= seq!['-']);
        assert("."@ =~= seq!['.']);
        assert(r@ =~= artifact_name_spec(declared_view, resource_id@, category@));
        lemma_artifact_name_safe(declared_view, resource_id@, category@);
    }
    r
}

/// For a declared name with an extension, the artifact name ends in a dot and
/// that extension, and the sanitised resource id and category stand in it as
/// hyphen-delimited segments between the stem and the extension.
pub proof fn lemma_named_with_extension(
    declared: Option<Seq<char>>,
    resource_id: Seq<char>,
    category: Seq<char>,
)
    requires
        has_extension(declared_component(declared)),
    ensures
        ({
            let file = declared_component(declared);
            let name = artifact_name_spec(declared, resource_id, category);
            let suffix = seq!['.'] + extension_of(file);
            let ids = seq!['-'] + sanitize_spec(resource_id) + seq!['-'] + sanitize_spec(
                category,
            );
            &&& name.len() >= suffix.len()
            &&& name.subrange(name.len() - suffix.len(), name.len() as int) == suffix
            &&& name.subrange(stem_of(file).len() as int, (stem_of(file).len() + ids.len()) as int) == ids
            &&& name == stem_of(file) + ids + suffix
        }),
{
    let file = declared_component(declared);
    let name = artifact_name_spec(declared, resource_id, category);
    let suffix = seq!['.'] + extension_of(file);
    let ids = seq!['-'] + sanitize_spec(resource_id) + seq!['-'] + sanitize_spec(category);
    let stem = stem_of(file);
    assert(name =~= stem + ids + suffix);
    assert(name.subrange(name.len() - suffix.len(), name.len() as int) =~= suffix);
    assert(name.subrange(stem.len() as int, (stem.len() + ids.len()) as int) =~= ids);
}

/// The path of a stored artifact: the root directory, a slash, the name.
pub open spec fn destination_spec(root: Seq<char>, name: Seq<char>) -> Seq<char> {
    root + seq!['/'] + name
}

/// `path` names an entry directly inside `root`: the root, a slash, and one
/// safe component.
pub open spec fn inside_root(root: Seq<char>, path: Seq<char>) -> bool {
    &&& path.len() > root.len() + 1
    &&& path.subrange(0, root.len() + 1 as int) == root + seq!['/']
    &&& is_safe_component(path.subrange(root.len() + 1 as int, path.len() as int))
}

/// A safe component joined to a root names an entry strictly inside it.
pub proof fn lemma_safe_component_stays_inside_root(root: Seq<char>, name: Seq<char>)
    requires
        is_safe_component(name),
    ensures
        inside_root(root, destination_spec(root, name)),
{
    let path = destination_spec(root, name);
    assert(path.subrange(0, root.len() + 1 as int) =~= root + seq!['/']);
    assert(path.subrange(root.len() + 1 as int, path.len() as int) =~= name);
}

/// Joins an artifact name to the uploads root.
pub fn destination_path(root: &str, name: &str) -> (r: String)
    ensures
        r@ == destination_spec(root@, name@),
{
    let mut r = String::from_str(root);
    r.append("/");
    r.append(name);
    proof {
        reveal_strlit("/");
        assert(r@ =~= destination_spec(root@, name@));
    }
    r
}

} // verus!
