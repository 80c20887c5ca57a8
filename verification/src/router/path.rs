//! The normal form of paths.

use vstd::prelude::*;

verus! {

/// A path without the slashes at its end.
pub open spec fn trimmed(path: Seq<char>) -> Seq<char>
    decreases path.len(),
{
    if path.len() > 0 && path.last() == '/' {
        trimmed(path.drop_last())
    } else {
        path
    }
}

/// The normal form of a path: the slashes at its end are taken off, and a
/// slash is put in front unless one is there.
pub open spec fn normalized(path: Seq<char>) -> Seq<char> {
    let rest = trimmed(path);
    if rest.len() > 0 && rest[0] == '/' {
        rest
    } else {
        seq!['/'] + rest
    }
}

/// Taking the trailing slashes off a path leaves the part of it that ends
/// with its last character other than a slash.
proof fn lemma_trimmed_is_prefix(path: Seq<char>, end: int)
    requires
        0 <= end <= path.len(),
        forall|i: int| end <= i < path.len() ==> path[i] == '/',
        end > 0 ==> path[end - 1] != '/',
    ensures
        trimmed(path) == path.subrange(0, end),
    decreases path.len(),
{
    if path.len() > 0 && path.last() == '/' {
        assert(end < path.len());
        lemma_trimmed_is_prefix(path.drop_last(), end);
        assert(path.drop_last().subrange(0, end) =~= path.subrange(0, end));
    } else {
        assert(end == path.len());
        assert(path.subrange(0, end) =~= path);
    }
}

/// The normal form of `path`.
pub fn normalize_path(path: &str) -> (normal: String)
    ensures
        normal@ == normalized(path@),
{
    let len = path.unicode_len();
    let mut end = len;
    while end > 0 && path.get_char(end - 1) == '/'
        invariant
            end <= len,
            len == path@.len(),
            forall|i: int| end <= i < len ==> path@[i] == '/',
        decreases end,
    {
        end = end - 1;
    }
    proof {
        lemma_trimmed_is_prefix(path@, end as int);
    }
    let rest = path.substring_char(0, end);
    if end > 0 && path.get_char(0) == '/' {
        String::from_str(rest)
    } else {
        proof {
            reveal_strlit("/");
            assert("/"@ =~= seq!['/']);
        }
        String::from_str("/").concat(rest)
    }
}

/// A path in normal form stays as it is.
pub proof fn lemma_normalized_idempotent(path: Seq<char>)
    ensures
        normalized(normalized(path)) == normalized(path),
{
    let rest = trimmed(path);
    lemma_trimmed_ends(path);
    let normal = normalized(path);
    if rest.len() > 0 && rest[0] == '/' {
        lemma_trimmed_fixed(rest);
    } else {
        if rest.len() == 0 {
            assert(normal =~= seq!['/']);
            assert(normal.drop_last() =~= Seq::<char>::empty());
            assert(trimmed(normal) == trimmed(normal.drop_last()));
            assert(trimmed(normal) =~= Seq::<char>::empty());
            assert(seq!['/'] + Seq::<char>::empty() =~= seq!['/']);
        } else {
            assert(normal.last() == rest.last());
            lemma_trimmed_fixed(normal);
        }
    }
}

/// What is left of a path after trimming does not end with a slash.
proof fn lemma_trimmed_ends(path: Seq<char>)
    ensures
        trimmed(path).len() > 0 ==> trimmed(path).last() != '/',
    decreases path.len(),
{
    if path.len() > 0 && path.last() == '/' {
        lemma_trimmed_ends(path.drop_last());
    }
}

/// A path that does not end with a slash is left as it is by trimming.
proof fn lemma_trimmed_fixed(path: Seq<char>)
    requires
        path.len() > 0 ==> path.last() != '/',
    ensures
        trimmed(path) == path,
{
}

} // verus!
