//! Verified path arithmetic: joining a repository name onto the project root,
//! the descendant check that keeps requests inside the configured root, and
//! the component helpers the views use.
use crate::text;
use vstd::prelude::*;

verus! {

/// Joining `name` under `root`: an absolute `name` stands alone, anything else
/// goes below `root`.
pub open spec fn spec_join_path(root: Seq<char>, name: Seq<char>) -> Seq<char> {
    if name.len() > 0 && name.first() == '/' {
        name
    } else {
        root + seq!['/'] + name
    }
}

pub fn join_path(root: &str, name: &str) -> (r: String)
    ensures
        r@ == spec_join_path(root@, name@),
{
    if name.unicode_len() > 0 && name.get_char(0) == '/' {
        name.to_owned()
    } else {
        let mut out = root.to_owned();
        out.append("/");
        out.append(name);
        proof {
            reveal_strlit("/");
            assert(out@ =~= root@ + seq!['/'] + name@);
        }
        out
    }
}

/// Whether `p` is `root` itself or lies below it on a path-component boundary.
pub open spec fn spec_path_within(root: Seq<char>, p: Seq<char>) -> bool {
    p == root || (p.len() > root.len() && p.take(root.len() as int) == root && (p[root.len() as int]
        == '/' || (root.len() > 0 && root.last() == '/')))
}

pub fn path_within(root: &str, p: &str) -> (r: bool)
    ensures
        r == spec_path_within(root@, p@),
{
    let rn = root.unicode_len();
    let pn = p.unicode_len();
    if pn < rn {
        proof {
            assert(p@ != root@);
        }
        return false;
    }
    let mut i: usize = 0;
    while i < rn
        invariant
            0 <= i <= rn,
            rn == root@.len(),
            pn == p@.len(),
            rn <= pn,
            forall|j: int| 0 <= j < i ==> p@[j] == root@[j],
        decreases rn - i,
    {
        if p.get_char(i) != root.get_char(i) {
            proof {
                assert(p@.take(rn as int)[i as int] != root@[i as int]);
                assert(p@ != root@);
            }
            return false;
        }
        i = i + 1;
    }
    if pn == rn {
        proof {
            assert(p@ =~= root@);
        }
        return true;
    }
    proof {
        assert(p@.take(rn as int) =~= root@);
        assert(p@ != root@);
    }
    if p.get_char(rn) == '/' {
        return true;
    }
    if rn > 0 && root.get_char(rn - 1) == '/' {
        return true;
    }
    false
}

/// The last path component: everything after the final slash.
pub open spec fn spec_last_component(p: Seq<char>) -> Seq<char> {
    match text::rfind_char_at(p, '/') {
        Some(i) => p.skip(i + 1),
        None => p,
    }
}

pub fn last_component(p: &str) -> (r: String)
    ensures
        r@ == spec_last_component(p@),
{
    let n = p.unicode_len();
    match text::rfind_char(p, '/') {
        Some(i) => {
            proof {
                assert(i < n);
            }
            s_skip(p, i + 1)
        },
        None => p.to_owned(),
    }
}

fn s_skip(p: &str, i: usize) -> (r: String)
    requires
        i <= p@.len(),
    ensures
        r@ == p@.skip(i as int),
{
    let n = p.unicode_len();
    let r = p.substring_char(i, n);
    proof {
        assert(p@.subrange(i as int, n as int) =~= p@.skip(i as int));
    }
    r.to_owned()
}

/// The extension of the file named by `p`: the text after the last dot of the
/// last component, when that dot is neither its first character nor absent.
pub open spec fn spec_extension(p: Seq<char>) -> Seq<char> {
    let name = spec_last_component(p);
    match text::rfind_char_at(name, '.') {
        Some(i) => if i > 0 {
            name.skip(i + 1)
        } else {
            Seq::empty()
        },
        None => Seq::empty(),
    }
}

pub fn extension_of(p: &str) -> (r: String)
    ensures
        r@ == spec_extension(p@),
{
    let name = last_component(p);
    let n = name.as_str().unicode_len();
    match text::rfind_char(name.as_str(), '.') {
        Some(i) => {
            if i > 0 {
                proof {
                    assert(i < n);
                }
                s_skip(name.as_str(), i + 1)
            } else {
                String::new()
            }
        },
        None => String::new(),
    }
}

/// A URL path with its last segment removed: cut at the final slash.
pub open spec fn spec_pop_segment(p: Seq<char>) -> Seq<char> {
    match text::rfind_char_at(p, '/') {
        Some(i) => p.take(i),
        None => p,
    }
}

pub fn pop_segment(p: &str) -> (r: String)
    ensures
        r@ == spec_pop_segment(p@),
{
    match text::rfind_char(p, '/') {
        Some(i) => {
            let r = p.substring_char(0, i);
            proof {
                assert(p@.subrange(0, i as int) =~= p@.take(i as int));
            }
            r.to_owned()
        },
        None => p.to_owned(),
    }
}

/// The name a path ends in, a single trailing slash ignored, the way
/// directory paths are usually reported.
pub open spec fn spec_file_name(p: Seq<char>) -> Seq<char> {
    if p.len() > 0 && p.last() == '/' {
        spec_last_component(p.drop_last())
    } else {
        spec_last_component(p)
    }
}

pub fn file_name_of(p: &str) -> (r: String)
    ensures
        r@ == spec_file_name(p@),
{
    let n = p.unicode_len();
    if n > 0 && p.get_char(n - 1) == '/' {
        let head = p.substring_char(0, n - 1);
        proof {
            assert(p@.subrange(0, n - 1) =~= p@.drop_last());
        }
        last_component(head)
    } else {
        last_component(p)
    }
}

/// The path after a fixed prefix, or empty when the prefix does not match.
pub open spec fn spec_strip_prefix(p: Seq<char>, prefix: Seq<char>) -> Seq<char> {
    if p.len() >= prefix.len() && p.take(prefix.len() as int) == prefix {
        p.skip(prefix.len() as int)
    } else {
        Seq::empty()
    }
}

pub fn strip_prefix_or_empty(p: &str, prefix: &str) -> (r: String)
    ensures
        r@ == spec_strip_prefix(p@, prefix@),
{
    let pn = p.unicode_len();
    let kn = prefix.unicode_len();
    if pn < kn {
        proof {
            assert(!(p@.len() >= prefix@.len()));
        }
        return String::new();
    }
    let mut i: usize = 0;
    while i < kn
        invariant
            0 <= i <= kn,
            kn == prefix@.len(),
            pn == p@.len(),
            kn <= pn,
            forall|j: int| 0 <= j < i ==> p@[j] == prefix@[j],
        decreases kn - i,
    {
        if p.get_char(i) != prefix.get_char(i) {
            proof {
                assert(p@.take(kn as int)[i as int] != prefix@[i as int]);
            }
            return String::new();
        }
        i = i + 1;
    }
    proof {
        assert(p@.take(kn as int) =~= prefix@);
    }
    s_skip(p, kn)
}

/// Drops the first `k` characters, for peeling fixed prefixes off reference names.
pub fn skip_chars(p: &str, k: usize) -> (r: String)
    requires
        k <= p@.len(),
    ensures
        r@ == p@.skip(k as int),
{
    s_skip(p, k)
}

} // verus!
