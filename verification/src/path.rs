//! Unix paths held as strings: joining a segment onto a path the way
//! `PathBuf::push` does, and the final name of a path the way
//! `Path::file_name` gives it.

use vstd::prelude::*;
use vstd::string::*;
use vstd::slice::slice_subrange;
use crate::text::{chars_of, string_from_chars};

verus! {

/// `base` extended by `seg`: an absolute `seg` replaces `base`; otherwise a
/// `/` separates the two unless `base` is empty or already ends in one.
pub open spec fn path_join(base: Seq<char>, seg: Seq<char>) -> Seq<char> {
    if seg.len() > 0 && seg[0] == '/' {
        seg
    } else if base.len() == 0 || base.last() == '/' {
        base + seg
    } else {
        base + seq!['/'] + seg
    }
}

/// The index of the last `/` in `p`, or -1 when there is none.
pub open spec fn last_slash(p: Seq<char>) -> int
    decreases p.len(),
{
    if p.len() == 0 {
        -1
    } else if p.last() == '/' {
        p.len() - 1
    } else {
        last_slash(p.drop_last())
    }
}

/// The final component of a path, when it is a normal name: trailing `/`
/// and `.` components are skipped, and a path that ends at the root, at a
/// leading `.`, at `..`, or is empty has none.
pub open spec fn file_name(p: Seq<char>) -> Option<Seq<char>>
    decreases p.len(),
{
    if p.len() == 0 {
        None
    } else if p.last() == '/' {
        file_name(p.drop_last())
    } else if p =~= seq!['.'] {
        None
    } else if p.len() >= 2 && p[p.len() - 1] == '.' && p[p.len() - 2] == '/' {
        file_name(p.take(p.len() - 2))
    } else {
        let seg = p.subrange(last_slash(p) + 1, p.len() as int);
        if seg =~= seq!['.', '.'] {
            None
        } else {
            Some(seg)
        }
    }
}

proof fn lemma_last_slash(p: Seq<char>)
    ensures
        -1 <= last_slash(p) < p.len(),
        last_slash(p) >= 0 ==> p[last_slash(p)] == '/',
        forall|j: int| last_slash(p) < j < p.len() ==> p[j] != '/',
    decreases p.len(),
{
    if p.len() > 0 && p.last() != '/' {
        let q = p.drop_last();
        lemma_last_slash(q);
        assert forall|j: int| last_slash(p) < j < p.len() implies p[j] != '/' by {
            if j < q.len() {
                assert(p[j] == q[j]);
            }
        }
    }
}

/// Joins `seg` onto `base` as `PathBuf::push` does on Unix.
pub fn path_join_str(base: &str, seg: &str) -> (r: String)
    ensures
        r@ == path_join(base@, seg@),
{
    let b = chars_of(base);
    let s = chars_of(seg);
    if s.len() > 0 && s[0] == '/' {
        return seg.to_owned();
    }
    let mut r = base.to_owned();
    if !(b.len() == 0 || b[b.len() - 1] == '/') {
        r.append("/");
        proof {
            reveal_strlit("/");
        }
    }
    r.append(seg);
    r
}

/// The final name of a path, as `Path::file_name` gives it.
pub fn path_file_name(path: &str) -> (r: Option<String>)
    ensures
        match r {
            Some(name) => file_name(path@) == Some(name@),
            None => file_name(path@) is None,
        },
{
    let v = chars_of(path);
    let mut end: usize = v.len();
    assert(v@.take(end as int) =~= path@);
    loop
        invariant
            end <= v@.len(),
            v@ == path@,
            file_name(v@.take(end as int)) == file_name(path@),
        decreases end,
    {
        let ghost p = v@.take(end as int);
        if end == 0 {
            return None;
        }
        if v[end - 1] == '/' {
            assert(p.drop_last() =~= v@.take(end - 1));
            end = end - 1;
        } else if end == 1 && v[0] == '.' {
            assert(p =~= seq!['.']);
            return None;
        } else if end >= 2 && v[end - 1] == '.' && v[end - 2] == '/' {
            assert(p.take(p.len() - 2) =~= v@.take(end - 2));
            end = end - 2;
        } else {
            proof {
                assert(!(p =~= seq!['.']));
                lemma_last_slash(p);
            }
            let mut k: usize = end;
            while k > 0 && v[k - 1] != '/'
                invariant
                    k <= end <= v@.len(),
                    p == v@.take(end as int),
                    forall|j: int| k <= j < end ==> p[j] != '/',
                    last_slash(p) < k,
                    last_slash(p) >= 0 ==> p[last_slash(p)] == '/',
                decreases k,
            {
                k = k - 1;
            }
            proof {
                if k > 0 {
                    assert(p[k - 1] == '/');
                    assert(last_slash(p) == k - 1);
                } else {
                    assert(last_slash(p) == -1);
                }
            }
            let seg = slice_subrange(v.as_slice(), k, end);
            assert(seg@ =~= p.subrange(last_slash(p) + 1, p.len() as int));
            if seg.len() == 2 && seg[0] == '.' && seg[1] == '.' {
                assert(seg@ =~= seq!['.', '.']);
                return None;
            }
            let name = string_from_chars(seg);
            return Some(name);
        }
    }
}


/// A name that `file_name` can give: not empty, free of `/`, and neither
/// `.` nor `..`.
pub open spec fn is_normal_name(n: Seq<char>) -> bool {
    &&& n.len() > 0
    &&& forall|i: int| 0 <= i < n.len() ==> n[i] != '/'
    &&& !(n =~= seq!['.'])
    &&& !(n =~= seq!['.', '.'])
}

/// Every final name of a path is a normal name.
pub proof fn lemma_file_name_is_normal(p: Seq<char>)
    ensures
        file_name(p) matches Some(n) ==> is_normal_name(n),
    decreases p.len(),
{
    if p.len() == 0 {
    } else if p.last() == '/' {
        lemma_file_name_is_normal(p.drop_last());
    } else if p =~= seq!['.'] {
    } else if p.len() >= 2 && p[p.len() - 1] == '.' && p[p.len() - 2] == '/' {
        lemma_file_name_is_normal(p.take(p.len() - 2));
    } else {
        lemma_last_slash(p);
        let k = last_slash(p);
        let seg = p.subrange(k + 1, p.len() as int);
        assert(seg.len() > 0);
        assert forall|i: int| 0 <= i < seg.len() implies seg[i] != '/' by {
            assert(seg[i] == p[k + 1 + i]);
        }
        if seg =~= seq!['.'] {
            assert(seg[0] == p[k + 1]);
            assert(k + 1 == p.len() - 1);
            assert(p[p.len() - 1] == '.');
            if k >= 0 {
                assert(p[p.len() - 2] == '/');
            } else {
                assert(p =~= seq!['.']);
            }
        }
    }
}

/// Joining a normal name onto any path gives a path whose final name is
/// that name.
pub proof fn lemma_file_name_of_join(base: Seq<char>, name: Seq<char>)
    requires
        is_normal_name(name),
    ensures
        file_name(path_join(base, name)) == Some(name),
{
    let p = path_join(base, name);
    assert(name[0] != '/');
    let q = if base.len() == 0 || base.last() == '/' {
        base
    } else {
        base + seq!['/']
    };
    assert(p =~= q + name);
    assert(q.len() == 0 || q.last() == '/');
    assert(p.last() == name.last());
    assert(p.last() != '/');
    if p.len() >= 2 && p[p.len() - 1] == '.' && p[p.len() - 2] == '/' {
        if name.len() >= 2 {
            assert(name[name.len() - 2] == p[p.len() - 2]);
        } else {
            assert(name =~= seq!['.']);
        }
    }
    if p =~= seq!['.'] {
        assert(name =~= p);
    }
    lemma_last_slash(p);
    let k = last_slash(p);
    if q.len() > 0 {
        assert(p[q.len() - 1] == '/');
    }
    assert forall|j: int| q.len() <= j < p.len() implies p[j] != '/' by {
        assert(p[j] == name[j - q.len()]);
    }
    assert(k == q.len() - 1);
    assert(p.subrange(k + 1, p.len() as int) =~= name);
}

/// The final name of a file seen through the guest's mount base is the
/// final name of the host file it stands for.
pub proof fn lemma_mount_keeps_file_name(base: Seq<char>, path: Seq<char>)
    requires
        file_name(path) is Some,
    ensures
        file_name(path_join(base, file_name(path)->0)) == file_name(path),
{
    lemma_file_name_is_normal(path);
    lemma_file_name_of_join(base, file_name(path)->0);
}

} // verus!
