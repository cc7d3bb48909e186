//! Path strings: the file name of a path and joining a relative segment onto
//! a base directory, following the rules of Unix paths.
use vstd::prelude::*;
use vstd::string::*;

verus! {

/// Index of the last `/` in `p`, or -1 when `p` has none.
pub open spec fn last_slash(p: Seq<char>) -> int
    decreases p.len(),
{
    if p.len() == 0 {
        -1
    } else if p.last() == '/' {
        p.len() - 1
    } else {
        last_slash(p.drop_last())
    }
}

/// What follows the last `/` of `p` (all of `p` when it has none).
pub open spec fn last_component(p: Seq<char>) -> Seq<char> {
    p.subrange(last_slash(p) + 1, p.len() as int)
}

/// The file name of a path: its last component, once trailing separators and
/// `.` components are set aside. A path that is empty, is the root, or ends in
/// `..` has none.
pub open spec fn file_name_of(p: Seq<char>) -> Option<Seq<char>>
    decreases p.len(),
{
    if p.len() == 0 {
        None
    } else if p.last() == '/' {
        file_name_of(p.drop_last())
    } else if p =~= seq!['.'] {
        None
    } else if p.len() >= 2 && p[p.len() - 1] == '.' && p[p.len() - 2] == '/' {
        file_name_of(p.subrange(0, p.len() - 2))
    } else if last_component(p) =~= seq!['.', '.'] {
        None
    } else {
        Some(last_component(p))
    }
}

/// `base` joined with the relative segment `seg`: a separator is put between
/// them unless `base` is empty or already ends in one.
pub open spec fn join_spec(base: Seq<char>, seg: Seq<char>) -> Seq<char> {
    if base.len() == 0 || base.last() == '/' {
        base + seg
    } else {
        base + seq!['/'] + seg
    }
}

proof fn lemma_last_slash_bounds(p: Seq<char>)
    ensures
        -1 <= last_slash(p) < p.len(),
        last_slash(p) >= 0 ==> p[last_slash(p)] == '/',
        forall|i: int| last_slash(p) < i < p.len() ==> p[i] != '/',
    decreases p.len(),
{
    if p.len() > 0 && p.last() != '/' {
        let q = p.drop_last();
        lemma_last_slash_bounds(q);
        assert forall|i: int| last_slash(p) < i < p.len() implies p[i] != '/' by {
            if i < q.len() {
                assert(p[i] == q[i]);
            }
        }
    }
}

proof fn lemma_last_slash_at(p: Seq<char>, k: int)
    requires
        -1 <= k < p.len(),
        k >= 0 ==> p[k] == '/',
        forall|i: int| k < i < p.len() ==> p[i] != '/',
    ensures
        last_slash(p) == k,
    decreases p.len(),
{
    if p.len() > 0 && p.last() != '/' {
        lemma_last_slash_at(p.drop_last(), k);
    }
}

/// A file name holds no separator and is never empty, `.` or `..`.
pub proof fn lemma_file_name_plain(p: Seq<char>)
    requires
        file_name_of(p) is Some,
    ensures
        ({
            let n = file_name_of(p)->Some_0;
            &&& n.len() > 0
            &&& !n.contains('/')
            &&& n != seq!['.']
            &&& n != seq!['.', '.']
        }),
    decreases p.len(),
{
    if p.len() == 0 {
    } else if p.last() == '/' {
        lemma_file_name_plain(p.drop_last());
    } else if p =~= seq!['.'] {
    } else if p.len() >= 2 && p[p.len() - 1] == '.' && p[p.len() - 2] == '/' {
        lemma_file_name_plain(p.subrange(0, p.len() - 2));
    } else {
        lemma_last_slash_bounds(p);
        let n = last_component(p);
        let k = last_slash(p);
        assert(n.len() > 0);
        assert forall|i: int| 0 <= i < n.len() implies n[i] != '/' by {
            assert(n[i] == p[k + 1 + i]);
        }
        if n =~= seq!['.'] {
            assert(n[0] == p[k + 1]);
            if k < 0 {
                assert(p =~= seq!['.']);
            } else {
                assert(p[p.len() - 1] == '.');
                assert(p[p.len() - 2] == '/');
            }
        }
    }
}

/// The file name of `target`, as `file_name_of` gives it.
pub fn file_name(target: &str) -> (r: Option<String>)
    ensures
        r matches Some(n) ==> file_name_of(target@) == Some(n@),
        r is None ==> file_name_of(target@) is None,
{
    let ghost p = target@;
    let n = target.unicode_len();
    let mut end: usize = n;
    assert(p.subrange(0, n as int) =~= p);
    loop
        invariant
            end <= n,
            n == p.len(),
            p == target@,
            file_name_of(p.subrange(0, end as int)) == file_name_of(p),
        ensures
            0 < end <= n,
            file_name_of(p.subrange(0, end as int)) == file_name_of(p),
            p[end - 1] != '/',
            !(end == 1 && p[end - 1] == '.'),
            !(end >= 2 && p[end - 1] == '.' && p[end - 2] == '/'),
        decreases end,
    {
        let ghost s = p.subrange(0, end as int);
        if end == 0 {
            return None;
        }
        let c = target.get_char(end - 1);
        if c == '/' {
            assert(s.drop_last() =~= p.subrange(0, end - 1));
            end = end - 1;
        } else if end == 1 && c == '.' {
            assert(s =~= seq!['.']);
            return None;
        } else if c == '.' && end >= 2 && target.get_char(end - 2) == '/' {
            assert(s.subrange(0, s.len() - 2) =~= p.subrange(0, end - 2));
            end = end - 2;
        } else {
            break;
        }
    }
    let ghost s = p.subrange(0, end as int);
    assert(s.last() == p[end - 1]);
    assert(!(s =~= seq!['.']));
    assert(s.len() >= 2 ==> s[s.len() - 1] == p[end - 1] && s[s.len() - 2] == p[end - 2]);
    let mut start: usize = end;
    while start > 0 && target.get_char(start - 1) != '/'
        invariant
            start <= end <= n,
            n == p.len(),
            p == target@,
            s == p.subrange(0, end as int),
            forall|i: int| start <= i < end ==> p[i] != '/',
        decreases start,
    {
        start = start - 1;
    }
    proof {
        lemma_last_slash_at(s, start - 1);
    }
    assert(last_component(s) =~= p.subrange(start as int, end as int));
    if end - start == 2 && target.get_char(start) == '.' && target.get_char(start + 1) == '.' {
        assert(last_component(s) =~= seq!['.', '.']);
        None
    } else {
        let comp = target.substring_char(start, end);
        Some(String::from_str(comp))
    }
}

/// `base` joined with the relative segment `seg`.
pub fn join_path(base: &str, seg: &str) -> (r: String)
    ensures
        r@ == join_spec(base@, seg@),
{
    let n = base.unicode_len();
    let joined = if n == 0 || base.get_char(n - 1) == '/' {
        String::from_str(base)
    } else {
        proof {
            reveal_strlit("/");
        }
        String::from_str(base).concat("/")
    };
    assert(joined@ + seg@ =~= join_spec(base@, seg@));
    joined.concat(seg)
}

} // verus!
