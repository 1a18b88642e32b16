use vstd::prelude::*;
use vstd::string::*;

verus! {

/// The path of `name` inside directory `dir`: one separator between them,
/// none added where `dir` already ends with one.
pub open spec fn join_path(dir: Seq<char>, name: Seq<char>) -> Seq<char> {
    if dir.len() > 0 && dir.last() == '/' {
        dir + name
    } else {
        dir + seq!['/'] + name
    }
}

/// The characters after the last separator of `p` (all of `p` if it has none).
pub open spec fn base_name(p: Seq<char>) -> Seq<char>
    decreases p.len(),
{
    if p.len() == 0 {
        p
    } else if p.last() == '/' {
        Seq::empty()
    } else {
        base_name(p.drop_last()).push(p.last())
    }
}

/// A base name that names a file: not empty, and neither `.` nor `..`.
pub open spec fn is_file_name(n: Seq<char>) -> bool {
    n.len() > 0 && n != seq!['.'] && n != seq!['.', '.']
}

/// Inside one directory, distinct names give distinct paths.
pub proof fn lemma_join_injective(dir: Seq<char>, a: Seq<char>, b: Seq<char>)
    ensures
        join_path(dir, a) == join_path(dir, b) ==> a == b,
{
    if join_path(dir, a) == join_path(dir, b) {
        let k = join_path(dir, a).len() - a.len();
        assert(a =~= join_path(dir, a).subrange(k, join_path(dir, a).len() as int));
        assert(b =~= join_path(dir, b).subrange(k, join_path(dir, b).len() as int));
    }
}

/// Joins a directory and a name into one path.
pub fn join(dir: &str, name: &str) -> (r: String)
    ensures
        r@ == join_path(dir@, name@),
{
    let n = dir.unicode_len();
    let mut r = String::from_str(dir);
    if n > 0 && dir.get_char(n - 1) == '/' {
        r.append(name);
    } else {
        let sep = "/";
        proof {
            reveal_strlit("/");
        }
        r.append(sep);
        r.append(name);
        assert(r@ =~= dir@ + seq!['/'] + name@);
    }
    r
}

/// The final component of `path`, if it names a file.
pub fn file_name(path: &str) -> (r: Option<String>)
    ensures
        r matches Some(n) ==> n@ == base_name(path@),
        r is Some <==> is_file_name(base_name(path@)),
{
    let n = path.unicode_len();
    let mut i: usize = n;
    assert(path@.subrange(0, n as int) =~= path@);
    assert(base_name(path@) =~= base_name(path@) + path@.subrange(n as int, n as int));
    while i > 0 && path.get_char(i - 1) != '/'
        invariant
            n == path@.len(),
            i <= n,
            base_name(path@) =~= base_name(path@.subrange(0, i as int)) + path@.subrange(
                i as int,
                n as int,
            ),
        decreases i,
    {
        proof {
            let p = path@.subrange(0, i as int);
            assert(p.drop_last() =~= path@.subrange(0, i - 1));
            assert(path@.subrange(i - 1, n as int) =~= seq![p.last()] + path@.subrange(
                i as int,
                n as int,
            ));
            assert(base_name(p) =~= base_name(p.drop_last()).push(p.last()));
        }
        i = i - 1;
    }
    proof {
        let p = path@.subrange(0, i as int);
        if i > 0 {
            assert(base_name(p) =~= Seq::<char>::empty());
        } else {
            assert(p.len() == 0);
        }
        assert(base_name(path@) =~= path@.subrange(i as int, n as int));
    }
    let s = path.substring_char(i, n);
    let len = n - i;
    if len == 0 {
        return None;
    }
    if s.get_char(0) == '.' {
        if len == 1 {
            assert(s@ =~= seq!['.']);
            return None;
        }
        if len == 2 && s.get_char(1) == '.' {
            assert(s@ =~= seq!['.', '.']);
            return None;
        }
    }
    Some(String::from_str(s))
}

} // verus!
