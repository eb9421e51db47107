use vstd::prelude::*;
use vstd::string::StrSliceExecFns;

verus! {

/// The argument list with its empty entries dropped; everything else keeps
/// its order. A service's arguments are stored in this form.
pub open spec fn keep_nonempty(args: Seq<Seq<char>>) -> Seq<Seq<char>>
    decreases args.len(),
{
    if args.len() == 0 {
        Seq::empty()
    } else {
        let rest = keep_nonempty(args.drop_last());
        if args.last().len() > 0 {
            rest.push(args.last())
        } else {
            rest
        }
    }
}

pub proof fn lemma_keep_nonempty_push(s: Seq<Seq<char>>, x: Seq<char>)
    ensures
        keep_nonempty(s.push(x)) == if x.len() > 0 {
            keep_nonempty(s).push(x)
        } else {
            keep_nonempty(s)
        },
{
    assert(s.push(x).drop_last() =~= s);
    assert(s.push(x).last() == x);
}

/// Every entry a filtered list holds is nonempty.
pub proof fn lemma_keep_nonempty_entries(args: Seq<Seq<char>>)
    ensures
        forall|i: int|
            0 <= i < keep_nonempty(args).len() ==> #[trigger] keep_nonempty(args)[i].len() > 0,
    decreases args.len(),
{
    if args.len() > 0 {
        lemma_keep_nonempty_entries(args.drop_last());
        let rest = keep_nonempty(args.drop_last());
        if args.last().len() > 0 {
            assert forall|i: int|
                0 <= i < keep_nonempty(args).len() implies #[trigger] keep_nonempty(
                args,
            )[i].len() > 0 by {
                if i < rest.len() {
                    assert(keep_nonempty(args)[i] == rest[i]);
                } else {
                    assert(keep_nonempty(args)[i] == args.last());
                }
            }
        }
    }
}

/// The argument list with its empty entries dropped.
pub fn drop_empty_args(args: &Vec<String>) -> (r: Vec<String>)
    ensures
        r.deep_view() == keep_nonempty(args.deep_view()),
{
    let mut r: Vec<String> = Vec::new();
    let n = args.len();
    let mut i: usize = 0;
    while i < n
        invariant
            i <= n,
            n == args.len(),
            r.deep_view() == keep_nonempty(args.deep_view().take(i as int)),
        decreases n - i,
    {
        proof {
            assert(args.deep_view().take(i + 1).drop_last() =~= args.deep_view().take(i as int));
            assert(args.deep_view().take(i + 1).last() == args@[i as int]@);
            lemma_keep_nonempty_push(args.deep_view().take(i as int), args@[i as int]@);
        }
        if !args[i].as_str().is_empty() {
            let ghost old_r = r.deep_view();
            r.push(args[i].clone());
            proof {
                assert(r.deep_view() =~= old_r.push(args@[i as int]@));
            }
        }
        i += 1;
    }
    proof {
        assert(args.deep_view().take(n as int) =~= args.deep_view());
    }
    r
}

/// An element-by-element copy of an argument list.
pub fn clone_args(args: &Vec<String>) -> (r: Vec<String>)
    ensures
        r.deep_view() == args.deep_view(),
{
    let mut r: Vec<String> = Vec::new();
    let n = args.len();
    let mut i: usize = 0;
    while i < n
        invariant
            i <= n,
            n == args.len(),
            r.deep_view() == args.deep_view().take(i as int),
        decreases n - i,
    {
        let ghost old_r = r.deep_view();
        r.push(args[i].clone());
        proof {
            assert(r.deep_view() =~= old_r.push(args@[i as int]@));
            assert(args.deep_view().take(i + 1) =~= args.deep_view().take(i as int).push(
                args@[i as int]@,
            ));
        }
        i += 1;
    }
    proof {
        assert(args.deep_view().take(n as int) =~= args.deep_view());
    }
    r
}

/// A service name the target platforms accept as a registry key and as part
/// of a unit-file name: nonempty, with no path separator in it.
pub open spec fn valid_name(name: Seq<char>) -> bool {
    &&& name.len() > 0
    &&& forall|i: int| 0 <= i < name.len() ==> name[i] != '/' && name[i] != '\\'
}

/// Decide [`valid_name`] for a given name.
pub fn check_name(name: &str) -> (r: bool)
    ensures
        r == valid_name(name@),
{
    let n = name.unicode_len();
    if n == 0 {
        return false;
    }
    let mut i: usize = 0;
    while i < n
        invariant
            i <= n,
            n == name@.len(),
            forall|j: int| 0 <= j < i ==> name@[j] != '/' && name@[j] != '\\',
        decreases n - i,
    {
        let c = name.get_char(i);
        if c == '/' || c == '\\' {
            return false;
        }
        i += 1;
    }
    true
}

} // verus!
