use vstd::prelude::*;
use vstd::string::StringExecFns;

verus! {

/// A directory path joined with a child entry name, separated by `/`.
pub open spec fn join_spec(dir: Seq<char>, name: Seq<char>) -> Seq<char> {
    dir + "/"@ + name
}

/// Appends `name` to `dir` as a child path component.
pub fn join_path(dir: &String, name: &str) -> (r: String)
    ensures
        r@ == join_spec(dir@, name@),
{
    let mut r = dir.clone();
    r.append("/");
    r.append(name);
    r
}

/// Joining two different child names onto the same directory gives two
/// different paths, and the same name gives the same path.
pub proof fn lemma_join_injective(dir: Seq<char>, a: Seq<char>, b: Seq<char>)
    ensures
        (join_spec(dir, a) == join_spec(dir, b)) == (a == b),
{
    if join_spec(dir, a) == join_spec(dir, b) {
        assert(join_spec(dir, a).len() == dir.len() + "/"@.len() + a.len());
        assert(join_spec(dir, b).len() == dir.len() + "/"@.len() + b.len());
        assert(a.len() == b.len());
        let off = dir.len() + "/"@.len();
        assert forall|i: int| 0 <= i < a.len() implies a[i] == b[i] by {
            assert(join_spec(dir, a)[off + i] == a[i]);
            assert(join_spec(dir, b)[off + i] == b[i]);
        }
        assert(a =~= b);
    }
}

} // verus!
