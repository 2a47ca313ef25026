use vstd::prelude::*;

verus! {

/// The path separator byte.
pub const SEPARATOR: u8 = 47;

/// `target` names `root` itself or something beneath it. Both are canonical
/// absolute paths as the filesystem resolves them: no `.` or `..` segment, no
/// repeated separator, and no trailing separator except on the filesystem root.
/// Containment is then a byte prefix that ends on a segment boundary.
pub open spec fn is_within(target: Seq<u8>, root: Seq<u8>) -> bool {
    target == root || (root.is_prefix_of(target) && (
        (root.len() > 0 && root.last() == SEPARATOR)
        || target[root.len() as int] == SEPARATOR))
}

/// A root admits `target` when it resolved and `target` lies within it.
pub open spec fn root_admits(root: Option<Vec<u8>>, target: Seq<u8>) -> bool {
    match root {
        Some(r) => is_within(target, r@),
        None => false,
    }
}

/// Some resolved root of `roots` holds the resolved path `target`.
pub open spec fn admitted(target: Seq<u8>, roots: Seq<Option<Vec<u8>>>) -> bool {
    exists|i: int| 0 <= i < roots.len() && #[trigger] root_admits(roots[i], target)
}

/// Decides whether the canonical path `target` lies within the canonical path `root`.
pub fn path_within(target: &Vec<u8>, root: &Vec<u8>) -> (r: bool)
    ensures
        r == is_within(target@, root@),
{
    let n = root.len();
    if n > target.len() {
        return false;
    }
    let mut i: usize = 0;
    while i < n
        invariant
            n == root@.len(),
            n <= target@.len(),
            i <= n,
            forall|j: int| 0 <= j < i ==> target@[j] == root@[j],
        decreases n - i,
    {
        if target[i] != root[i] {
            return false;
        }
        i = i + 1;
    }
    assert(root@ =~= target@.subrange(0, n as int));
    if n == target.len() {
        assert(target@ =~= root@);
        true
    } else {
        (n > 0 && root[n - 1] == SEPARATOR) || target[n] == SEPARATOR
    }
}

/// The containment check that gates file reads. `target` is the canonical form
/// of the requested path and `roots` the canonical forms of the allowed roots,
/// `None` wherever resolution failed. A target that did not resolve, or that no
/// resolved root holds, is refused.
pub fn check(target: &Option<Vec<u8>>, roots: &Vec<Option<Vec<u8>>>) -> (r: bool)
    ensures
        r == (target matches Some(t) && admitted(t@, roots@)),
{
    match target {
        None => false,
        Some(t) => {
            assert(*target == Some(*t));
            let mut i: usize = 0;
            while i < roots.len()
                invariant
                    *target == Some(*t),
                    i <= roots@.len(),
                    forall|j: int| 0 <= j < i ==> !#[trigger] root_admits(roots@[j], t@),
                decreases roots@.len() - i,
            {
                match &roots[i] {
                    Some(root) => {
                        if path_within(t, root) {
                            assert(root_admits(roots@[i as int], t@));
                            return true;
                        }
                    },
                    None => {},
                }
                i = i + 1;
            }
            false
        },
    }
}

/// A target whose canonical form lies outside every resolved root is refused,
/// however the requested path was spelled.
pub proof fn lemma_outside_every_root_is_refused(target: Seq<u8>, roots: Seq<Option<Vec<u8>>>)
    requires
        forall|i: int| 0 <= i < roots.len() ==> !#[trigger] root_admits(roots[i], target),
    ensures
        !admitted(target, roots),
{
}

} // verus!
