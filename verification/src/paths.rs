//! Tail-path validation and resolution against the base directory.

use vstd::prelude::*;
use vstd::assert_seqs_equal;
use crate::base_dir;

verus! {

/// A parent-directory segment `..` stands at position `i` of `s`: two
/// dots bounded on each side by a separator or by an end of the path.
pub open spec fn is_dotdot_at(s: Seq<u8>, i: int) -> bool {
    &&& 0 <= i
    &&& i + 2 <= s.len()
    &&& s[i] == 46u8
    &&& s[i + 1] == 46u8
    &&& (i == 0 || s[i - 1] == 47u8)
    &&& (i + 2 == s.len() || s[i + 2] == 47u8)
}

/// The path contains a parent-directory segment somewhere.
pub open spec fn has_dotdot(s: Seq<u8>) -> bool {
    exists|i: int| is_dotdot_at(s, i)
}

/// The path contains a NUL byte, which no filesystem path may hold.
pub open spec fn has_nul(s: Seq<u8>) -> bool {
    exists|i: int| 0 <= i < s.len() && s[i] == 0u8
}

/// The path is absolute: it starts with a separator.
pub open spec fn is_absolute(s: Seq<u8>) -> bool {
    s.len() > 0 && s[0] == 47u8
}

/// A tail is acceptable when it is a well-formed relative path that
/// never climbs out of the directory it is joined onto.
pub open spec fn tail_ok(s: Seq<u8>) -> bool {
    &&& !has_nul(s)
    &&& !is_absolute(s)
    &&& !has_dotdot(s)
}

/// The file path an acceptable tail resolves to: the base directory
/// prefix followed by the tail.
pub open spec fn resolved_path(tail: Seq<u8>) -> Seq<u8> {
    base_dir() + tail
}

/// Why a tail path was turned away without touching the filesystem.
#[derive(Clone, Copy, Debug, PartialEq, Eq, Structural)]
pub enum PathRejection {
    /// The tail holds a NUL byte and is no filesystem path at all.
    Malformed,
    /// The tail is an absolute path rather than one under the base.
    Absolute,
    /// The tail holds a parent-directory segment.
    Traversal,
}

/// The verdict on a tail path: the rejection it earns, with a NUL byte
/// reported before an absolute path and that before a traversal, or
/// acceptance.
pub open spec fn tail_verdict(s: Seq<u8>) -> Result<(), PathRejection> {
    if has_nul(s) {
        Err(PathRejection::Malformed)
    } else if is_absolute(s) {
        Err(PathRejection::Absolute)
    } else if has_dotdot(s) {
        Err(PathRejection::Traversal)
    } else {
        Ok(())
    }
}

fn scan_nul(tail: &[u8]) -> (found: bool)
    ensures
        found == has_nul(tail@),
{
    let n: usize = tail.len();
    let mut i: usize = 0;
    while i < n
        invariant
            n == tail@.len(),
            0 <= i <= n,
            forall|j: int| 0 <= j < i ==> tail@[j] != 0u8,
        decreases n - i,
    {
        if tail[i] == 0u8 {
            assert(has_nul(tail@));
            return true;
        }
        i = i + 1;
    }
    false
}

fn scan_dotdot(tail: &[u8]) -> (found: bool)
    ensures
        found == has_dotdot(tail@),
{
    let n: usize = tail.len();
    let mut i: usize = 0;
    while i < n
        invariant
            n == tail@.len(),
            0 <= i <= n,
            forall|j: int| 0 <= j < i ==> !is_dotdot_at(tail@, j),
        decreases n - i,
    {
        if n - i >= 2 && tail[i] == 46u8 && tail[i + 1] == 46u8
            && (i == 0 || tail[i - 1] == 47u8)
            && (n - i == 2 || tail[i + 2] == 47u8) {
            assert(is_dotdot_at(tail@, i as int));
            return true;
        }
        i = i + 1;
    }
    proof {
        assert forall|j: int| !is_dotdot_at(tail@, j) by {
            if 0 <= j && j < n {
                assert(!is_dotdot_at(tail@, j));
            }
        }
    }
    false
}

/// Decides whether a tail path may be served, and if not, why: the
/// result is exactly `tail_verdict`, so acceptance coincides with
/// `tail_ok` and each rejection names its cause.
pub fn check_tail(tail: &[u8]) -> (r: Result<(), PathRejection>)
    ensures
        r == tail_verdict(tail@),
        r is Ok <==> tail_ok(tail@),
{
    if scan_nul(tail) {
        return Err(PathRejection::Malformed);
    }
    if tail.len() > 0 && tail[0] == 47u8 {
        return Err(PathRejection::Absolute);
    }
    if scan_dotdot(tail) {
        return Err(PathRejection::Traversal);
    }
    Ok(())
}

/// The base directory prefix `./hls/` as bytes.
pub fn base_dir_bytes() -> (v: Vec<u8>)
    ensures
        v@ == base_dir(),
{
    let mut v: Vec<u8> = Vec::new();
    v.push(46u8);
    v.push(47u8);
    v.push(104u8);
    v.push(108u8);
    v.push(115u8);
    v.push(47u8);
    proof {
        assert_seqs_equal!(v@ == base_dir());
    }
    v
}

/// Resolves a tail path to the file path to open: the base directory
/// prefix followed by the tail, for exactly the acceptable tails; the
/// unacceptable ones are turned away with the rejection that
/// `tail_verdict` names.
pub fn resolve_tail(tail: &[u8]) -> (r: Result<Vec<u8>, PathRejection>)
    ensures
        r is Ok <==> tail_ok(tail@),
        r is Ok ==> r->Ok_0@ == resolved_path(tail@),
        r is Err ==> tail_verdict(tail@) == Result::<(), PathRejection>::Err(r->Err_0),
{
    match check_tail(tail) {
        Err(e) => Err(e),
        Ok(()) => {
            let mut v = base_dir_bytes();
            let n: usize = tail.len();
            let mut i: usize = 0;
            while i < n
                invariant
                    n == tail@.len(),
                    0 <= i <= n,
                    v@ == base_dir() + tail@.subrange(0, i as int),
                decreases n - i,
            {
                v.push(tail[i]);
                proof {
                    assert_seqs_equal!(v@ == base_dir() + tail@.subrange(0, i as int + 1));
                }
                i = i + 1;
            }
            proof {
                assert_seqs_equal!(tail@.subrange(0, n as int) == tail@);
            }
            Ok(v)
        },
    }
}

/// Law: the path an acceptable tail resolves to stays inside the base
/// directory. It begins with the base directory prefix, it is not
/// absolute, and it holds no parent-directory segment, so it cannot
/// name anything outside the base directory.
pub proof fn lemma_resolution_contained(tail: Seq<u8>)
    requires
        tail_ok(tail),
    ensures
        resolved_path(tail).len() >= base_dir().len(),
        resolved_path(tail).subrange(0, base_dir().len() as int) == base_dir(),
        !is_absolute(resolved_path(tail)),
        !has_dotdot(resolved_path(tail)),
{
    let c = resolved_path(tail);
    assert(c.len() == 6 + tail.len());
    assert_seqs_equal!(c.subrange(0, 6) == base_dir());
    assert(c[0] == 46u8);
    assert forall|i: int| !is_dotdot_at(c, i) by {
        if is_dotdot_at(c, i) {
            if i + 2 <= 6 {
                assert(c[0] == 46u8);
                assert(c[1] == 47u8);
                assert(c[2] == 104u8);
                assert(c[3] == 108u8);
                assert(c[4] == 115u8);
                assert(false);
            } else if i < 6 {
                assert(i == 5);
                assert(c[5] == 47u8);
                assert(false);
            } else {
                assert(c[i] == tail[i - 6]);
                assert(c[i + 1] == tail[i - 5]);
                assert(i - 6 == 0 || c[i - 1] == tail[i - 7]);
                assert(i + 2 < c.len() ==> c[i + 2] == tail[i - 4]);
                assert(is_dotdot_at(tail, i - 6));
                assert(false);
            }
        }
    }
}

} // verus!
