use vstd::prelude::*;
use vstd::string::StringSliceAdditionalSpecFns;

use crate::error::OpenError;

verus! {

/// The bytes of a path given as a string, the sequence the splitting
/// and walking are specified over.
pub open spec fn bytes_of(s: &str) -> Seq<u8> {
    s.spec_bytes()
}

/// The byte that separates path components.
pub const SEPARATOR: u8 = 47;

/// The ASCII dot, out of which the `.` and `..` components are made.
pub const DOT: u8 = 46;

/// An absolute path begins with the separator.
pub open spec fn is_absolute(p: Seq<u8>) -> bool {
    p.len() > 0 && p[0] == SEPARATOR
}

/// The components of a path: the (possibly empty) runs of bytes between
/// separators. A path with n separators has n + 1 components, so the
/// empty path has one empty component and `/` has two.
pub open spec fn components_of(p: Seq<u8>) -> Seq<Seq<u8>>
    decreases p.len(),
{
    if p.len() == 0 {
        seq![Seq::<u8>::empty()]
    } else if p.last() == SEPARATOR {
        components_of(p.drop_last()).push(Seq::<u8>::empty())
    } else {
        let rest = components_of(p.drop_last());
        rest.update(rest.len() - 1, rest.last().push(p.last()))
    }
}

pub proof fn lemma_components_of_len(p: Seq<u8>)
    ensures
        components_of(p).len() >= 1,
    decreases p.len(),
{
    if p.len() > 0 {
        lemma_components_of_len(p.drop_last());
    }
}

/// An absolute path always splits into at least two components: the
/// empty root marker and at least one more.
pub proof fn lemma_absolute_components_len(p: Seq<u8>)
    requires
        is_absolute(p),
    ensures
        components_of(p).len() >= 2,
    decreases p.len(),
{
    lemma_components_of_len(p.drop_last());
    if p.len() > 1 {
        assert(p.drop_last()[0] == p[0]);
        lemma_absolute_components_len(p.drop_last());
    }
}

/// A component the opener accepts: anything but `.` and `..`.
pub open spec fn component_allowed(c: Seq<u8>) -> bool {
    c != seq![DOT] && c != seq![DOT, DOT]
}

pub open spec fn all_components_allowed(p: Seq<u8>) -> bool {
    forall|i: int|
        0 <= i < components_of(p).len() ==> component_allowed(#[trigger] components_of(p)[i])
}

/// A path the opener is willing to walk: absolute, with no `.` or `..`
/// component.
pub open spec fn path_ok(p: Seq<u8>) -> bool {
    is_absolute(p) && all_components_allowed(p)
}

/// The final component, which names the target file; every earlier one
/// names a directory.
pub open spec fn leaf_of(p: Seq<u8>) -> Seq<u8> {
    components_of(p).last()
}

/// Whether `c` is one of the components of `p`.
pub open spec fn is_component_of(p: Seq<u8>, c: Seq<u8>) -> bool {
    exists|i: int| 0 <= i < components_of(p).len() && components_of(p)[i] == c
}

/// The views of the byte vectors of `cs`, in order.
pub open spec fn views_of(cs: Seq<Vec<u8>>) -> Seq<Seq<u8>> {
    Seq::new(cs.len(), |i: int| cs[i]@)
}

proof fn lemma_views_of_push(cs: Seq<Vec<u8>>, c: Vec<u8>)
    ensures
        views_of(cs.push(c)) =~= views_of(cs).push(c@),
{
}

/// Split a path on the separator byte, exactly as `components_of`
/// describes.
pub fn split_path(p: &[u8]) -> (r: Vec<Vec<u8>>)
    ensures
        views_of(r@) == components_of(p@),
{
    let mut done: Vec<Vec<u8>> = Vec::new();
    let mut cur: Vec<u8> = Vec::new();
    let mut i: usize = 0;
    proof {
        assert(p@.take(0) =~= Seq::<u8>::empty());
        assert(views_of(done@).push(cur@) =~= components_of(p@.take(0)));
    }
    while i < p.len()
        invariant
            i <= p@.len(),
            views_of(done@).push(cur@) == components_of(p@.take(i as int)),
        decreases p@.len() - i,
    {
        let ghost prefix = p@.take(i as int);
        let ghost longer = p@.take(i + 1);
        proof {
            assert(longer.drop_last() =~= prefix);
            assert(longer.last() == p@[i as int]);
        }
        let b = p[i];
        let ghost done0 = done@;
        let ghost cur0 = cur@;
        if b == SEPARATOR {
            done.push(cur);
            cur = Vec::new();
            proof {
                lemma_views_of_push(done0, done@[done0.len() as int]);
                assert(views_of(done@).push(cur@) =~= components_of(longer));
            }
        } else {
            let ghost rest = components_of(prefix);
            cur.push(b);
            proof {
                assert(rest.len() == done0.len() + 1);
                assert(rest.last() == cur0);
                assert(components_of(longer) =~= rest.update(
                    rest.len() - 1,
                    cur0.push(b),
                ));
                assert(views_of(done@).push(cur@) =~= components_of(longer));
            }
        }
        i += 1;
    }
    proof {
        assert(p@.take(p@.len() as int) =~= p@);
    }
    let ghost done_before = done@;
    let ghost cur_last = cur@;
    done.push(cur);
    proof {
        lemma_views_of_push(done_before, done@[done_before.len() as int]);
        assert(views_of(done@) =~= views_of(done_before).push(cur_last));
    }
    done
}

/// Whether one component is `.` or `..`.
fn is_dot_or_dot_dot(c: &Vec<u8>) -> (r: bool)
    ensures
        r == !component_allowed(c@),
{
    if c.len() == 1 && c[0] == DOT {
        proof {
            assert(c@ =~= seq![DOT]);
        }
        true
    } else if c.len() == 2 && c[0] == DOT && c[1] == DOT {
        proof {
            assert(c@ =~= seq![DOT, DOT]);
        }
        true
    } else {
        proof {
            assert(c@ != seq![DOT] && c@ != seq![DOT, DOT]) by {
                if c@ == seq![DOT] {
                    assert(c@.len() == 1 && c@[0] == DOT);
                }
                if c@ == seq![DOT, DOT] {
                    assert(c@.len() == 2 && c@[0] == DOT && c@[1] == DOT);
                }
            }
        }
        false
    }
}

/// Check that a path is absolute and free of `.` and `..` components,
/// and hand back its split components.
///
/// Succeeds exactly on the paths `path_ok` accepts; fails with
/// `PathNotAbsolute` exactly when the path does not begin with the
/// separator, and with `RelativeComponentDisallowed` exactly when it
/// does but holds a `.` or `..` component. Touches no file: this is
/// pure computation on the bytes.
pub fn validate_path(path: &[u8]) -> (r: Result<Vec<Vec<u8>>, OpenError>)
    ensures
        r is Ok <==> path_ok(path@),
        (r matches Err(e) && e is PathNotAbsolute) <==> !is_absolute(path@),
        (r matches Err(e) && e is RelativeComponentDisallowed) <==> (is_absolute(path@)
            && !all_components_allowed(path@)),
        r matches Ok(cs) ==> views_of(cs@) == components_of(path@) && cs@.len() >= 2,
{
    if path.len() == 0 || path[0] != SEPARATOR {
        return Err(OpenError::PathNotAbsolute);
    }
    let cs = split_path(path);
    let mut i: usize = 0;
    while i < cs.len()
        invariant
            i <= cs@.len(),
            is_absolute(path@),
            views_of(cs@) == components_of(path@),
            forall|j: int|
                0 <= j < i ==> component_allowed(#[trigger] components_of(path@)[j]),
        decreases cs@.len() - i,
    {
        if is_dot_or_dot_dot(&cs[i]) {
            proof {
                assert(components_of(path@)[i as int] == cs@[i as int]@);
                assert(!all_components_allowed(path@));
            }
            return Err(OpenError::RelativeComponentDisallowed);
        }
        i += 1;
    }
    proof {
        assert(forall|j: int|
            0 <= j < components_of(path@).len() ==> component_allowed(
                #[trigger] components_of(path@)[j],
            ));
        lemma_absolute_components_len(path@);
    }
    Ok(cs)
}

} // verus!
