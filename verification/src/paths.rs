//! Path semantics: a path is a byte string whose components are separated by
//! slashes, and a directory contains a file exactly when the directory's
//! components are a prefix of the file's components. Comparing component-wise
//! keeps `/ws/foo-bar/x.txt` out of the directory `/ws/foo`.

use vstd::prelude::*;

use crate::bytes::{bytes_eq, split_on, split_on_byte, lemma_split_on_nonempty};

verus! {

/// The byte that separates path components.
pub const SEP: u8 = 47;

/// The components of a path: the byte string split at every separator.
pub open spec fn components_of(p: Seq<u8>) -> Seq<Seq<u8>> {
    split_on(p, SEP)
}

/// A directory given by its components contains a file exactly when those
/// components are a prefix of the file's components.
pub open spec fn spec_components_contain(dir: Seq<Seq<u8>>, file: Seq<u8>) -> bool {
    dir.is_prefix_of(components_of(file))
}

/// A directory contains a file exactly when the directory's path components
/// are a prefix of the file's path components.
pub open spec fn spec_dir_contains(dir: Seq<u8>, file: Seq<u8>) -> bool {
    spec_components_contain(components_of(dir), file)
}

/// The directory that holds the file a path names: the path's components
/// without the last one.
pub open spec fn spec_parent_components(p: Seq<u8>) -> Seq<Seq<u8>> {
    components_of(p).drop_last()
}

/// Joining a relative path onto a base path: an absolute relative part wins,
/// and a separator is inserted unless the base already ends with one.
pub open spec fn spec_join(base: Seq<u8>, rel: Seq<u8>) -> Seq<u8> {
    if rel.len() > 0 && rel[0] == SEP {
        rel
    } else if base.len() > 0 && base.last() == SEP {
        base + rel
    } else {
        base + seq![SEP] + rel
    }
}

/// The components of `p`.
pub fn path_components(p: &Vec<u8>) -> (r: Vec<Vec<u8>>)
    ensures
        r.deep_view() == components_of(p@),
{
    split_on_byte(p, SEP)
}

/// The components of the directory that holds the file `p` names.
pub fn parent_components(p: &Vec<u8>) -> (r: Vec<Vec<u8>>)
    ensures
        r.deep_view() == spec_parent_components(p@),
{
    let mut c = path_components(p);
    proof {
        lemma_split_on_nonempty(p@, SEP);
        assert(c@.len() == c.deep_view().len());
    }
    c.pop();
    proof {
        assert(c.deep_view() =~~= spec_parent_components(p@));
    }
    c
}

/// Whether the directory with components `dir` contains the file `file`.
pub fn components_contain(dir: &Vec<Vec<u8>>, file: &Vec<u8>) -> (r: bool)
    ensures
        r == spec_components_contain(dir.deep_view(), file@),
{
    let fc = path_components(file);
    if dir.len() > fc.len() {
        proof {
            assert(!dir.deep_view().is_prefix_of(fc.deep_view()));
        }
        return false;
    }
    let mut i: usize = 0;
    while i < dir.len()
        invariant
            i <= dir@.len() <= fc@.len(),
            fc.deep_view() == components_of(file@),
            forall|j: int| 0 <= j < i ==> dir.deep_view()[j] == fc.deep_view()[j],
        decreases dir@.len() - i,
    {
        let same = bytes_eq(&dir[i], &fc[i]);
        proof {
            assert(dir.deep_view()[i as int] =~= dir@[i as int]@);
            assert(fc.deep_view()[i as int] =~= fc@[i as int]@);
        }
        if !same {
            proof {
                let d = dir.deep_view();
                let f = fc.deep_view();
                assert(d[i as int] != f[i as int]);
                assert(!d.is_prefix_of(f)) by {
                    if d.is_prefix_of(f) {
                        assert(d =~= f.subrange(0, d.len() as int));
                        assert(d[i as int] == f[i as int]);
                    }
                }
            }
            return false;
        }
        i += 1;
    }
    proof {
        assert(dir.deep_view() =~= fc.deep_view().subrange(0, dir.deep_view().len() as int));
    }
    true
}

/// Whether the directory `dir` contains the file `file`.
pub fn dir_contains(dir: &Vec<u8>, file: &Vec<u8>) -> (r: bool)
    ensures
        r == spec_dir_contains(dir@, file@),
{
    let dc = path_components(dir);
    components_contain(&dc, file)
}

/// Joins a relative path onto a base path.
pub fn join_path(base: &Vec<u8>, rel: &Vec<u8>) -> (r: Vec<u8>)
    ensures
        r@ == spec_join(base@, rel@),
{
    if rel.len() > 0 && rel[0] == SEP {
        let r = crate::bytes::subvec(rel, 0, rel.len());
        proof {
            assert(r@ =~= rel@);
        }
        return r;
    }
    let mut r = crate::bytes::subvec(base, 0, base.len());
    proof {
        assert(r@ =~= base@);
    }
    if !(base.len() > 0 && base[base.len() - 1] == SEP) {
        r.push(SEP);
        proof {
            assert(r@ =~= base@ + seq![SEP]);
        }
    }
    let ghost mid = r@;
    let mut i: usize = 0;
    while i < rel.len()
        invariant
            i <= rel@.len(),
            r@ == mid + rel@.subrange(0, i as int),
        decreases rel@.len() - i,
    {
        r.push(rel[i]);
        proof {
            assert(r@ =~= mid + rel@.subrange(0, i as int + 1));
        }
        i += 1;
    }
    proof {
        assert(rel@.subrange(0, rel@.len() as int) =~= rel@);
        assert(r@ =~= spec_join(base@, rel@));
    }
    r
}

} // verus!
