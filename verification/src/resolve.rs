//! The affected-set resolver: a package is affected exactly when at least one
//! changed file lies in the package's directory, and the affected packages
//! keep the relative order of the input package list.

use vstd::prelude::*;

use crate::paths::{
    components_contain, parent_components, spec_components_contain, spec_parent_components,
};

verus! {

/// A workspace package: a name and the path of its manifest file. The
/// package's directory is the manifest path's parent directory.
pub struct Package {
    pub name: String,
    pub manifest_path: Vec<u8>,
}

/// The mathematical content of a package.
pub struct PackageModel {
    pub name: Seq<char>,
    pub manifest_path: Seq<u8>,
}

impl View for Package {
    type V = PackageModel;

    open spec fn view(&self) -> PackageModel {
        PackageModel { name: self.name@, manifest_path: self.manifest_path@ }
    }
}

/// A package is affected exactly when some changed file lies in its
/// directory.
pub open spec fn spec_affected(p: PackageModel, changed: Seq<Seq<u8>>) -> bool {
    exists|j: int|
        0 <= j < changed.len() && spec_components_contain(
            spec_parent_components(p.manifest_path),
            changed[j],
        )
}

/// Whether any of `files` lies in the directory with components `dir`.
pub fn any_in_dir(dir: &Vec<Vec<u8>>, files: &Vec<Vec<u8>>) -> (r: bool)
    ensures
        r == exists|j: int|
            0 <= j < files.deep_view().len() && spec_components_contain(
                dir.deep_view(),
                files.deep_view()[j],
            ),
{
    let mut j: usize = 0;
    while j < files.len()
        invariant
            j <= files@.len(),
            forall|k: int| #![trigger files.deep_view()[k]]
                0 <= k < j ==> !spec_components_contain(dir.deep_view(), files.deep_view()[k]),
        decreases files@.len() - j,
    {
        let hit = components_contain(dir, &files[j]);
        proof {
            assert(files.deep_view()[j as int] =~= files@[j as int]@);
        }
        if hit {
            return true;
        }
        j += 1;
    }
    false
}

/// The indices, in increasing order, of the packages affected by the changed
/// files: exactly those packages whose directory contains at least one
/// changed file, each listed once, in the order of the input list.
pub fn resolve_affected(packages: &Vec<Package>, changed: &Vec<Vec<u8>>) -> (r: Vec<usize>)
    ensures
        forall|k: int| 0 <= k < r@.len() ==> (r@[k] as int) < packages@.len(),
        forall|k1: int, k2: int| 0 <= k1 < k2 < r@.len() ==> r@[k1] < r@[k2],
        forall|i: int| #![trigger packages@[i]]
            0 <= i < packages@.len() ==> ((exists|k: int| 0 <= k < r@.len() && r@[k] == i)
                <==> spec_affected(packages@[i]@, changed.deep_view())),
{
    let mut r: Vec<usize> = Vec::new();
    let mut idx: usize = 0;
    while idx < packages.len()
        invariant
            idx <= packages@.len(),
            forall|k: int| 0 <= k < r@.len() ==> (r@[k] as int) < idx,
            forall|k1: int, k2: int| 0 <= k1 < k2 < r@.len() ==> r@[k1] < r@[k2],
            forall|i: int| #![trigger packages@[i]]
                0 <= i < idx ==> ((exists|k: int| 0 <= k < r@.len() && r@[k] == i)
                    <==> spec_affected(packages@[i]@, changed.deep_view())),
        decreases packages@.len() - idx,
    {
        let dir = parent_components(&packages[idx].manifest_path);
        let aff = any_in_dir(&dir, changed);
        proof {
            assert(aff == spec_affected(packages@[idx as int]@, changed.deep_view())) by {
                let d = spec_parent_components(packages@[idx as int]@.manifest_path);
                let c = changed.deep_view();
                if aff {
                    let j = choose|j: int|
                        0 <= j < c.len() && spec_components_contain(dir.deep_view(), c[j]);
                    assert(spec_components_contain(d, c[j]));
                } else if spec_affected(packages@[idx as int]@, c) {
                    let j = choose|j: int| 0 <= j < c.len() && spec_components_contain(d, c[j]);
                    assert(spec_components_contain(dir.deep_view(), c[j]));
                }
            }
        }
        let ghost old_r = r@;
        if aff {
            r.push(idx);
        }
        proof {
            assert forall|i: int| 0 <= i < idx + 1 implies ((exists|k: int|
                0 <= k < r@.len() && r@[k] == i) <==> spec_affected(
                packages@[i]@,
                changed.deep_view(),
            )) by {
                if aff {
                    assert(r@ =~= old_r.push(idx));
                    if i == idx {
                        assert(r@[r@.len() - 1] == i);
                    } else {
                        if exists|k: int| 0 <= k < old_r.len() && old_r[k] == i {
                            let k = choose|k: int| 0 <= k < old_r.len() && old_r[k] == i;
                            assert(r@[k] == i);
                        }
                        if exists|k: int| 0 <= k < r@.len() && r@[k] == i {
                            let k = choose|k: int| 0 <= k < r@.len() && r@[k] == i;
                            if k < old_r.len() {
                                assert(old_r[k] == i);
                            }
                        }
                    }
                } else {
                    if i == idx {
                        if exists|k: int| 0 <= k < r@.len() && r@[k] == i {
                            let k = choose|k: int| 0 <= k < r@.len() && r@[k] == i;
                            assert((r@[k] as int) < idx);
                        }
                    }
                }
            }
        }
        idx += 1;
    }
    r
}

/// A single changed file affects a package exactly when the file's path
/// components start with the components of the package's directory.
pub proof fn lemma_affected_iff_component_prefix(p: PackageModel, file: Seq<u8>)
    ensures
        spec_affected(p, seq![file]) <==> spec_components_contain(
            spec_parent_components(p.manifest_path),
            file,
        ),
{
    if spec_components_contain(spec_parent_components(p.manifest_path), file) {
        assert(seq![file][0] == file);
    }
}

/// If no changed file lies in any package's directory — in particular when
/// the changed set is empty — then no package is affected, so the run is a
/// no-op: the resolver returns no package.
pub proof fn lemma_no_contained_file_no_affected(packages: Seq<PackageModel>, changed: Seq<Seq<u8>>)
    requires
        forall|i: int, j: int|
            0 <= i < packages.len() && 0 <= j < changed.len() ==> !spec_components_contain(
                spec_parent_components(#[trigger] packages[i].manifest_path),
                #[trigger] changed[j],
            ),
    ensures
        forall|i: int| 0 <= i < packages.len() ==> !spec_affected(#[trigger] packages[i], changed),
{
    assert forall|i: int| 0 <= i < packages.len() implies !spec_affected(
        #[trigger] packages[i],
        changed,
    ) by {
        if spec_affected(packages[i], changed) {
            let j = choose|j: int|
                0 <= j < changed.len() && spec_components_contain(
                    spec_parent_components(packages[i].manifest_path),
                    changed[j],
                );
            assert(!spec_components_contain(
                spec_parent_components(packages[i].manifest_path),
                changed[j],
            ));
        }
    }
}

} // verus!
