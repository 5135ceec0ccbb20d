//! Parsing the change source's output: the version-control query prints one
//! repository-relative path per line, and each line is resolved to an
//! absolute path under the toplevel directory.

use vstd::prelude::*;

use crate::bytes::{lines_of, split_lines};
use crate::paths::{join_path, spec_join};

verus! {

/// The absolute paths named by `output`: one per line, each resolved against
/// `toplevel`.
pub fn parse_file_list(toplevel: &Vec<u8>, output: &Vec<u8>) -> (r: Vec<Vec<u8>>)
    ensures
        r.deep_view() == lines_of(output@).map_values(|l: Seq<u8>| spec_join(toplevel@, l)),
{
    let lines = split_lines(output);
    let mut r: Vec<Vec<u8>> = Vec::new();
    let mut i: usize = 0;
    while i < lines.len()
        invariant
            i <= lines@.len(),
            lines.deep_view() == lines_of(output@),
            r@.len() == i,
            forall|j: int| 0 <= j < i ==> (#[trigger] r@[j])@ == spec_join(
                toplevel@,
                lines.deep_view()[j],
            ),
        decreases lines@.len() - i,
    {
        let p = join_path(toplevel, &lines[i]);
        proof {
            assert(lines.deep_view()[i as int] =~= lines@[i as int]@);
        }
        r.push(p);
        i += 1;
    }
    proof {
        assert(r.deep_view() =~~= lines_of(output@).map_values(
            |l: Seq<u8>| spec_join(toplevel@, l),
        ));
    }
    r
}

} // verus!
