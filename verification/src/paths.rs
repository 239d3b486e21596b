//! Path and listing text: joining a request path onto the server's root
//! directory, and rendering the listing as one line per stored path.

use vstd::prelude::*;
use vstd::string::StringExecFns;

verus! {

/// Each path in order, each followed by a newline.
pub open spec fn spec_join_lines(paths: Seq<Seq<char>>) -> Seq<char>
    decreases paths.len(),
{
    if paths.len() == 0 {
        Seq::empty()
    } else {
        spec_join_lines(paths.drop_last()) + paths.last() + seq!['\n']
    }
}

/// Renders the listing: every path in order, each on its own line.
pub fn join_lines(paths: &Vec<String>) -> (r: String)
    ensures
        r@ == spec_join_lines(paths@.map_values(|p: String| p@)),
{
    let mut r = String::new();
    let mut i: usize = 0;
    while i < paths.len()
        invariant
            i <= paths@.len(),
            r@ == spec_join_lines(paths@.map_values(|p: String| p@).take(i as int)),
        decreases paths@.len() - i,
    {
        r.append(paths[i].as_str());
        r.append("\n");
        proof {
            reveal_strlit("\n");
            let ps = paths@.map_values(|p: String| p@);
            assert(ps.take(i + 1).drop_last() =~= ps.take(i as int));
            assert(ps.take(i + 1).last() == ps[i as int]);
            assert("\n"@ =~= seq!['\n']);
            assert(r@ =~= spec_join_lines(ps.take(i + 1)));
        }
        i += 1;
    }
    proof {
        let ps = paths@.map_values(|p: String| p@);
        assert(ps.take(ps.len() as int) =~= ps);
    }
    r
}

/// The server-side location of the file a request names: the root directory,
/// a separator, and the request's path.
pub fn full_path(root: &String, tail: &String) -> (r: String)
    ensures
        r@ == root@ + seq!['/'] + tail@,
{
    let mut r = root.clone();
    r.append("/");
    r.append(tail.as_str());
    proof {
        reveal_strlit("/");
        assert(r@ =~= root@ + seq!['/'] + tail@);
    }
    r
}

} // verus!
