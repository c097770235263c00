//! Read access to the tracked windows for the embedding configuration
//! layer.

use vstd::prelude::*;
use vstd::view::View as _;

use crate::registry::Handle;
use crate::view::View;

verus! {

/// `i` is the first position of a view placed on `output`.
pub open spec fn is_first_on_output(s: Seq<View>, output: Handle, i: int) -> bool {
    &&& 0 <= i < s.len()
    &&& s[i].output == output
    &&& forall|j: int| 0 <= j < i ==> (#[trigger] s[j]).output != output
}

/// Some view is placed on `output`.
pub open spec fn contains_output(s: Seq<View>, output: Handle) -> bool {
    exists|i: int| 0 <= i < s.len() && (#[trigger] s[i]).output == output
}

/// The window a "get client" query reports: with no screen given, the
/// most recently focused view; with a screen, the most recently focused
/// view placed on that screen's output; `None` when no view qualifies.
pub fn get_client(views: &Vec<View>, screen: Option<Handle>) -> (r: Option<View>)
    ensures
        match screen {
            None => r == if views@.len() > 0 {
                Some(views@[0])
            } else {
                None::<View>
            },
            Some(output) => {
                &&& !contains_output(views@, output) ==> r is None
                &&& forall|i: int|
                    is_first_on_output(views@, output, i) ==> r == Some(views@[i])
            },
        },
{
    match screen {
        None => {
            if views.len() > 0 {
                Some(views[0])
            } else {
                None
            }
        },
        Some(output) => {
            let n = views.len();
            let mut i: usize = 0;
            while i < n
                invariant
                    screen == Some(output),
                    n == views@.len(),
                    i <= n,
                    forall|j: int| 0 <= j < i ==> (#[trigger] views@[j]).output != output,
                decreases n - i,
            {
                if views[i].output == output {
                    proof {
                        assert forall|k: int| is_first_on_output(views@, output, k) implies k
                            == i as int by {
                            if k < i as int {
                                assert(views@[k].output == output);
                                assert(views@[k].output != output);
                            } else if k > i as int {
                                assert(views@[i as int].output == output);
                                assert(views@[i as int].output != output);
                            }
                        }
                    }
                    return Some(views[i]);
                }
                i = i + 1;
            }
            None
        },
    }
}

} // verus!
