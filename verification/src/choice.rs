//! The first of several things that may be missing.

use vstd::prelude::*;

verus! {

/// The first of `options` that is present.
pub open spec fn first_present<T>(options: Seq<Option<T>>) -> Option<T>
    decreases options.len(),
{
    if options.len() == 0 {
        None
    } else if options[0] is Some {
        options[0]
    } else {
        first_present(options.skip(1))
    }
}

/// There is a first exactly when one of `options` is present, and none before it is.
pub proof fn first_present_is_first<T>(options: Seq<Option<T>>)
    ensures
        first_present(options) is None <==> (forall|i: int|
            0 <= i < options.len() ==> #[trigger] options[i] is None),
        first_present(options) is Some ==> (exists|i: int|
            0 <= i < options.len() && #[trigger] options[i] == first_present(options) && (forall|
                j: int,
            |
                0 <= j < i ==> #[trigger] options[j] is None)),
    decreases options.len(),
{
    if options.len() > 0 && options[0] is None {
        let rest = options.skip(1);
        first_present_is_first(rest);
        assert forall|j: int| 0 < j < options.len() implies #[trigger] options[j] == rest[j - 1] by {
        }
    }
}

} // verus!
