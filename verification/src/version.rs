use vstd::prelude::*;

verus! {

/// The package codec offers two wire layouts, selected by a flag: the default
/// layout (`false`) and an alternate layout (`true`). For a package that
/// defines no worlds and no interfaces the alternate layout is never used: a
/// request for it is silently corrected to the default layout. When the
/// caller leaves the choice open the default layout is taken, so the
/// selection is a function of its inputs alone.
pub open spec fn effective_version(package_empty: bool, requested: Option<bool>) -> bool {
    if package_empty {
        false
    } else {
        match requested {
            Option::Some(v) => v,
            Option::None => false,
        }
    }
}

/// Pick the wire layout for a package, correcting an alternate-layout request
/// on an empty package to the default layout.
pub fn choose_version(package_empty: bool, requested: Option<bool>) -> (v: bool)
    ensures
        v == effective_version(package_empty, requested),
{
    if package_empty {
        false
    } else {
        match requested {
            Option::Some(v) => v,
            Option::None => false,
        }
    }
}

/// An empty package is never given the alternate layout, whatever was
/// requested.
pub proof fn lemma_version_safety(requested: Option<bool>)
    ensures
        !effective_version(true, requested),
{
}

/// The layout choice depends only on the package's emptiness and on the
/// request, including the case where no layout was requested.
pub proof fn lemma_version_choice_deterministic(
    e1: bool,
    r1: Option<bool>,
    e2: bool,
    r2: Option<bool>,
)
    ensures
        (e1 == e2 && r1 == r2) ==> effective_version(e1, r1) == effective_version(e2, r2),
{
}

} // verus!
