//! The validator: checks the reflection model's bind groups against the
//! structural invariants the generated code depends on — group indices
//! consecutive from zero, and binding indices unique inside each group.
use vstd::prelude::*;

use crate::model::deep;
use crate::model::GroupBindingV;
use crate::model::GroupData;
use crate::model::GroupDataV;
use crate::CreateModuleError;

verus! {


/// Group indices are exactly `0, 1, ...` in order.
pub open spec fn spec_consecutive(gs: Seq<GroupDataV>) -> bool {
    forall|i: int| 0 <= i < gs.len() ==> (#[trigger] gs[i]).group_index as int == i
}

/// The first binding index that appears twice in a row in one group's
/// sorted binding list, if any.
pub open spec fn first_dup_in(bs: Seq<GroupBindingV>) -> Option<u32>
    decreases bs.len(),
{
    if bs.len() < 2 {
        None
    } else if bs[0].binding_index == bs[1].binding_index {
        Some(bs[0].binding_index)
    } else {
        first_dup_in(bs.drop_first())
    }
}

/// The first duplicated binding index over the groups, scanned in group
/// order.
pub open spec fn find_dup(gs: Seq<GroupDataV>) -> Option<u32>
    decreases gs.len(),
{
    if gs.len() == 0 {
        None
    } else {
        match first_dup_in(gs[0].bindings) {
            Some(b) => Some(b),
            None => find_dup(gs.drop_first()),
        }
    }
}

/// The validation verdict over the bind groups: non-consecutive group
/// indices are reported first, then a duplicated binding index with the
/// offending index; a model with neither passes.
pub open spec fn spec_validate(gs: Seq<GroupDataV>) -> Result<(), CreateModuleError> {
    if !spec_consecutive(gs) {
        Err(CreateModuleError::NonConsecutiveBindGroups)
    } else {
        match find_dup(gs) {
            Some(b) => Err(CreateModuleError::DuplicateBinding { binding: b }),
            None => Ok(()),
        }
    }
}

/// Check the bind groups against the structural invariants.
pub fn validate_bind_groups(groups: &Vec<GroupData>) -> (r: Result<(), CreateModuleError>)
    ensures
        r == spec_validate(groups.deep_view()),
{
    let ghost gs = groups.deep_view();
    proof {
        assert(gs =~= deep(groups@));
    }

    let mut i: usize = 0;
    while i < groups.len()
        invariant
            i <= groups.len(),
            gs == deep(groups@),
            gs.len() == groups@.len(),
            forall|k: int| 0 <= k < i ==> (#[trigger] gs[k]).group_index as int == k,
        decreases groups.len() - i,
    {
        proof {
            assert(gs[i as int] == groups@[i as int].deep_view());
        }
        if groups[i].group_index as usize != i {
            proof {
                assert(!spec_consecutive(gs));
            }
            return Err(CreateModuleError::NonConsecutiveBindGroups);
        }
        i = i + 1;
    }
    proof {
        assert(spec_consecutive(gs));
    }
    proof {
        assert(gs.skip(0) =~= gs);
    }
    let mut g: usize = 0;
    while g < groups.len()
        invariant
            g <= groups.len(),
            gs == groups.deep_view(),
            gs == deep(groups@),
            gs.len() == groups@.len(),
            spec_consecutive(gs),
            find_dup(gs) == find_dup(gs.skip(g as int)),
        decreases groups.len() - g,
    {
        proof {
            assert(gs[g as int] == groups@[g as int].deep_view());
        }
        let ghost bs = gs[g as int].bindings;
        let bindings = &groups[g].bindings;
        proof {
            assert(bs =~= deep(bindings@));
            assert(bs.skip(0) =~= bs);
        }
        let mut q: usize = 1;
        while q < bindings.len()
            invariant
                1 <= q,
                q - 1 <= bindings@.len(),
                g < groups@.len(),
                gs == deep(groups@),
                gs == groups.deep_view(),
                gs.len() == groups@.len(),
                spec_consecutive(gs),
                find_dup(gs) == find_dup(gs.skip(g as int)),
                bs == gs[g as int].bindings,
                bs == deep(bindings@),
                bs.len() == bindings@.len(),
                first_dup_in(bs) == first_dup_in(bs.skip(q - 1)),
            decreases bindings.len() - q,
        {
            proof {
                assert(bs[q - 1] == bindings@[q - 1].deep_view());
                assert(bs[q as int] == bindings@[q as int].deep_view());
            }
            if bindings[q - 1].binding_index == bindings[q].binding_index {
                proof {
                    assert(bs.skip(q - 1)[0] == bs[q - 1]);
                    assert(bs.skip(q - 1)[1] == bs[q as int]);
                    assert(first_dup_in(bs.skip(q - 1)) == Some(bs[q - 1].binding_index));
                    assert(gs.skip(g as int)[0] == gs[g as int]);
                    assert(find_dup(gs.skip(g as int)) == Some(bs[q - 1].binding_index));
                }
                return Err(
                    CreateModuleError::DuplicateBinding {
                        binding: bindings[q - 1].binding_index,
                    },
                );
            }
            proof {
                assert(bs.skip(q - 1)[0] == bs[q - 1]);
                assert(bs.skip(q - 1)[1] == bs[q as int]);
                assert(bs.skip(q - 1).drop_first() =~= bs.skip(q as int));
            }
            q = q + 1;
        }
        proof {
            assert(bs.skip(q - 1).len() <= 1);
            assert(first_dup_in(bs.skip(q - 1)) is None);
            assert(first_dup_in(bs) is None);
            assert(gs.skip(g as int)[0] == gs[g as int]);
            assert(gs.skip(g as int).drop_first() =~= gs.skip(g + 1));
        }
        g = g + 1;
    }
    proof {
        assert(find_dup(gs.skip(groups@.len() as int)) is None);
    }
    Ok(())
}

} // verus!
