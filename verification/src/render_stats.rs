//! How many meshes there are, and how many of them are drawn.
use vstd::prelude::*;

verus! {

/// How many of the flags are set.
pub open spec fn set_count(flags: Seq<bool>) -> nat
    decreases flags.len(),
{
    if flags.len() == 0 {
        0
    } else {
        set_count(flags.drop_last()) + if flags.last() {
            1nat
        } else {
            0nat
        }
    }
}

/// Counts the meshes and those that are drawn, while the counts are shown. The
/// flags tell of each mesh whether it is drawn.
pub fn measure_render_stats(shown: bool, drawn: &Vec<bool>) -> (r: Option<(u32, u32)>)
    requires
        drawn@.len() <= u32::MAX,
    ensures
        match r {
            Some((total, visible)) => shown && total == drawn@.len() && visible == set_count(
                drawn@,
            ),
            None => !shown,
        },
        r matches Some((total, visible)) ==> visible <= total,
{
    if !shown {
        return None;
    }
    let mut visible: u32 = 0;
    let mut i: usize = 0;
    while i < drawn.len()
        invariant
            i <= drawn.len() <= u32::MAX,
            visible == set_count(drawn@.take(i as int)),
            visible <= i,
        decreases drawn.len() - i,
    {
        proof {
            assert(drawn@.take(i + 1).drop_last() =~= drawn@.take(i as int));
            assert(drawn@.take(i + 1).last() == drawn@[i as int]);
        }
        if drawn[i] {
            visible = visible + 1;
        }
        i = i + 1;
    }
    proof {
        assert(drawn@.take(i as int) =~= drawn@);
    }
    Some((drawn.len() as u32, visible))
}

/// Every drawn mesh counts once: setting a flag that was not set adds one, and no flags
/// set are none drawn.
pub proof fn every_drawn_mesh_counts(flags: Seq<bool>, i: int)
    requires
        0 <= i < flags.len(),
    ensures
        !flags[i] ==> set_count(flags.update(i, true)) == set_count(flags) + 1,
        flags[i] ==> set_count(flags.update(i, false)) == set_count(flags) - 1,
        set_count(Seq::<bool>::empty()) == 0,
    decreases flags.len(),
{
    let on = flags.update(i, true);
    let off = flags.update(i, false);
    if i == flags.len() - 1 {
        assert(on.drop_last() =~= flags.drop_last());
        assert(off.drop_last() =~= flags.drop_last());
    } else {
        assert(on.drop_last() =~= flags.drop_last().update(i, true));
        assert(off.drop_last() =~= flags.drop_last().update(i, false));
        assert(flags.drop_last()[i] == flags[i]);
        every_drawn_mesh_counts(flags.drop_last(), i);
    }
}

/// Meshes of which none is drawn count as none drawn.
pub proof fn undrawn_meshes_do_not_count(flags: Seq<bool>)
    requires
        forall|i: int| 0 <= i < flags.len() ==> !#[trigger] flags[i],
    ensures
        set_count(flags) == 0,
    decreases flags.len(),
{
    if flags.len() > 0 {
        let rest = flags.drop_last();
        assert(!flags[flags.len() - 1]);
        assert forall|i: int| 0 <= i < rest.len() implies !#[trigger] rest[i] by {
            assert(!flags[i]);
        }
        undrawn_meshes_do_not_count(rest);
    }
}

} // verus!
