//! Write-back queue between the render thread and its consumer.
//!
//! The render thread cannot touch the presenting side directly; it queues
//! actions that describe its intent, and the consumer drains the queue. A
//! completed frame overwrites whatever frame came before it, so when several
//! frame updates pile up unconsumed, all but the most recent are wasted work.
//! [`reduce_action_list`] drops exactly those, keeping every other action, and
//! the order of what stays.

use vstd::prelude::*;

verus! {

/// How far a render has come: frames blended into the accumulator so far, out
/// of the frames requested.
#[derive(Clone, Copy, Debug, PartialEq, Eq, Structural)]
pub struct Progress {
    pub completed_frames: u32,
    pub total_frames: u32,
}

/// An action a render thread queues for the consuming side. Generic over the
/// payloads only that side can build: `I` for a displayable image, `D` for an
/// elapsed-time measure.
pub enum AppAction<I, D> {
    /// A completed frame, ready to be converted and displayed.
    FrameUpdate(I),
    /// The exact duration the finished render took.
    TrueTimeUpdate(D),
    /// How far the render has come, for a progress display.
    RenderingProgressUpdate(Progress),
    /// The render thread is gone; the sender to it is now useless.
    DestroySender,
}

/// Whether the action carries a completed frame.
pub open spec fn is_frame_update<I, D>(action: AppAction<I, D>) -> bool {
    action is FrameUpdate
}

/// Whether any action in `s` carries a completed frame.
pub open spec fn contains_frame_update<I, D>(s: Seq<AppAction<I, D>>) -> bool {
    exists|k: int| 0 <= k < s.len() && is_frame_update(s[k])
}

/// `s` scanned from the back: every action is kept except frame updates, of
/// which the rightmost is kept only when `keep_next` asks for one.
pub open spec fn spec_pruned<I, D>(s: Seq<AppAction<I, D>>, keep_next: bool) -> Seq<
    AppAction<I, D>,
>
    decreases s.len(),
{
    if s.len() == 0 {
        s
    } else {
        let front = s.drop_last();
        let last = s.last();
        if is_frame_update(last) {
            if keep_next {
                spec_pruned(front, false).push(last)
            } else {
                spec_pruned(front, false)
            }
        } else {
            spec_pruned(front, keep_next).push(last)
        }
    }
}

/// `s` with every frame update removed but the last, and everything else kept
/// in order.
pub open spec fn spec_reduced<I, D>(s: Seq<AppAction<I, D>>) -> Seq<AppAction<I, D>> {
    spec_pruned(s, true)
}

/// A sequence extended by one action holds a frame update exactly when the
/// sequence already did or the new action is one.
proof fn lemma_contains_push<I, D>(s: Seq<AppAction<I, D>>, action: AppAction<I, D>)
    ensures
        contains_frame_update(s.push(action)) == (contains_frame_update(s) || is_frame_update(
            action,
        )),
{
    if contains_frame_update(s) {
        let k = choose|k: int| 0 <= k < s.len() && is_frame_update(s[k]);
        assert(s.push(action)[k] == s[k]);
        assert(contains_frame_update(s.push(action)));
    }
    if is_frame_update(action) {
        assert(s.push(action)[s.len() as int] == action);
        assert(contains_frame_update(s.push(action)));
    }
    if contains_frame_update(s.push(action)) && !is_frame_update(action) {
        let k = choose|k: int|
            0 <= k < s.push(action).len() && is_frame_update(s.push(action)[k]);
        assert(k < s.len());
        assert(s[k] == s.push(action)[k]);
        assert(contains_frame_update(s));
    }
}

/// Pruning a concatenation prunes the right part first; the left part is then
/// pruned with the keep request still open only if the right part held no
/// frame update to satisfy it.
proof fn lemma_pruned_decompose<I, D>(
    u: Seq<AppAction<I, D>>,
    v: Seq<AppAction<I, D>>,
    keep_next: bool,
)
    ensures
        spec_pruned(u + v, keep_next) == spec_pruned(u, keep_next && !contains_frame_update(v))
            + spec_pruned(v, keep_next),
    decreases v.len(),
{
    if v.len() == 0 {
        assert(u + v =~= u);
        assert(!contains_frame_update(v));
        assert(spec_pruned(u, keep_next) + spec_pruned(v, keep_next) =~= spec_pruned(
            u,
            keep_next,
        ));
    } else {
        let w = v.drop_last();
        let x = v.last();
        assert(v =~= w.push(x));
        lemma_contains_push(w, x);
        assert((u + v).last() == x);
        assert((u + v).drop_last() =~= u + w);
        if is_frame_update(x) {
            lemma_pruned_decompose(u, w, false);
            if keep_next {
                assert((spec_pruned(u, false) + spec_pruned(w, false)).push(x) =~= spec_pruned(
                    u,
                    false,
                ) + spec_pruned(w, false).push(x));
            }
        } else {
            lemma_pruned_decompose(u, w, keep_next);
            assert((spec_pruned(u, keep_next && !contains_frame_update(w)) + spec_pruned(
                w,
                keep_next,
            )).push(x) =~= spec_pruned(u, keep_next && !contains_frame_update(w)) + spec_pruned(
                w,
                keep_next,
            ).push(x));
        }
    }
}

/// What pruning a single action yields: the action stays unless it is a frame
/// update that no keep request is open for.
proof fn lemma_pruned_singleton<I, D>(action: AppAction<I, D>, keep_next: bool)
    ensures
        is_frame_update(action) && !keep_next ==> spec_pruned(seq![action], keep_next) == Seq::<
            AppAction<I, D>,
        >::empty(),
        !(is_frame_update(action) && !keep_next) ==> spec_pruned(seq![action], keep_next)
            == seq![action],
{
    let s = seq![action];
    assert(s.last() == action);
    assert(s.drop_last() =~= Seq::<AppAction<I, D>>::empty());
    assert(spec_pruned(Seq::<AppAction<I, D>>::empty(), false) =~= Seq::<
        AppAction<I, D>,
    >::empty());
    assert(spec_pruned(Seq::<AppAction<I, D>>::empty(), keep_next) =~= Seq::<
        AppAction<I, D>,
    >::empty());
    assert(Seq::<AppAction<I, D>>::empty().push(action) =~= seq![action]);
}

/// Removes from the queue every frame update but the most recent one. All
/// other actions, and the order of everything kept, stay untouched: the queue
/// afterwards is exactly [`spec_reduced`] of the queue before.
pub fn reduce_action_list<I, D>(action_list: &mut Vec<AppAction<I, D>>)
    ensures
        final(action_list)@ == spec_reduced(old(action_list)@),
{
    let ghost original = old(action_list)@;
    let mut i: usize = action_list.len();
    let mut found_last: bool = false;
    while i > 0
        invariant
            i <= original.len(),
            action_list@ == original.take(i as int) + spec_pruned(
                original.skip(i as int),
                true,
            ),
            found_last == contains_frame_update(original.skip(i as int)),
        decreases i,
    {
        let j: usize = i - 1;
        proof {
            assert(action_list@[j as int] == original[j as int]);
            assert(original.skip(j as int) =~= seq![original[j as int]] + original.skip(
                i as int,
            ));
            lemma_pruned_decompose(
                seq![original[j as int]],
                original.skip(i as int),
                true,
            );
        }
        let is_update = match &action_list[j] {
            AppAction::FrameUpdate(_) => true,
            _ => false,
        };
        if is_update {
            if found_last {
                let ghost before = action_list@;
                action_list.remove(j);
                proof {
                    assert(action_list@ =~= original.take(j as int) + spec_pruned(
                        original.skip(i as int),
                        true,
                    ));
                    lemma_pruned_singleton(original[j as int], false);
                    assert(spec_pruned(original.skip(j as int), true) =~= spec_pruned(
                        original.skip(i as int),
                        true,
                    ));
                }
            } else {
                found_last = true;
                proof {
                    lemma_pruned_singleton(original[j as int], true);
                    assert(original.take(i as int) =~= original.take(j as int) + seq![original[
                        j as int]]);
                    assert(original.take(j as int) + (seq![original[j as int]] + spec_pruned(
                        original.skip(i as int),
                        true,
                    )) =~= original.take(i as int) + spec_pruned(original.skip(i as int), true));
                }
            }
            proof {
                assert(seq![original[j as int]][0] == original[j as int]);
                assert(contains_frame_update(original.skip(j as int))) by {
                    assert(original.skip(j as int)[0] == original[j as int]);
                }
            }
        } else {
            proof {
                lemma_pruned_singleton(
                    original[j as int],
                    true && !contains_frame_update(original.skip(i as int)),
                );
                assert(original.take(i as int) =~= original.take(j as int) + seq![original[
                    j as int]]);
                assert(original.take(j as int) + (seq![original[j as int]] + spec_pruned(
                    original.skip(i as int),
                    true,
                )) =~= original.take(i as int) + spec_pruned(original.skip(i as int), true));
                assert(contains_frame_update(original.skip(j as int)) == contains_frame_update(
                    original.skip(i as int),
                )) by {
                    if contains_frame_update(original.skip(i as int)) {
                        let k = choose|k: int|
                            0 <= k < original.skip(i as int).len() && is_frame_update(
                                original.skip(i as int)[k],
                            );
                        assert(original.skip(j as int)[k + 1] == original.skip(i as int)[k]);
                    }
                    if contains_frame_update(original.skip(j as int)) {
                        let k = choose|k: int|
                            0 <= k < original.skip(j as int).len() && is_frame_update(
                                original.skip(j as int)[k],
                            );
                        assert(k > 0);
                        assert(original.skip(i as int)[k - 1] == original.skip(j as int)[k]);
                    }
                }
            }
        }
        i = j;
    }
    proof {
        assert(original.skip(0) =~= original);
        assert(original.take(0) + spec_pruned(original, true) =~= spec_pruned(original, true));
    }
}

} // verus!
