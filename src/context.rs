//! The bundle of state lent to every interpreter and display-object call
//! during a tick.
use vstd::prelude::*;
use crate::action::{runnable, ActionQueue, QueuedActions};
use crate::value::{DisplayObject, Twips};
use gc_arena::Mutation;
use rand::rngs::SmallRng;

verus! {

/// The seeded generator of the `rand` crate, carried through the context so
/// that a run draws all its random numbers from one stream.
#[verifier::external_type_specification]
#[verifier::external_body]
pub struct ExSmallRng(SmallRng);

/// The collector's mutation permit from `gc_arena`: the scoped token that
/// allocation and mutation of collector-managed objects require.
#[verifier::external_type_specification]
#[verifier::external_body]
pub struct ExMutation<'gc>(Mutation<'gc>);

/// What a "set target" instruction's path resolved to.
#[derive(Clone, Copy, Debug, PartialEq, Eq, Structural)]
pub enum TargetLookup {
    /// The empty path: back to the start clip.
    Start,
    /// A path naming this clip.
    Clip(DisplayObject),
    /// A path that names no clip.
    Invalid,
}

/// Shared data used by the subsystems during a tick. The driving loop
/// creates it when a tick begins and lends it down the call stack to the
/// display objects and the interpreter.
pub struct UpdateContext<'a, 'gc> {
    /// The queue of actions that run after the display list updates.
    pub action_queue: &'a mut ActionQueue,
    /// The permit to allocate and mutate collector-managed objects.
    pub gc_context: &'gc Mutation<'gc>,
    /// The time elapsed since the movie started executing.
    pub global_time: u64,
    /// The version of the player being emulated.
    pub player_version: u8,
    /// The version of the movie being run.
    pub swf_version: u8,
    /// The bytes of the movie, into which action bytecode slices point.
    pub swf_data: &'a std::sync::Arc<Vec<u8>>,
    /// The generator used by the interpreter's random-number operations.
    pub rng: &'a mut SmallRng,
    /// The root of the current timeline.
    pub root: DisplayObject,
    /// The display object that code is running in; `root` after an invalid
    /// "set target".
    pub active_clip: DisplayObject,
    /// The clip addressed by targeted instructions; `None` after an invalid
    /// "set target".
    pub target_clip: Option<DisplayObject>,
    /// The initial target clip, restored by a "set target" to the empty path.
    pub start_clip: DisplayObject,
    /// The display object that the mouse is hovering over.
    pub mouse_hovered_object: Option<DisplayObject>,
    /// Where the mouse was when it was last over the player.
    pub mouse_position: (Twips, Twips),
    /// The dimensions of the stage.
    pub stage_size: (Twips, Twips),
}

/// The clip that targeted lookups resolve to: the redirect if there is one,
/// else the active clip.
pub open spec fn resolve(active_clip: DisplayObject, target_clip: Option<DisplayObject>) -> DisplayObject {
    match target_clip {
        Some(t) => t,
        None => active_clip,
    }
}

/// The active clip and the redirect after a "set target" whose path
/// resolved to `lookup`.
pub open spec fn redirect(root: DisplayObject, start_clip: DisplayObject, lookup: TargetLookup) -> (
    DisplayObject,
    Option<DisplayObject>,
) {
    match lookup {
        TargetLookup::Start => (start_clip, Some(start_clip)),
        TargetLookup::Clip(c) => (c, Some(c)),
        TargetLookup::Invalid => (root, None),
    }
}

/// After a "set target" to a path that names no clip, lookups resolve to
/// the root; a following "set target" to the empty path makes them resolve
/// to the start clip again.
pub proof fn lemma_redirect_reset(root: DisplayObject, start_clip: DisplayObject)
    ensures
        ({
            let (a, t) = redirect(root, start_clip, TargetLookup::Invalid);
            resolve(a, t) == root && t is None
        }),
        ({
            let (a, t) = redirect(root, start_clip, TargetLookup::Start);
            resolve(a, t) == start_clip
        }),
{
}

impl<'a, 'gc> UpdateContext<'a, 'gc> {
    /// The clip that targeted lookups currently resolve to.
    pub open spec fn spec_active_target(&self) -> DisplayObject {
        resolve(self.active_clip, self.target_clip)
    }

    /// The clip that targeted lookups resolve to.
    pub fn active_target(&self) -> (r: DisplayObject)
        ensures
            r == self.spec_active_target(),
    {
        match self.target_clip {
            Some(t) => t,
            None => self.active_clip,
        }
    }

    /// Applies a "set target" instruction whose path resolved to `lookup`.
    /// The empty path restores the start clip; an invalid path clears the
    /// redirect and makes the root active.
    pub fn set_target(&mut self, lookup: TargetLookup)
        ensures
            (final(self).active_clip, final(self).target_clip) == redirect(
                old(self).root,
                old(self).start_clip,
                lookup,
            ),
            final(self).start_clip == old(self).start_clip,
            final(self).root == old(self).root,
            final(self).global_time == old(self).global_time,
            final(self).mouse_hovered_object == old(self).mouse_hovered_object,
            *final(self).action_queue == *old(self).action_queue,
    {
        match lookup {
            TargetLookup::Start => {
                self.active_clip = self.start_clip;
                self.target_clip = Some(self.start_clip);
            },
            TargetLookup::Clip(c) => {
                self.active_clip = c;
                self.target_clip = Some(c);
            },
            TargetLookup::Invalid => {
                self.active_clip = self.root;
                self.target_clip = None;
            },
        }
    }

    /// Scopes the code about to run to `clip`: it becomes the active clip,
    /// the redirect and the start clip.
    pub fn bind_target(&mut self, clip: DisplayObject)
        ensures
            final(self).active_clip == clip,
            final(self).target_clip == Some(clip),
            final(self).start_clip == clip,
            final(self).root == old(self).root,
            final(self).global_time == old(self).global_time,
            final(self).mouse_hovered_object == old(self).mouse_hovered_object,
            *final(self).action_queue == *old(self).action_queue,
    {
        self.active_clip = clip;
        self.target_clip = Some(clip);
        self.start_clip = clip;
    }

    /// One step of the drain: takes the next queued action that is to run,
    /// given the clips that have left the display list, dropping those
    /// skipped on the way, and scopes the context to its clip. `None` once
    /// the queue is empty. Actions queued while a drain runs are taken by
    /// the same drain, behind those queued before them.
    pub fn take_next_action(&mut self, removed: &Vec<DisplayObject>) -> (r: Option<QueuedActions>)
        ensures
            runnable(old(self).action_queue@, removed@) == match r {
                Some(q) => seq![q] + runnable(final(self).action_queue@, removed@),
                None => Seq::empty(),
            },
            r is None ==> final(self).action_queue@.len() == 0,
            r matches Some(q) ==> final(self).active_clip == q.clip && final(self).start_clip
                == q.clip && final(self).target_clip == Some(q.clip),
            r is None ==> final(self).active_clip == old(self).active_clip && final(self).start_clip
                == old(self).start_clip && final(self).target_clip == old(self).target_clip,
            final(self).root == old(self).root,
            final(self).global_time == old(self).global_time,
    {
        let next = self.action_queue.pop_runnable(removed);
        if let Some(q) = &next {
            self.bind_target(q.clip);
        }
        next
    }
}

} // verus!
