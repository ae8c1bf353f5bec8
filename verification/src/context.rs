//! The process-wide context.
//!
//! One `ProcessContext` is created at process attach and torn down exactly
//! once at detach.  It owns the two interception points, the suppression
//! flag the command channel shares with the dispatcher, and the registry of
//! animation tasks, so that every background animation can be signalled to
//! stop before the hooks go away.  The unverified boundary holds the context
//! behind a lock and calls in here for every decision.

use vstd::prelude::*;
use crate::animator::{AnimationTask, FULL_TURN};
use crate::dispatch::{console_step, decide_console, decide_console_wide, ConsoleOutcome};
use crate::entities::{
    chain_end, chain_from, last_player, lemma_last_player_is_player, spec_lookup, ChainEnd,
    MemoryImage, MemoryLayoutError,
};
use crate::hooks::{HookInstallError, HookStateError, InterceptionPoint, PatchOutcome};
use crate::wide::decoded_of;

verus! {

/// A task after teardown's cancellation signal.
pub open spec fn cancelled_task(t: AnimationTask) -> AnimationTask {
    AnimationTask {
        target: t.target,
        origin_x_bits: t.origin_x_bits,
        origin_y_bits: t.origin_y_bits,
        radius_bits: t.radius_bits,
        phase: t.phase,
        cancelled: true,
    }
}

/// A task after one tick: the phase advanced by one step, wrapped at a full
/// turn.
pub open spec fn ticked_task(t: AnimationTask) -> AnimationTask {
    AnimationTask {
        target: t.target,
        origin_x_bits: t.origin_x_bits,
        origin_y_bits: t.origin_y_bits,
        radius_bits: t.radius_bits,
        phase: (((t.phase + 1) as int) % (FULL_TURN as int)) as u32,
        cancelled: t.cancelled,
    }
}

/// What one animation tick hands the driving loop: everything it needs to
/// compute and write the next position.
#[derive(Clone, Copy, Debug, PartialEq, Eq, Structural)]
pub struct TickInfo {
    /// Address of the animated entity.
    pub target: u64,
    /// Raw bit pattern of the origin's first coordinate.
    pub origin_x_bits: u32,
    /// Raw bit pattern of the origin's second coordinate.
    pub origin_y_bits: u32,
    /// Raw bit pattern of the circle radius.
    pub radius_bits: u32,
    /// The angle, in degrees, for this step.
    pub angle: u32,
}

/// The explicit process-wide state: both interception points, the
/// suppression flag, and every registered animation task.
pub struct ProcessContext {
    /// The interception point over the host's console-output function.
    pub console_hook: InterceptionPoint,
    /// The interception point over the host's item-spawn function.
    pub spawn_hook: InterceptionPoint,
    /// Whether the next console call is the command channel's own echo and
    /// must be swallowed.
    pub suppress_next: bool,
    /// Every animation task started since attach, so teardown can signal
    /// each to stop.
    pub animations: Vec<AnimationTask>,
}

impl ProcessContext {
    /// Both hooks are installed and active.
    pub open spec fn attached(self) -> bool {
        self.console_hook.enabled && self.spawn_hook.enabled && self.console_hook.wf()
            && self.spawn_hook.wf()
    }

    /// Every registered animation task is well-formed.
    pub open spec fn anims_wf(self) -> bool {
        forall|i: int| 0 <= i < self.animations@.len() ==> (#[trigger] self.animations@[i]).wf()
    }

    /// Creates the context at process attach: records both patch reports and
    /// activates both interception points.  If either site could not be
    /// patched the whole attach fails with that site's address, matching the
    /// policy that the feature never runs with a partial set of hooks.
    pub fn attach(
        console_address: u64,
        console_patch: PatchOutcome,
        spawn_address: u64,
        spawn_patch: PatchOutcome,
    ) -> (r: Result<ProcessContext, HookInstallError>)
        ensures
            match r {
                Ok(ctx) => InterceptionPoint::patch_ok(console_patch)
                    && InterceptionPoint::patch_ok(spawn_patch) && ctx.attached()
                    && ctx.console_hook.original_address == console_address
                    && ctx.spawn_hook.original_address == spawn_address && console_patch
                    == (PatchOutcome::Patched { continuation: ctx.console_hook.continuation })
                    && spawn_patch == (PatchOutcome::Patched {
                    continuation: ctx.spawn_hook.continuation,
                }) && !ctx.suppress_next && ctx.animations@.len() == 0 && ctx.anims_wf(),
                Err(e) => (!InterceptionPoint::patch_ok(console_patch)
                    || !InterceptionPoint::patch_ok(spawn_patch)) && e == (HookInstallError {
                    original_address: if !InterceptionPoint::patch_ok(console_patch) {
                        console_address
                    } else {
                        spawn_address
                    },
                }),
            },
    {
        let mut console_hook = match InterceptionPoint::install(console_address, console_patch) {
            Ok(p) => p,
            Err(e) => {
                return Err(e);
            }
        };
        let mut spawn_hook = match InterceptionPoint::install(spawn_address, spawn_patch) {
            Ok(p) => p,
            Err(e) => {
                return Err(e);
            }
        };
        let _ = console_hook.enable();
        let _ = spawn_hook.enable();
        Ok(
            ProcessContext {
                console_hook,
                spawn_hook,
                suppress_next: false,
                animations: Vec::new(),
            },
        )
    }

    /// Tears the context down at process detach, exactly once: signals every
    /// animation task to stop, then disables both interception points and
    /// clears the suppression flag.  Fails exactly when the hooks are not
    /// both enabled — a second teardown — and then changes nothing.
    pub fn detach(&mut self) -> (r: Result<(), HookStateError>)
        ensures
            match r {
                Ok(()) => old(self).console_hook.enabled && old(self).spawn_hook.enabled
                    && !final(self).console_hook.enabled && !final(self).spawn_hook.enabled
                    && final(self).console_hook.original_address
                    == old(self).console_hook.original_address
                    && final(self).console_hook.continuation
                    == old(self).console_hook.continuation
                    && final(self).spawn_hook.original_address
                    == old(self).spawn_hook.original_address && final(self).spawn_hook.continuation
                    == old(self).spawn_hook.continuation && !final(self).suppress_next && final(
                    self
                ).animations@.len() == old(self).animations@.len() && (forall|i: int|
                    0 <= i < old(self).animations@.len() ==> final(self).animations@[i]
                        == cancelled_task(old(self).animations@[i])),
                Err(e) => e == HookStateError::NotEnabled && (!old(self).console_hook.enabled
                    || !old(self).spawn_hook.enabled) && *final(self) == *old(self),
            },
    {
        if !self.console_hook.is_enabled() || !self.spawn_hook.is_enabled() {
            return Err(HookStateError::NotEnabled);
        }
        let n = self.animations.len();
        let mut i: usize = 0;
        while i < n
            invariant
                0 <= i <= n,
                n == self.animations@.len(),
                n == old(self).animations@.len(),
                self.console_hook == old(self).console_hook,
                self.spawn_hook == old(self).spawn_hook,
                self.suppress_next == old(self).suppress_next,
                forall|k: int|
                    0 <= k < i ==> self.animations@[k] == cancelled_task(
                        old(self).animations@[k],
                    ),
                forall|k: int| i <= k < n ==> self.animations@[k] == old(self).animations@[k],
            decreases n - i,
        {
            let mut t = self.animations[i];
            t.cancel();
            self.animations[i] = t;
            i = i + 1;
        }
        let _ = self.console_hook.disable();
        let _ = self.spawn_hook.disable();
        self.suppress_next = false;
        Ok(())
    }

    /// Decides one intercepted console call from already-decoded text: the
    /// suppression flag and the outcome follow `console_step` exactly, and
    /// nothing else changes.
    pub fn on_console_write(&mut self, text: &Vec<u8>) -> (out: ConsoleOutcome)
        ensures
            (final(self).suppress_next, out) == console_step(
                old(self).console_hook.enabled,
                old(self).suppress_next,
                text@,
            ),
            final(self).console_hook == old(self).console_hook,
            final(self).spawn_hook == old(self).spawn_hook,
            final(self).animations@ == old(self).animations@,
    {
        let enabled = self.console_hook.is_enabled();
        decide_console(enabled, &mut self.suppress_next, text)
    }

    /// Decides one intercepted console call from the raw wide-character
    /// message: exactly `console_step` on the decoded text.
    pub fn on_console_write_wide(&mut self, units: &Vec<u16>) -> (out: ConsoleOutcome)
        ensures
            (final(self).suppress_next, out) == console_step(
                old(self).console_hook.enabled,
                old(self).suppress_next,
                decoded_of(units@),
            ),
            final(self).console_hook == old(self).console_hook,
            final(self).spawn_hook == old(self).spawn_hook,
            final(self).animations@ == old(self).animations@,
    {
        let enabled = self.console_hook.is_enabled();
        decide_console_wide(enabled, &mut self.suppress_next, units)
    }

    /// The observation hook over the item-spawn function: while the hook is
    /// enabled it reports the spawned item's name for logging, and the call
    /// is always forwarded unchanged.
    pub fn on_spawn_item(&self, item_name: &Vec<u8>) -> (obs: Option<Vec<u8>>)
        ensures
            match obs {
                Some(o) => self.spawn_hook.enabled && o@ == item_name@,
                None => !self.spawn_hook.enabled,
            },
    {
        if !self.spawn_hook.is_enabled() {
            return None;
        }
        let mut o: Vec<u8> = Vec::new();
        let mut i: usize = 0;
        while i < item_name.len()
            invariant
                0 <= i <= item_name@.len(),
                o@ == item_name@.subrange(0, i as int),
            decreases item_name@.len() - i,
        {
            o.push(item_name[i]);
            proof {
                assert(o@ =~= item_name@.subrange(0, i as int + 1));
            }
            i = i + 1;
        }
        proof {
            assert(o@ =~= item_name@);
        }
        Some(o)
    }

    /// Starts one animation around the current player: walks the image's
    /// chain, picks the player by the last-candidate heuristic, and
    /// registers a task circling the player's current position.  Returns the
    /// task's index, `None` when no entity qualifies as the player, and the
    /// walk's layout error otherwise; only a started task changes the
    /// context.
    pub fn start_circle(&mut self, img: &MemoryImage, radius_bits: u32, bound: usize) -> (r:
        Result<Option<usize>, MemoryLayoutError>)
        ensures
            final(self).console_hook == old(self).console_hook,
            final(self).spawn_hook == old(self).spawn_hook,
            final(self).suppress_next == old(self).suppress_next,
            old(self).anims_wf() ==> final(self).anims_wf(),
            match r {
                Ok(Some(idx)) => chain_end(img.entries@, img.root, bound as nat)
                    == ChainEnd::Terminated && last_player(
                    img.entries@,
                    chain_from(img.entries@, img.root, bound as nat),
                ) is Some && idx == old(self).animations@.len() && final(self).animations@ == old(self).animations@.push(
                    {
                        let pa = last_player(
                            img.entries@,
                            chain_from(img.entries@, img.root, bound as nat),
                        )->Some_0;
                        let rec = spec_lookup(img.entries@, pa)->Some_0;
                        AnimationTask {
                            target: pa,
                            origin_x_bits: rec.x_bits,
                            origin_y_bits: rec.y_bits,
                            radius_bits,
                            phase: 0,
                            cancelled: false,
                        }
                    },
                ),
                Ok(None) => chain_end(img.entries@, img.root, bound as nat)
                    == ChainEnd::Terminated && last_player(
                    img.entries@,
                    chain_from(img.entries@, img.root, bound as nat),
                ) is None && final(self).animations@ == old(self).animations@,
                Err(e) => img.traverse_err_witness(e, bound as nat) && final(self).animations@
                    == old(self).animations@,
            },
    {
        let player = match img.find_local_player(bound) {
            Ok(p) => p,
            Err(e) => {
                return Err(e);
            }
        };
        let pa = match player {
            None => {
                return Ok(None);
            }
            Some(pa) => pa,
        };
        proof {
            lemma_last_player_is_player(
                img.entries@,
                chain_from(img.entries@, img.root, bound as nat),
            );
        }
        let rec = match img.lookup(pa) {
            Some(rec) => rec,
            None => {
                // unreachable: the player heuristic only picks registered records
                return Err(MemoryLayoutError::WildPointer { addr: pa });
            }
        };
        let idx = self.animations.len();
        let task = AnimationTask::new(pa, rec.x_bits, rec.y_bits, radius_bits);
        self.animations.push(task);
        proof {
            if old(self).anims_wf() {
                assert forall|i: int|
                    0 <= i < self.animations@.len() implies (#[trigger] self.animations@[i]).wf()
                by {
                    if i < old(self).animations@.len() {
                        assert(self.animations@[i] == old(self).animations@[i]);
                    }
                }
            }
        }
        Ok(Some(idx))
    }

    /// The number of registered animation tasks.
    pub fn animation_count(&self) -> (n: usize)
        ensures
            n == self.animations@.len(),
    {
        self.animations.len()
    }

    /// One tick of a registered task: hands the driving loop the data for
    /// this step — target, origin, radius and the step's angle — and
    /// advances the task's phase.  A cancelled task, like an index out of
    /// range, ticks to nothing and changes nothing.
    pub fn tick_animation(&mut self, idx: usize) -> (r: Option<TickInfo>)
        requires
            old(self).anims_wf(),
        ensures
            final(self).console_hook == old(self).console_hook,
            final(self).spawn_hook == old(self).spawn_hook,
            final(self).suppress_next == old(self).suppress_next,
            final(self).anims_wf(),
            match r {
                None => (idx >= old(self).animations@.len() || old(self).animations@[idx as int].cancelled) && final(self).animations@ == old(self).animations@,
                Some(info) => idx < old(self).animations@.len() && !old(self).animations@[idx as int].cancelled && info == (
                    {
                        let t = old(self).animations@[idx as int];
                        TickInfo {
                            target: t.target,
                            origin_x_bits: t.origin_x_bits,
                            origin_y_bits: t.origin_y_bits,
                            radius_bits: t.radius_bits,
                            angle: t.phase,
                        }
                    }
                ) && final(self).animations@ == old(self).animations@.update(
                    idx as int,
                    ticked_task(old(self).animations@[idx as int]),
                ),
            },
    {
        if idx >= self.animations.len() {
            return None;
        }
        let mut t = self.animations[idx];
        if t.is_cancelled() {
            return None;
        }
        let angle = t.tick();
        self.animations[idx] = t;
        proof {
            assert forall|i: int|
                0 <= i < self.animations@.len() implies (#[trigger] self.animations@[i]).wf() by {
                if i != idx {
                    assert(self.animations@[i] == old(self).animations@[i]);
                }
            }
        }
        Some(
            TickInfo {
                target: t.target,
                origin_x_bits: t.origin_x_bits,
                origin_y_bits: t.origin_y_bits,
                radius_bits: t.radius_bits,
                angle,
            },
        )
    }
}

/// After teardown the dispatcher is inert: whatever the text and whatever
/// the suppression flag, every call forwards untouched and no state changes,
/// so no replacement logic runs any more.
pub proof fn lemma_detached_is_inert(ctx: ProcessContext, text: Seq<u8>)
    requires
        !ctx.console_hook.enabled,
    ensures
        console_step(ctx.console_hook.enabled, ctx.suppress_next, text) == (
            ctx.suppress_next,
            ConsoleOutcome::Forward,
        ),
{
}

} // verus!
