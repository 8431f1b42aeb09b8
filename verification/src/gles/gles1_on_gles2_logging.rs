use vstd::prelude::*;

verus! {

/// A rectangle as GL takes it: `(x, y, width, height)`.
pub type GlRect = (i32, i32, i32, i32);

/// What one line of the coordinate-pipeline log shows: the viewport, the
/// scissor box, the logical (game-space) size and the drawable size.
pub type PipelineSnapshot = (GlRect, GlRect, (u32, u32), (u32, u32));

/// The state that the GLES1-on-GLES2 translator tracks between calls, for its
/// change-only logging and for keeping an unclaimed scissor box in step with the
/// viewport.
pub struct GLStateManager {
    pub current_viewport: GlRect,
    pub previous_viewport: GlRect,
    pub current_scissor: GlRect,
    pub previous_scissor: GlRect,
    pub viewport_changed: bool,
    pub scissor_changed: bool,
    pub scissor_was_explicitly_set: bool,
    pub last_gpu_verify: Option<(GlRect, GlRect)>,
    pub scissor_test_enabled: bool,
    pub logical_size: (u32, u32),
    pub drawable_size: (u32, u32),
    pub change_count: u64,
    pub last_pipeline_log: Option<PipelineSnapshot>,
}

/// The state before the first GL call: everything zero or unset, and a logical
/// size of 480x320 (the landscape iPhone screen).
pub open spec fn initial_gl_state() -> GLStateManager {
    GLStateManager {
        current_viewport: (0, 0, 0, 0),
        previous_viewport: (0, 0, 0, 0),
        current_scissor: (0, 0, 0, 0),
        previous_scissor: (0, 0, 0, 0),
        viewport_changed: false,
        scissor_changed: false,
        scissor_was_explicitly_set: false,
        last_gpu_verify: None,
        scissor_test_enabled: false,
        logical_size: (480, 320),
        drawable_size: (0, 0),
        change_count: 0,
        last_pipeline_log: None,
    }
}

/// The state after a reset: the tracked rectangles, flags and counters are
/// cleared; the scissor-test flag and the window sizes are kept.
pub open spec fn reset_gl_state(s: GLStateManager) -> GLStateManager {
    GLStateManager {
        current_viewport: (0, 0, 0, 0),
        previous_viewport: (0, 0, 0, 0),
        current_scissor: (0, 0, 0, 0),
        previous_scissor: (0, 0, 0, 0),
        viewport_changed: false,
        scissor_changed: false,
        scissor_was_explicitly_set: false,
        last_gpu_verify: None,
        change_count: 0,
        last_pipeline_log: None,
        ..s
    }
}

/// The state after `glViewport(viewport)`.
pub open spec fn viewport_updated(s: GLStateManager, viewport: GlRect) -> GLStateManager {
    let changed = s.current_viewport != viewport;
    GLStateManager {
        previous_viewport: s.current_viewport,
        current_viewport: viewport,
        viewport_changed: changed,
        change_count: if changed {
            (s.change_count + 1) as u64
        } else {
            s.change_count
        },
        ..s
    }
}

/// The state after `glScissor(scissor)`: the scissor box is now claimed by the
/// game.
pub open spec fn scissor_updated(s: GLStateManager, scissor: GlRect) -> GLStateManager {
    GLStateManager {
        previous_scissor: s.current_scissor,
        current_scissor: scissor,
        scissor_changed: s.current_scissor != scissor,
        scissor_was_explicitly_set: true,
        ..s
    }
}

/// Whether synchronising the scissor box to the viewport does anything: only
/// when the game never set the scissor box and it differs from the viewport.
pub open spec fn scissor_sync_applies(s: GLStateManager) -> bool {
    !s.scissor_was_explicitly_set && s.current_scissor != s.current_viewport
}

/// The state after synchronising an unclaimed scissor box to the viewport.
pub open spec fn scissor_synced(s: GLStateManager) -> GLStateManager {
    if scissor_sync_applies(s) {
        GLStateManager {
            previous_scissor: s.current_scissor,
            current_scissor: s.current_viewport,
            scissor_changed: true,
            ..s
        }
    } else {
        s
    }
}

/// The snapshot that a pipeline log line of state `s` shows.
pub open spec fn pipeline_snapshot(s: GLStateManager) -> PipelineSnapshot {
    (s.current_viewport, s.current_scissor, s.logical_size, s.drawable_size)
}

/// Whether a pipeline log line is due: something changed since the last line,
/// or the last line showed another snapshot.
pub open spec fn pipeline_log_due(s: GLStateManager) -> bool {
    s.viewport_changed || s.scissor_changed || s.last_pipeline_log != Some(pipeline_snapshot(s))
}

/// The state after a pipeline log request.
pub open spec fn pipeline_logged(s: GLStateManager) -> GLStateManager {
    if pipeline_log_due(s) {
        GLStateManager {
            last_pipeline_log: Some(pipeline_snapshot(s)),
            viewport_changed: false,
            scissor_changed: false,
            ..s
        }
    } else {
        s
    }
}

/// The state after the window reports its logical and drawable sizes.
pub open spec fn window_resized(s: GLStateManager, logical: (u32, u32), drawable: (u32, u32)) -> GLStateManager {
    GLStateManager { logical_size: logical, drawable_size: drawable, ..s }
}

/// Whether the GPU state read back differs from the one last reported.
pub open spec fn gpu_state_is_new(s: GLStateManager, viewport: GlRect, scissor: GlRect) -> bool {
    s.last_gpu_verify != Some((viewport, scissor))
}

/// The state after a GPU read-back of `viewport` and `scissor`.
pub open spec fn gpu_state_verified(s: GLStateManager, viewport: GlRect, scissor: GlRect) -> GLStateManager {
    GLStateManager { last_gpu_verify: Some((viewport, scissor)), ..s }
}

impl GLStateManager {
    /// The state before the first GL call.
    pub fn new() -> (s: GLStateManager)
        ensures
            s == initial_gl_state(),
            s.current_viewport == (0i32, 0i32, 0i32, 0i32),
            s.current_scissor == (0i32, 0i32, 0i32, 0i32),
            s.logical_size == (480u32, 320u32),
            s.drawable_size == (0u32, 0u32),
            s.change_count == 0,
            !s.scissor_was_explicitly_set && !s.scissor_test_enabled,
            !s.viewport_changed && !s.scissor_changed,
            s.last_gpu_verify is None && s.last_pipeline_log is None,
    {
        GLStateManager {
            current_viewport: (0, 0, 0, 0),
            previous_viewport: (0, 0, 0, 0),
            current_scissor: (0, 0, 0, 0),
            previous_scissor: (0, 0, 0, 0),
            viewport_changed: false,
            scissor_changed: false,
            scissor_was_explicitly_set: false,
            last_gpu_verify: None,
            scissor_test_enabled: false,
            logical_size: (480, 320),
            drawable_size: (0, 0),
            change_count: 0,
            last_pipeline_log: None,
        }
    }
}


/// Whether two GL rectangles are equal.
pub fn rect_eq(a: GlRect, b: GlRect) -> (r: bool)
    ensures
        r == (a == b),
{
    a.0 == b.0 && a.1 == b.1 && a.2 == b.2 && a.3 == b.3
}

fn size_eq(a: (u32, u32), b: (u32, u32)) -> (r: bool)
    ensures
        r == (a == b),
{
    a.0 == b.0 && a.1 == b.1
}

fn snapshot_eq(a: PipelineSnapshot, b: PipelineSnapshot) -> (r: bool)
    ensures
        r == (a == b),
{
    rect_eq(a.0, b.0) && rect_eq(a.1, b.1) && size_eq(a.2, b.2) && size_eq(a.3, b.3)
}

/// What a viewport-change log line reports.
pub struct ViewportChange {
    /// The running number of viewport changes, this one included.
    pub change_count: u64,
    pub old_viewport: GlRect,
    pub new_viewport: GlRect,
    /// Whether the width or the height differ.
    pub size_changed: bool,
    /// Whether the x or the y origin differ.
    pub position_changed: bool,
}

/// The viewport-change report for a change from `old_viewport` to
/// `new_viewport`; none when they are equal.
pub open spec fn viewport_change_report(change_count: u64, old_viewport: GlRect, new_viewport: GlRect) -> Option<
    ViewportChange,
> {
    if old_viewport == new_viewport {
        None
    } else {
        Some(
            ViewportChange {
                change_count,
                old_viewport,
                new_viewport,
                size_changed: old_viewport.2 != new_viewport.2 || old_viewport.3 != new_viewport.3,
                position_changed: old_viewport.0 != new_viewport.0 || old_viewport.1 != new_viewport.1,
            },
        )
    }
}

/// What a scissor-change log line reports.
pub struct ScissorChange {
    pub old_scissor: GlRect,
    pub new_scissor: GlRect,
}

/// Classifies a viewport change for the change-only log: nothing to report when
/// the viewport did not change.
pub fn log_viewport_state_change(change_count: u64, old_viewport: GlRect, new_viewport: GlRect) -> (report:
    Option<ViewportChange>)
    ensures
        report == viewport_change_report(change_count, old_viewport, new_viewport),
        report is None <==> old_viewport == new_viewport,
        report matches Some(c) ==> {
            &&& c.change_count == change_count
            &&& c.old_viewport == old_viewport
            &&& c.new_viewport == new_viewport
            &&& c.size_changed == (old_viewport.2 != new_viewport.2 || old_viewport.3 != new_viewport.3)
            &&& c.position_changed == (old_viewport.0 != new_viewport.0 || old_viewport.1 != new_viewport.1)
        },
{
    if rect_eq(old_viewport, new_viewport) {
        return None;
    }
    Some(
        ViewportChange {
            change_count,
            old_viewport,
            new_viewport,
            size_changed: old_viewport.2 != new_viewport.2 || old_viewport.3 != new_viewport.3,
            position_changed: old_viewport.0 != new_viewport.0 || old_viewport.1 != new_viewport.1,
        },
    )
}

/// Forgets the tracked rectangles, flags and counters, as after a context
/// reset; the scissor-test flag and the window sizes are kept.
pub fn reset_state(state: &mut GLStateManager)
    ensures
        *final(state) == reset_gl_state(*old(state)),
        *final(state) == (GLStateManager {
            current_viewport: (0, 0, 0, 0),
            previous_viewport: (0, 0, 0, 0),
            current_scissor: (0, 0, 0, 0),
            previous_scissor: (0, 0, 0, 0),
            viewport_changed: false,
            scissor_changed: false,
            scissor_was_explicitly_set: false,
            last_gpu_verify: None,
            change_count: 0,
            last_pipeline_log: None,
            ..*old(state)
        }),
{
    state.current_viewport = (0, 0, 0, 0);
    state.previous_viewport = (0, 0, 0, 0);
    state.current_scissor = (0, 0, 0, 0);
    state.previous_scissor = (0, 0, 0, 0);
    state.viewport_changed = false;
    state.scissor_changed = false;
    state.scissor_was_explicitly_set = false;
    state.last_gpu_verify = None;
    state.change_count = 0;
    state.last_pipeline_log = None;
}

/// Tracks `glViewport(viewport)`; reports the change when the viewport differs
/// from the current one.
pub fn update_viewport_state(state: &mut GLStateManager, viewport: GlRect) -> (report: Option<ViewportChange>)
    requires
        old(state).current_viewport != viewport ==> old(state).change_count < u64::MAX,
    ensures
        *final(state) == viewport_updated(*old(state), viewport),
        report == viewport_change_report(final(state).change_count, old(state).current_viewport, viewport),
        *final(state) == (GLStateManager {
            previous_viewport: old(state).current_viewport,
            current_viewport: viewport,
            viewport_changed: old(state).current_viewport != viewport,
            change_count: if old(state).current_viewport != viewport {
                (old(state).change_count + 1) as u64
            } else {
                old(state).change_count
            },
            ..*old(state)
        }),
        report is None <==> old(state).current_viewport == viewport,
        report matches Some(c) ==> {
            &&& c.change_count == old(state).change_count + 1
            &&& c.old_viewport == old(state).current_viewport
            &&& c.new_viewport == viewport
            &&& c.size_changed == (old(state).current_viewport.2 != viewport.2
                || old(state).current_viewport.3 != viewport.3)
            &&& c.position_changed == (old(state).current_viewport.0 != viewport.0
                || old(state).current_viewport.1 != viewport.1)
        },
{
    let old_viewport = state.current_viewport;
    state.previous_viewport = old_viewport;
    state.current_viewport = viewport;
    state.viewport_changed = !rect_eq(old_viewport, viewport);
    if state.viewport_changed {
        state.change_count = state.change_count + 1;
    }
    let change_count = state.change_count;
    log_viewport_state_change(change_count, old_viewport, viewport)
}

/// Tracks `glScissor(scissor)`: the scissor box is now claimed by the game.
/// Reports the change when the box differs from the current one.
pub fn update_scissor_state(state: &mut GLStateManager, scissor: GlRect) -> (report: Option<ScissorChange>)
    ensures
        *final(state) == scissor_updated(*old(state), scissor),
        *final(state) == (GLStateManager {
            previous_scissor: old(state).current_scissor,
            current_scissor: scissor,
            scissor_changed: old(state).current_scissor != scissor,
            scissor_was_explicitly_set: true,
            ..*old(state)
        }),
        report == (if old(state).current_scissor == scissor {
            None
        } else {
            Some(ScissorChange { old_scissor: old(state).current_scissor, new_scissor: scissor })
        }),
{
    let old_scissor = state.current_scissor;
    state.previous_scissor = old_scissor;
    state.current_scissor = scissor;
    state.scissor_changed = !rect_eq(old_scissor, scissor);
    state.scissor_was_explicitly_set = true;
    if !rect_eq(old_scissor, scissor) {
        Some(ScissorChange { old_scissor, new_scissor: scissor })
    } else {
        None
    }
}

/// Tracks `glEnable`/`glDisable(GL_SCISSOR_TEST)`.
pub fn set_scissor_test_enabled(state: &mut GLStateManager, value: bool)
    ensures
        *final(state) == (GLStateManager { scissor_test_enabled: value, ..*old(state) }),
{
    state.scissor_test_enabled = value;
}

/// Same as [`set_scissor_test_enabled`].
pub fn update_scissor_test_enabled(state: &mut GLStateManager, value: bool)
    ensures
        *final(state) == (GLStateManager { scissor_test_enabled: value, ..*old(state) }),
{
    set_scissor_test_enabled(state, value);
}

/// Keeps an unclaimed scissor box equal to the viewport. Returns the new
/// scissor box when it had to move; nothing when the game set the scissor box
/// itself or it already equals the viewport.
pub fn sync_scissor_to_viewport(state: &mut GLStateManager) -> (synced: Option<GlRect>)
    ensures
        *final(state) == scissor_synced(*old(state)),
        synced == (if scissor_sync_applies(*old(state)) {
            Some(old(state).current_viewport)
        } else {
            None
        }),
        synced is Some <==> (!old(state).scissor_was_explicitly_set && old(state).current_scissor != old(
            state,
        ).current_viewport),
        synced is Some ==> *final(state) == (GLStateManager {
            previous_scissor: old(state).current_scissor,
            current_scissor: old(state).current_viewport,
            scissor_changed: true,
            ..*old(state)
        }),
        synced matches Some(r) ==> r == old(state).current_viewport,
        synced is None ==> *final(state) == *old(state),
{
    if state.scissor_was_explicitly_set || rect_eq(state.current_scissor, state.current_viewport) {
        return None;
    }
    let old_scissor = state.current_scissor;
    state.previous_scissor = old_scissor;
    state.current_scissor = state.current_viewport;
    state.scissor_changed = true;
    Some(state.current_viewport)
}

/// Decides whether the coordinate pipeline is logged now: it is, with the
/// current snapshot, when the viewport or scissor changed since the last line or
/// the snapshot differs from the last one shown. Logging clears the change flags.
pub fn log_pipeline_state(state: &mut GLStateManager) -> (logged: Option<PipelineSnapshot>)
    ensures
        *final(state) == pipeline_logged(*old(state)),
        logged == (if pipeline_log_due(*old(state)) {
            Some(pipeline_snapshot(*old(state)))
        } else {
            None
        }),
        logged is None <==> (!old(state).viewport_changed && !old(state).scissor_changed
            && old(state).last_pipeline_log == Some(
            (
                old(state).current_viewport,
                old(state).current_scissor,
                old(state).logical_size,
                old(state).drawable_size,
            ),
        )),
        logged matches Some(snap) ==> {
            &&& snap.0 == old(state).current_viewport
            &&& snap.1 == old(state).current_scissor
            &&& snap.2 == old(state).logical_size
            &&& snap.3 == old(state).drawable_size
            &&& *final(state) == (GLStateManager {
                last_pipeline_log: Some(snap),
                viewport_changed: false,
                scissor_changed: false,
                ..*old(state)
            })
        },
        logged is None ==> *final(state) == *old(state),
{
    let snapshot = (state.current_viewport, state.current_scissor, state.logical_size, state.drawable_size);
    let unchanged = match state.last_pipeline_log {
        Some(last) => snapshot_eq(last, snapshot),
        None => false,
    };
    if !state.viewport_changed && !state.scissor_changed && unchanged {
        return None;
    }
    state.last_pipeline_log = Some(snapshot);
    state.viewport_changed = false;
    state.scissor_changed = false;
    Some(snapshot)
}

/// Same as [`log_pipeline_state`].
pub fn log_coordinate_transformation_stack(state: &mut GLStateManager) -> (logged: Option<PipelineSnapshot>)
    ensures
        *final(state) == pipeline_logged(*old(state)),
        logged == (if pipeline_log_due(*old(state)) {
            Some(pipeline_snapshot(*old(state)))
        } else {
            None
        }),
        logged is None <==> (!old(state).viewport_changed && !old(state).scissor_changed
            && old(state).last_pipeline_log == Some(
            (
                old(state).current_viewport,
                old(state).current_scissor,
                old(state).logical_size,
                old(state).drawable_size,
            ),
        )),
        logged matches Some(snap) ==> {
            &&& snap.0 == old(state).current_viewport
            &&& snap.1 == old(state).current_scissor
            &&& snap.2 == old(state).logical_size
            &&& snap.3 == old(state).drawable_size
            &&& *final(state) == (GLStateManager {
                last_pipeline_log: Some(snap),
                viewport_changed: false,
                scissor_changed: false,
                ..*old(state)
            })
        },
        logged is None ==> *final(state) == *old(state),
{
    log_pipeline_state(state)
}

/// Same as [`log_pipeline_state`].
pub fn trace_viewport_usage(state: &mut GLStateManager) -> (logged: Option<PipelineSnapshot>)
    ensures
        *final(state) == pipeline_logged(*old(state)),
        logged == (if pipeline_log_due(*old(state)) {
            Some(pipeline_snapshot(*old(state)))
        } else {
            None
        }),
        logged is None <==> (!old(state).viewport_changed && !old(state).scissor_changed
            && old(state).last_pipeline_log == Some(
            (
                old(state).current_viewport,
                old(state).current_scissor,
                old(state).logical_size,
                old(state).drawable_size,
            ),
        )),
        logged matches Some(snap) ==> {
            &&& snap.0 == old(state).current_viewport
            &&& snap.1 == old(state).current_scissor
            &&& snap.2 == old(state).logical_size
            &&& snap.3 == old(state).drawable_size
            &&& *final(state) == (GLStateManager {
                last_pipeline_log: Some(snap),
                viewport_changed: false,
                scissor_changed: false,
                ..*old(state)
            })
        },
        logged is None ==> *final(state) == *old(state),
{
    log_pipeline_state(state)
}

/// Records the window's logical and drawable sizes, then decides on a pipeline
/// log line as [`log_pipeline_state`] does.
pub fn log_window_state(state: &mut GLStateManager, logical: (u32, u32), drawable: (u32, u32)) -> (logged:
    Option<PipelineSnapshot>)
    ensures
        *final(state) == pipeline_logged(window_resized(*old(state), logical, drawable)),
        logged == (if pipeline_log_due(window_resized(*old(state), logical, drawable)) {
            Some(pipeline_snapshot(window_resized(*old(state), logical, drawable)))
        } else {
            None
        }),
        final(state).logical_size == logical,
        final(state).drawable_size == drawable,
        logged matches Some(snap) ==> snap == (old(state).current_viewport, old(state).current_scissor, logical, drawable),
        logged is None ==> final(state).last_pipeline_log == Some(
            (old(state).current_viewport, old(state).current_scissor, logical, drawable),
        ),
{
    state.logical_size = logical;
    state.drawable_size = drawable;
    log_pipeline_state(state)
}

/// Decides whether the viewport and scissor box read back from the GPU are
/// reported: only when they differ from the pair reported last.
pub fn verify_viewport_state_in_gpu(state: &mut GLStateManager, gpu_viewport: GlRect, gpu_scissor: GlRect) -> (report: bool)
    ensures
        report == gpu_state_is_new(*old(state), gpu_viewport, gpu_scissor),
        *final(state) == (if report {
            gpu_state_verified(*old(state), gpu_viewport, gpu_scissor)
        } else {
            *old(state)
        }),
        report == (old(state).last_gpu_verify != Some((gpu_viewport, gpu_scissor))),
        *final(state) == (GLStateManager {
            last_gpu_verify: Some((gpu_viewport, gpu_scissor)),
            ..*old(state)
        }),
{
    let seen = match state.last_gpu_verify {
        Some((viewport, scissor)) => rect_eq(viewport, gpu_viewport) && rect_eq(scissor, gpu_scissor),
        None => false,
    };
    if seen {
        return false;
    }
    state.last_gpu_verify = Some((gpu_viewport, gpu_scissor));
    true
}


/// Viewport logging is change-only: repeating a `glViewport` call with the same
/// rectangle neither counts nor reports a change.
pub proof fn lemma_repeated_viewport_is_silent(s: GLStateManager, viewport: GlRect)
    ensures
        ({
            let once = viewport_updated(s, viewport);
            let twice = viewport_updated(once, viewport);
            &&& twice.change_count == once.change_count
            &&& !twice.viewport_changed
            &&& viewport_change_report(twice.change_count, once.current_viewport, viewport) is None
        }),
{
}

/// A reported viewport change moved the origin, resized the rectangle, or both.
pub proof fn lemma_viewport_change_is_classified(change_count: u64, old_viewport: GlRect, new_viewport: GlRect)
    ensures
        viewport_change_report(change_count, old_viewport, new_viewport) matches Some(c) ==> (c.size_changed
            || c.position_changed),
{
}

/// An unclaimed scissor box is synchronised to the current viewport, and a
/// second synchronisation changes nothing.
pub proof fn lemma_unclaimed_scissor_follows_viewport(s: GLStateManager)
    requires
        !s.scissor_was_explicitly_set,
    ensures
        scissor_synced(s).current_scissor == s.current_viewport,
        scissor_synced(s).current_viewport == s.current_viewport,
        !scissor_sync_applies(scissor_synced(s)),
        scissor_synced(scissor_synced(s)) == scissor_synced(s),
{
}

/// One call of the translator that changes the tracked GL state, as the
/// functions of this module perform it.
pub enum GlStateCall {
    /// [`reset_state`].
    Reset,
    /// [`update_viewport_state`].
    Viewport(GlRect),
    /// [`update_scissor_state`].
    Scissor(GlRect),
    /// [`set_scissor_test_enabled`] or [`update_scissor_test_enabled`].
    ScissorTest(bool),
    /// [`sync_scissor_to_viewport`].
    SyncScissor,
    /// [`log_pipeline_state`], [`log_coordinate_transformation_stack`] or
    /// [`trace_viewport_usage`].
    PipelineLog,
    /// [`log_window_state`].
    WindowState((u32, u32), (u32, u32)),
    /// [`verify_viewport_state_in_gpu`].
    GpuVerify(GlRect, GlRect),
}

/// The state after one call, as the contract of the function that performs it
/// states.
pub open spec fn gl_state_after_call(s: GLStateManager, call: GlStateCall) -> GLStateManager {
    match call {
        GlStateCall::Reset => reset_gl_state(s),
        GlStateCall::Viewport(viewport) => viewport_updated(s, viewport),
        GlStateCall::Scissor(scissor) => scissor_updated(s, scissor),
        GlStateCall::ScissorTest(value) => GLStateManager { scissor_test_enabled: value, ..s },
        GlStateCall::SyncScissor => scissor_synced(s),
        GlStateCall::PipelineLog => pipeline_logged(s),
        GlStateCall::WindowState(logical, drawable) => pipeline_logged(window_resized(s, logical, drawable)),
        GlStateCall::GpuVerify(viewport, scissor) => if gpu_state_is_new(s, viewport, scissor) {
            gpu_state_verified(s, viewport, scissor)
        } else {
            s
        },
    }
}

/// The state after a sequence of calls.
pub open spec fn gl_state_after_calls(s: GLStateManager, calls: Seq<GlStateCall>) -> GLStateManager
    decreases calls.len(),
{
    if calls.len() == 0 {
        s
    } else {
        gl_state_after_call(gl_state_after_calls(s, calls.drop_last()), calls.last())
    }
}

/// The number of viewport changes since the last reset in `calls`: viewport
/// calls whose rectangle differed from the viewport current at that moment.
/// With no reset in `calls`, the count starts from the one `s` holds.
pub open spec fn viewport_changes_since_reset(s: GLStateManager, calls: Seq<GlStateCall>) -> int
    decreases calls.len(),
{
    if calls.len() == 0 {
        s.change_count as int
    } else {
        let prefix = calls.drop_last();
        match calls.last() {
            GlStateCall::Reset => 0,
            GlStateCall::Viewport(viewport) => viewport_changes_since_reset(s, prefix) + if gl_state_after_calls(
                s,
                prefix,
            ).current_viewport != viewport {
                1int
            } else {
                0int
            },
            _ => viewport_changes_since_reset(s, prefix),
        }
    }
}

/// Only viewport calls raise the change count, by one when the viewport
/// changes; a reset clears it; every other call keeps it.
pub proof fn lemma_only_viewport_changes_count(s: GLStateManager, call: GlStateCall)
    requires
        call matches GlStateCall::Viewport(v) ==> (s.current_viewport != v ==> s.change_count < u64::MAX),
    ensures
        gl_state_after_call(s, call).change_count == (match call {
            GlStateCall::Reset => 0int,
            GlStateCall::Viewport(v) => s.change_count + if s.current_viewport != v {
                1int
            } else {
                0int
            },
            _ => s.change_count as int,
        }),
{
}

/// The change count is the number of viewport changes since the last reset
/// (or, with no reset, since the state `s`), as long as it never exceeds the
/// counter's range.
pub proof fn lemma_change_count_since_reset(s: GLStateManager, calls: Seq<GlStateCall>)
    requires
        forall|k: int|
            0 <= k <= calls.len() ==> #[trigger] viewport_changes_since_reset(s, calls.take(k)) <= u64::MAX,
    ensures
        gl_state_after_calls(s, calls).change_count == viewport_changes_since_reset(s, calls),
    decreases calls.len(),
{
    if calls.len() > 0 {
        let prefix = calls.drop_last();
        assert forall|k: int| 0 <= k <= prefix.len() implies #[trigger] viewport_changes_since_reset(
            s,
            prefix.take(k),
        ) <= u64::MAX by {
            assert(prefix.take(k) =~= calls.take(k));
            assert(viewport_changes_since_reset(s, calls.take(k)) <= u64::MAX);
        }
        lemma_change_count_since_reset(s, prefix);
        assert(calls.take(calls.len() as int) =~= calls);
        assert(viewport_changes_since_reset(s, calls.take(calls.len() as int)) <= u64::MAX);
    }
}

/// Once the game sets the scissor box it stays claimed, and is never
/// synchronised to the viewport, whatever other call follows; only a reset
/// releases it.
pub proof fn lemma_claimed_scissor_is_left_alone(s: GLStateManager, scissor: GlRect, call: GlStateCall)
    ensures
        scissor_updated(s, scissor).scissor_was_explicitly_set,
        scissor_synced(scissor_updated(s, scissor)) == scissor_updated(s, scissor),
        s.scissor_was_explicitly_set ==> scissor_synced(s) == s,
        s.scissor_was_explicitly_set && !(call is Reset) ==> gl_state_after_call(
            s,
            call,
        ).scissor_was_explicitly_set,
        s.scissor_was_explicitly_set && !(call is Reset) && !(call is Scissor) ==> gl_state_after_call(
            s,
            call,
        ).current_scissor == s.current_scissor,
{
}

/// Over any sequence of calls without a reset, a scissor box that the game set
/// stays claimed, and only the game's own scissor calls move it.
pub proof fn lemma_claimed_scissor_stays_claimed(s: GLStateManager, calls: Seq<GlStateCall>)
    requires
        s.scissor_was_explicitly_set,
        forall|i: int| 0 <= i < calls.len() ==> !(#[trigger] calls[i] is Reset),
    ensures
        gl_state_after_calls(s, calls).scissor_was_explicitly_set,
        (forall|i: int| 0 <= i < calls.len() ==> !(#[trigger] calls[i] is Scissor)) ==> gl_state_after_calls(
            s,
            calls,
        ).current_scissor == s.current_scissor,
    decreases calls.len(),
{
    if calls.len() > 0 {
        let prefix = calls.drop_last();
        assert forall|i: int| 0 <= i < prefix.len() implies !(#[trigger] prefix[i] is Reset) by {
            assert(prefix[i] == calls[i]);
        }
        lemma_claimed_scissor_stays_claimed(s, prefix);
        if forall|i: int| 0 <= i < calls.len() ==> !(#[trigger] calls[i] is Scissor) {
            assert forall|i: int| 0 <= i < prefix.len() implies !(#[trigger] prefix[i] is Scissor) by {
                assert(prefix[i] == calls[i]);
            }
        }
        assert(!(calls[calls.len() - 1] is Reset));
    }
}

/// A reset hands the scissor box back to the translator: after a reset and a
/// viewport change, the scissor box follows the new viewport.
pub proof fn lemma_reset_releases_scissor(s: GLStateManager, viewport: GlRect)
    ensures
        !reset_gl_state(s).scissor_was_explicitly_set,
        reset_gl_state(s).scissor_test_enabled == s.scissor_test_enabled,
        reset_gl_state(s).logical_size == s.logical_size,
        reset_gl_state(s).drawable_size == s.drawable_size,
        scissor_synced(viewport_updated(reset_gl_state(s), viewport)).current_scissor == viewport,
{
}

/// Pipeline logging is change-only: right after a line (or a decision not to
/// log), asking again logs nothing and changes nothing.
pub proof fn lemma_pipeline_log_is_deduplicated(s: GLStateManager)
    ensures
        !pipeline_log_due(pipeline_logged(s)),
        pipeline_logged(pipeline_logged(s)) == pipeline_logged(s),
        pipeline_logged(s).current_viewport == s.current_viewport,
        pipeline_logged(s).current_scissor == s.current_scissor,
{
}

/// A viewport change always brings a new pipeline log line.
pub proof fn lemma_viewport_change_is_logged(s: GLStateManager, viewport: GlRect)
    requires
        s.current_viewport != viewport,
    ensures
        pipeline_log_due(viewport_updated(s, viewport)),
{
}

/// GPU read-backs are reported once per distinct pair of rectangles.
pub proof fn lemma_gpu_report_is_deduplicated(s: GLStateManager, viewport: GlRect, scissor: GlRect)
    ensures
        !gpu_state_is_new(gpu_state_verified(s, viewport, scissor), viewport, scissor),
{
}


/// `GL_NO_ERROR`.
pub const GL_NO_ERROR: u32 = 0;

/// `GL_INVALID_ENUM`.
pub const GL_INVALID_ENUM: u32 = 0x0500;

/// `GL_INVALID_VALUE`.
pub const GL_INVALID_VALUE: u32 = 0x0501;

/// `GL_INVALID_OPERATION`.
pub const GL_INVALID_OPERATION: u32 = 0x0502;

/// `GL_OUT_OF_MEMORY`.
pub const GL_OUT_OF_MEMORY: u32 = 0x0505;

/// The symbolic name of a GL error code.
pub open spec fn gl_error_name(error: u32) -> Seq<char> {
    if error == GL_NO_ERROR {
        "GL_NO_ERROR"@
    } else if error == GL_INVALID_ENUM {
        "GL_INVALID_ENUM"@
    } else if error == GL_INVALID_VALUE {
        "GL_INVALID_VALUE"@
    } else if error == GL_INVALID_OPERATION {
        "GL_INVALID_OPERATION"@
    } else if error == GL_OUT_OF_MEMORY {
        "GL_OUT_OF_MEMORY"@
    } else {
        "UNKNOWN_GL_ERROR"@
    }
}

/// Whether a corrected viewport `(x, y, width, height)` has a non-negative
/// origin and a positive size that GL's signed sizes can hold.
pub open spec fn viewport_bounds_valid(fixed: (i32, i32, u32, u32)) -> bool {
    &&& fixed.0 >= 0
    &&& fixed.1 >= 0
    &&& fixed.2 > 0
    &&& fixed.3 > 0
    &&& fixed.2 <= i32::MAX
    &&& fixed.3 <= i32::MAX
}

#[verifier::external_type_specification]
#[verifier::external_body]
pub struct ExInstant(std::time::Instant);

/// `std::time::Instant::now`: the current time. Nothing is stated of the
/// value, which depends on the clock.
#[verifier::external_body]
fn instant_now() -> std::time::Instant {
    std::time::Instant::now()
}

/// `std::time::Instant::elapsed`: the time passed since `start`. Nothing is
/// stated of the value, which depends on the clock.
#[verifier::external_body]
fn instant_elapsed(start: &std::time::Instant) -> std::time::Duration {
    start.elapsed()
}

/// `std::time::Duration::as_micros`: the whole microseconds of `d`. Nothing is
/// stated of the value: a `Duration` is opaque here.
#[verifier::external_body]
fn duration_as_micros(d: &std::time::Duration) -> u128 {
    d.as_micros()
}

/// What the closing line of a traced operation reports.
pub struct OperationTiming {
    pub operation_id: u64,
    pub operation_name: &'static str,
    /// Microseconds since the operation started.
    pub elapsed_us: u128,
}

/// Traces one translated GL operation: its call number, name, context and
/// start time.
pub struct GLES1to2Logger {
    operation_id: u64,
    operation_name: &'static str,
    started_at: std::time::Instant,
    context: &'static str,
}

impl GLES1to2Logger {
    /// The call number of the traced operation.
    pub closed spec fn spec_operation_id(&self) -> u64 {
        self.operation_id
    }

    /// The name of the traced operation.
    pub closed spec fn spec_operation_name(&self) -> &'static str {
        self.operation_name
    }

    /// The context the operation runs in.
    pub closed spec fn spec_context(&self) -> &'static str {
        self.context
    }

    /// The moment the operation started.
    pub closed spec fn spec_started_at(&self) -> std::time::Instant {
        self.started_at
    }

    /// Starts tracing operation number `operation_id`, begun at `started_at`.
    pub fn with_start(
        operation_id: u64,
        operation_name: &'static str,
        context: &'static str,
        started_at: std::time::Instant,
    ) -> (logger: Self)
        ensures
            logger.spec_operation_id() == operation_id,
            logger.spec_operation_name() == operation_name,
            logger.spec_context() == context,
            logger.spec_started_at() == started_at,
    {
        GLES1to2Logger { operation_id, operation_name, started_at, context }
    }

    /// Starts tracing operation number `operation_id` now: the start instant is
    /// the clock's reading taken during this call.
    pub fn new(operation_id: u64, operation_name: &'static str, context: &'static str) -> (logger: Self)
        ensures
            logger.spec_operation_id() == operation_id,
            logger.spec_operation_name() == operation_name,
            logger.spec_context() == context,
    {
        let started_at = instant_now();
        Self::with_start(operation_id, operation_name, context, started_at)
    }

    /// The call number of the traced operation.
    pub fn operation_id(&self) -> (r: u64)
        ensures
            r == self.spec_operation_id(),
    {
        self.operation_id
    }

    /// The name of the traced operation.
    pub fn operation_name(&self) -> (r: &'static str)
        ensures
            r == self.spec_operation_name(),
    {
        self.operation_name
    }

    /// The context the operation runs in.
    pub fn context(&self) -> (r: &'static str)
        ensures
            r == self.spec_context(),
    {
        self.context
    }

    /// Judges a viewport before and after the translator's correction: when a
    /// corrected viewport is given, whether its bounds are valid.
    pub fn log_viewport(&self, x: i32, y: i32, width: u32, height: u32, after_fix: Option<(i32, i32, u32, u32)>) -> (valid:
        Option<bool>)
        ensures
            valid == (match after_fix {
                Some(fixed) => Some(viewport_bounds_valid(fixed)),
                None => None,
            }),
            valid is Some <==> after_fix is Some,
            after_fix matches Some(fixed) ==> valid == Some(
                0 <= fixed.0 && 0 <= fixed.1 && 0 < fixed.2 <= 0x7fff_ffff && 0 < fixed.3 <= 0x7fff_ffff,
            ),
    {
        match after_fix {
            Some((fixed_x, fixed_y, fixed_width, fixed_height)) => {
                Some(
                    fixed_x >= 0 && fixed_y >= 0 && fixed_width > 0 && fixed_height > 0 && fixed_width
                        <= i32::MAX as u32 && fixed_height <= i32::MAX as u32,
                )
            },
            None => None,
        }
    }

    /// Closes the trace of the operation: its number, name and duration.
    pub fn finish(&self) -> (timing: OperationTiming)
        ensures
            timing.operation_id == self.spec_operation_id(),
            timing.operation_name == self.spec_operation_name(),
    {
        let elapsed = instant_elapsed(&self.started_at);
        OperationTiming {
            operation_id: self.operation_id,
            operation_name: self.operation_name,
            elapsed_us: duration_as_micros(&elapsed),
        }
    }

    /// The symbolic name under which a GL error of the operation is reported.
    pub fn log_error(&self, error: u32) -> (name: &'static str)
        ensures
            name@ == gl_error_name(error),
            error == 0 ==> name@ == "GL_NO_ERROR"@,
            error == 0x0500 ==> name@ == "GL_INVALID_ENUM"@,
            error == 0x0501 ==> name@ == "GL_INVALID_VALUE"@,
            error == 0x0502 ==> name@ == "GL_INVALID_OPERATION"@,
            error == 0x0505 ==> name@ == "GL_OUT_OF_MEMORY"@,
            error != 0 && error != 0x0500 && error != 0x0501 && error != 0x0502 && error != 0x0505
                ==> name@ == "UNKNOWN_GL_ERROR"@,
    {
        if error == GL_NO_ERROR {
            "GL_NO_ERROR"
        } else if error == GL_INVALID_ENUM {
            "GL_INVALID_ENUM"
        } else if error == GL_INVALID_VALUE {
            "GL_INVALID_VALUE"
        } else if error == GL_INVALID_OPERATION {
            "GL_INVALID_OPERATION"
        } else if error == GL_OUT_OF_MEMORY {
            "GL_OUT_OF_MEMORY"
        } else {
            "UNKNOWN_GL_ERROR"
        }
    }
}

/// Whether a one-time banner is printed by a call made while logging is
/// `enabled`, when `already_logged` says whether it was printed before.
pub open spec fn banner_prints(already_logged: bool, enabled: bool) -> bool {
    enabled && !already_logged
}

/// Whether a one-time banner counts as printed after such a call. A call made
/// while logging is off does not use up the banner.
pub open spec fn banner_logged_after(already_logged: bool, enabled: bool) -> bool {
    already_logged || enabled
}

/// Whether the banner counts as printed after a sequence of calls, made while
/// logging was on or off as `enabled` says, starting from `already_logged`.
pub open spec fn banner_logged_after_calls(already_logged: bool, enabled: Seq<bool>) -> bool
    decreases enabled.len(),
{
    if enabled.len() == 0 {
        already_logged
    } else {
        banner_logged_after(banner_logged_after_calls(already_logged, enabled.drop_last()), enabled.last())
    }
}

/// Whether call number `i` of such a sequence prints the banner.
pub open spec fn banner_printed_at(already_logged: bool, enabled: Seq<bool>, i: int) -> bool {
    banner_prints(banner_logged_after_calls(already_logged, enabled.take(i)), enabled[i])
}

/// After a sequence of calls the banner counts as printed exactly when it
/// was before or some call was made while logging was on.
pub proof fn lemma_banner_logged_after_calls(already_logged: bool, enabled: Seq<bool>)
    ensures
        banner_logged_after_calls(already_logged, enabled) == (already_logged || exists|j: int|
            0 <= j < enabled.len() && #[trigger] enabled[j]),
    decreases enabled.len(),
{
    if enabled.len() > 0 {
        let prefix = enabled.drop_last();
        lemma_banner_logged_after_calls(already_logged, prefix);
        if exists|j: int| 0 <= j < prefix.len() && #[trigger] prefix[j] {
            let j = choose|j: int| 0 <= j < prefix.len() && #[trigger] prefix[j];
            assert(enabled[j]);
        }
        if exists|j: int| 0 <= j < enabled.len() && #[trigger] enabled[j] {
            let j = choose|j: int| 0 <= j < enabled.len() && #[trigger] enabled[j];
            if j < prefix.len() {
                assert(prefix[j]);
            }
        }
    }
}

/// A one-time banner is printed once per process: among a sequence of calls,
/// exactly the first one made while logging is on prints it (none does if it was
/// printed before), and calls made while logging is off do not use it up.
pub proof fn lemma_banner_printed_once(already_logged: bool, enabled: Seq<bool>, i: int)
    requires
        0 <= i < enabled.len(),
    ensures
        banner_printed_at(already_logged, enabled, i) == (!already_logged && enabled[i] && forall|j: int|
            0 <= j < i ==> !#[trigger] enabled[j]),
{
    let prefix = enabled.take(i);
    lemma_banner_logged_after_calls(already_logged, prefix);
    if exists|j: int| 0 <= j < i && #[trigger] enabled[j] {
        let j = choose|j: int| 0 <= j < i && #[trigger] enabled[j];
        assert(prefix[j]);
    }
    if exists|j: int| 0 <= j < prefix.len() && #[trigger] prefix[j] {
        let j = choose|j: int| 0 <= j < prefix.len() && #[trigger] prefix[j];
        assert(enabled[j]);
    }
}

/// Decides whether the one-time initialisation banner is printed by a call
/// made while logging is `enabled`; `already_logged` remembers it.
pub fn log_initialization(already_logged: &mut bool, enabled: bool) -> (print: bool)
    ensures
        print == banner_prints(*old(already_logged), enabled),
        *final(already_logged) == banner_logged_after(*old(already_logged), enabled),
        print == (enabled && !*old(already_logged)),
        *final(already_logged) == (*old(already_logged) || enabled),
{
    if !enabled || *already_logged {
        return false;
    }
    *already_logged = true;
    true
}

/// Decides whether the one-time instrumentation banner is printed by a call
/// made while logging is `enabled`; `already_logged` remembers it.
pub fn instrument_rendering_pipeline(already_logged: &mut bool, enabled: bool) -> (print: bool)
    ensures
        print == banner_prints(*old(already_logged), enabled),
        *final(already_logged) == banner_logged_after(*old(already_logged), enabled),
        print == (enabled && !*old(already_logged)),
        *final(already_logged) == (*old(already_logged) || enabled),
{
    if !enabled || *already_logged {
        return false;
    }
    *already_logged = true;
    true
}

/// Decides whether the one-time GL state manager summary is printed by a call
/// made while logging is `enabled`; `already_logged` remembers it.
pub fn log_gl_state_initialized(already_logged: &mut bool, enabled: bool) -> (print: bool)
    ensures
        print == banner_prints(*old(already_logged), enabled),
        *final(already_logged) == banner_logged_after(*old(already_logged), enabled),
        print == (enabled && !*old(already_logged)),
        *final(already_logged) == (*old(already_logged) || enabled),
{
    if !enabled || *already_logged {
        return false;
    }
    *already_logged = true;
    true
}


/// A viewport change is reported exactly when the rectangle differs; the
/// report carries the count and both rectangles, and says independently
/// whether the origin moved and whether the size changed.
pub proof fn lemma_viewport_change_report_fields(change_count: u64, old_viewport: GlRect, new_viewport: GlRect)
    ensures
        viewport_change_report(change_count, old_viewport, new_viewport) is None <==> old_viewport
            == new_viewport,
        viewport_change_report(change_count, old_viewport, new_viewport) matches Some(c) ==> {
            &&& c.change_count == change_count
            &&& c.old_viewport == old_viewport
            &&& c.new_viewport == new_viewport
            &&& c.position_changed == (old_viewport.0 != new_viewport.0 || old_viewport.1 != new_viewport.1)
            &&& c.size_changed == (old_viewport.2 != new_viewport.2 || old_viewport.3 != new_viewport.3)
        },
        old_viewport.0 != new_viewport.0 && old_viewport.2 != new_viewport.2 ==> (viewport_change_report(
            change_count,
            old_viewport,
            new_viewport,
        ) matches Some(c) && c.position_changed && c.size_changed),
{
}

/// A viewport update makes the rectangle current, remembers the one it
/// replaces, and counts it exactly when it differs; nothing else changes.
pub proof fn lemma_viewport_update_fields(s: GLStateManager, viewport: GlRect)
    requires
        s.current_viewport != viewport ==> s.change_count < u64::MAX,
    ensures
        viewport_updated(s, viewport).current_viewport == viewport,
        viewport_updated(s, viewport).previous_viewport == s.current_viewport,
        viewport_updated(s, viewport).viewport_changed == (s.current_viewport != viewport),
        viewport_updated(s, viewport).change_count == s.change_count + (if s.current_viewport != viewport {
            1int
        } else {
            0int
        }),
        viewport_updated(s, viewport).current_scissor == s.current_scissor,
        viewport_updated(s, viewport).scissor_was_explicitly_set == s.scissor_was_explicitly_set,
        viewport_updated(s, viewport).last_gpu_verify == s.last_gpu_verify,
        viewport_updated(s, viewport).last_pipeline_log == s.last_pipeline_log,
{
}

/// A scissor update makes the box current and claimed, remembers the one it
/// replaces, and flags a change exactly when it differs; the viewport is kept.
pub proof fn lemma_scissor_update_fields(s: GLStateManager, scissor: GlRect)
    ensures
        scissor_updated(s, scissor).current_scissor == scissor,
        scissor_updated(s, scissor).previous_scissor == s.current_scissor,
        scissor_updated(s, scissor).scissor_changed == (s.current_scissor != scissor),
        scissor_updated(s, scissor).scissor_was_explicitly_set,
        scissor_updated(s, scissor).current_viewport == s.current_viewport,
        scissor_updated(s, scissor).change_count == s.change_count,
{
}

/// Synchronisation moves the scissor box to the viewport exactly when the game
/// never set it and it differs from the viewport; otherwise nothing changes.
pub proof fn lemma_scissor_sync_fields(s: GLStateManager)
    ensures
        scissor_sync_applies(s) <==> (!s.scissor_was_explicitly_set && s.current_scissor != s.current_viewport),
        scissor_sync_applies(s) ==> {
            &&& scissor_synced(s).current_scissor == s.current_viewport
            &&& scissor_synced(s).previous_scissor == s.current_scissor
            &&& scissor_synced(s).scissor_changed
            &&& scissor_synced(s).current_viewport == s.current_viewport
            &&& scissor_synced(s).scissor_was_explicitly_set == s.scissor_was_explicitly_set
        },
        !scissor_sync_applies(s) ==> scissor_synced(s) == s,
{
}

/// A pipeline log line shows the current viewport, the current scissor box,
/// the logical size and the drawable size, in that order. A line is due exactly
/// when the viewport or scissor changed since the last line or the last line
/// showed something else; logging remembers the line and clears both flags.
pub proof fn lemma_pipeline_snapshot_is_current_state(s: GLStateManager)
    ensures
        pipeline_snapshot(s).0 == s.current_viewport,
        pipeline_snapshot(s).1 == s.current_scissor,
        pipeline_snapshot(s).2 == s.logical_size,
        pipeline_snapshot(s).3 == s.drawable_size,
        pipeline_log_due(s) <==> (s.viewport_changed || s.scissor_changed || s.last_pipeline_log != Some(
            (s.current_viewport, s.current_scissor, s.logical_size, s.drawable_size),
        )),
        pipeline_log_due(s) ==> {
            &&& pipeline_logged(s).last_pipeline_log == Some(
                (s.current_viewport, s.current_scissor, s.logical_size, s.drawable_size),
            )
            &&& !pipeline_logged(s).viewport_changed
            &&& !pipeline_logged(s).scissor_changed
        },
        !pipeline_log_due(s) ==> pipeline_logged(s) == s,
        pipeline_logged(s).current_viewport == s.current_viewport,
        pipeline_logged(s).current_scissor == s.current_scissor,
        window_resized(s, (1, 2), (3, 4)).logical_size == (1u32, 2u32),
        window_resized(s, (1, 2), (3, 4)).drawable_size == (3u32, 4u32),
        window_resized(s, (1, 2), (3, 4)).current_scissor == s.current_scissor,
{
}

/// A GPU read-back is reported exactly when the (viewport, scissor) pair
/// differs from the pair reported last: a new viewport alone or a new scissor
/// box alone is enough. The reported pair becomes the last one.
pub proof fn lemma_gpu_report_compares_both_rectangles(s: GLStateManager, viewport: GlRect, scissor: GlRect)
    ensures
        gpu_state_is_new(s, viewport, scissor) <==> s.last_gpu_verify != Some((viewport, scissor)),
        s.last_gpu_verify is None ==> gpu_state_is_new(s, viewport, scissor),
        s.last_gpu_verify matches Some(p) && p.0 != viewport ==> gpu_state_is_new(s, viewport, scissor),
        s.last_gpu_verify matches Some(p) && p.1 != scissor ==> gpu_state_is_new(s, viewport, scissor),
        gpu_state_verified(s, viewport, scissor).last_gpu_verify == Some((viewport, scissor)),
        gpu_state_verified(s, viewport, scissor).current_viewport == s.current_viewport,
        gpu_state_verified(s, viewport, scissor).current_scissor == s.current_scissor,
{
}

/// A reset zeroes the tracked rectangles, flags and counters and keeps only
/// the scissor-test flag and the window sizes.
pub proof fn lemma_reset_fields(s: GLStateManager)
    ensures
        reset_gl_state(s).current_viewport == (0i32, 0i32, 0i32, 0i32),
        reset_gl_state(s).current_scissor == (0i32, 0i32, 0i32, 0i32),
        reset_gl_state(s).change_count == 0,
        !reset_gl_state(s).viewport_changed,
        !reset_gl_state(s).scissor_changed,
        reset_gl_state(s).last_gpu_verify is None,
        reset_gl_state(s).last_pipeline_log is None,
        reset_gl_state(s).scissor_test_enabled == s.scissor_test_enabled,
        reset_gl_state(s).logical_size == s.logical_size,
        reset_gl_state(s).drawable_size == s.drawable_size,
{
}

/// A corrected viewport is valid exactly when its origin is non-negative and
/// its width and height are positive and fit a signed 32-bit size.
pub proof fn lemma_viewport_bounds_valid_exact(fixed: (i32, i32, u32, u32))
    ensures
        viewport_bounds_valid(fixed) <==> (0 <= fixed.0 && 0 <= fixed.1 && 0 < fixed.2 <= 0x7fff_ffff && 0
            < fixed.3 <= 0x7fff_ffff),
{
}

/// The five GL error codes have their own names; every other code is
/// reported as unknown.
pub proof fn lemma_gl_error_name_table(error: u32)
    ensures
        error == 0 ==> gl_error_name(error) == "GL_NO_ERROR"@,
        error == 0x0500 ==> gl_error_name(error) == "GL_INVALID_ENUM"@,
        error == 0x0501 ==> gl_error_name(error) == "GL_INVALID_VALUE"@,
        error == 0x0502 ==> gl_error_name(error) == "GL_INVALID_OPERATION"@,
        error == 0x0505 ==> gl_error_name(error) == "GL_OUT_OF_MEMORY"@,
        error != 0 && error != 0x0500 && error != 0x0501 && error != 0x0502 && error != 0x0505 ==> gl_error_name(
            error,
        ) == "UNKNOWN_GL_ERROR"@,
{
}

/// A banner call prints exactly when logging is on and the banner was not
/// printed before; a call while logging is off leaves the banner unused, and
/// a call while logging is on uses it up.
pub proof fn lemma_banner_step(already_logged: bool, enabled: bool)
    ensures
        banner_prints(already_logged, enabled) <==> (enabled && !already_logged),
        banner_logged_after(already_logged, enabled) <==> (already_logged || enabled),
        !enabled ==> banner_logged_after(already_logged, enabled) == already_logged,
{
}

} // verus!
