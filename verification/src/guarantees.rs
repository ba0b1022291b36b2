//! What holds of every attach request, every resize and every detachment.

use vstd::prelude::*;
use crate::attach::{
    begin_model, calls_issued, fails, run, step_bindings, step_outcome, AttachState, StepModel,
};
use crate::binding::{after_resize, references_of, resize_dispatch_of, well_formed, HandleBinding};
use crate::error::{AttachError, BindingFailure};
use crate::geometry::{ClientRect, DisplayInfo, Size, WindowAppearance};
use crate::handle::{validated, NativeWindowHandle, Platform};
use crate::options::WindowParams;
use crate::platform::{NativeCall, NativeReply};
use crate::record::InitializationRecord;
use crate::window::{AnyWindowHandle, ResizeDispatch, WindowCreationInfo, WindowsWindowInner};

verus! {

/// Whether a request that goes on names the call that its stage waits for.
pub open spec fn coherent(step: StepModel) -> bool {
    step matches StepModel::Continue { state, call } ==> call == state.pending_call()
}

/// Whether the request `state` and the bindings belong together: a request
/// that waits for the outcome of the registration has its window bound.
pub open spec fn bound_when_registering(
    state: AttachState,
    bindings: Map<isize, HandleBinding>,
) -> bool {
    state.stage is DropTarget ==> bindings.contains_key(state.hwnd)
        && bindings[state.hwnd].window.handle == state.handle
}

/// Whether a step and the bindings belong together: a request that goes on
/// names the call that its stage waits for, and has its window bound where
/// it waits for the outcome of the registration.
pub open spec fn standing(step: StepModel, bindings: Map<isize, HandleBinding>) -> bool {
    step matches StepModel::Continue { state, call } ==> call == state.pending_call()
        && bound_when_registering(state, bindings)
}

/// No backend accepts a handle of another backend: validation fails with
/// `HandleMismatch`, which carries the handle.
pub proof fn lemma_foreign_handle_is_mismatch(platform: Platform, raw_handle: NativeWindowHandle)
    requires
        !raw_handle.belongs_to(platform),
    ensures
        validated(platform, raw_handle) == Err::<NativeWindowHandle, AttachError>(
            AttachError::HandleMismatch(raw_handle),
        ),
{
}

/// Attaching to a handle that is not a Win32 handle fails with
/// `HandleMismatch`, whatever the platform would answer. No call is issued
/// and the bindings stay as they were.
pub proof fn lemma_mismatch_never_attaches(
    handle: AnyWindowHandle,
    params: WindowParams,
    creation_info: WindowCreationInfo,
    raw_handle: NativeWindowHandle,
    replies: Seq<NativeReply>,
    bindings: Map<isize, HandleBinding>,
)
    requires
        !raw_handle.belongs_to(Platform::Windows),
    ensures
        run(begin_model(handle, params, creation_info, raw_handle), replies, bindings) == (
            StepModel::Failed(AttachError::HandleMismatch(raw_handle)),
            bindings,
        ),
        calls_issued(begin_model(handle, params, creation_info, raw_handle), replies, bindings)
            == Seq::<NativeCall>::empty(),
{
}

/// Attaching to the null handle fails with `InvalidHandle`. No call is
/// issued and the bindings stay as they were.
pub proof fn lemma_null_handle_never_attaches(
    handle: AnyWindowHandle,
    params: WindowParams,
    creation_info: WindowCreationInfo,
    raw_handle: NativeWindowHandle,
    replies: Seq<NativeReply>,
    bindings: Map<isize, HandleBinding>,
)
    requires
        raw_handle.belongs_to(Platform::Windows),
        raw_handle.is_null_handle(),
    ensures
        run(begin_model(handle, params, creation_info, raw_handle), replies, bindings) == (
            StepModel::Failed(AttachError::InvalidHandle(raw_handle)),
            bindings,
        ),
        calls_issued(begin_model(handle, params, creation_info, raw_handle), replies, bindings)
            == Seq::<NativeCall>::empty(),
{
}

/// Attaching to a handle that the platform reports dead fails with
/// `InvalidHandle` and leaves the bindings as they were. The liveness query
/// is the only call that was issued.
pub proof fn lemma_dead_handle_never_attaches(
    handle: AnyWindowHandle,
    params: WindowParams,
    creation_info: WindowCreationInfo,
    raw_handle: NativeWindowHandle,
    replies: Seq<NativeReply>,
    bindings: Map<isize, HandleBinding>,
)
    requires
        raw_handle.belongs_to(Platform::Windows),
        !raw_handle.is_null_handle(),
        replies.len() > 0,
        replies[0] == NativeReply::Alive(false),
    ensures
        run(begin_model(handle, params, creation_info, raw_handle), replies, bindings) == (
            StepModel::Failed(AttachError::InvalidHandle(raw_handle)),
            bindings,
        ),
        calls_issued(begin_model(handle, params, creation_info, raw_handle), replies, bindings)
            == seq![NativeCall::CheckAlive { hwnd: raw_handle->hwnd }],
{
    let start = begin_model(handle, params, creation_info, raw_handle);
    assert(raw_handle == NativeWindowHandle::Win32 { hwnd: raw_handle->hwnd });
    reveal_with_fuel(run, 3);
    reveal_with_fuel(calls_issued, 3);
    assert(calls_issued(start, replies, bindings) =~= seq![
        NativeCall::CheckAlive { hwnd: raw_handle->hwnd },
    ]);
}

/// Attaching succeeds whenever the handle is a Win32 handle and not null,
/// the platform reports the window alive, and the geometry query succeeds.
/// The window then has the extent of the client rectangle as its logical
/// size and the scale of the reported display, and is bound to the handle. A
/// failed drag-and-drop registration is named beside the success.
pub proof fn lemma_attach_succeeds(
    handle: AnyWindowHandle,
    params: WindowParams,
    creation_info: WindowCreationInfo,
    hwnd: isize,
    display: DisplayInfo,
    appearance: Option<WindowAppearance>,
    client_rect: ClientRect,
    registered: bool,
    bindings: Map<isize, HandleBinding>,
)
    requires
        hwnd != 0,
    ensures
        ({
            let replies = seq![
                NativeReply::Alive(true),
                NativeReply::Display(display),
                NativeReply::Appearance(appearance),
                NativeReply::ClientArea(Some(client_rect)),
                NativeReply::DropTarget(registered),
            ];
            let start = begin_model(
                handle,
                params,
                creation_info,
                NativeWindowHandle::Win32 { hwnd },
            );
            let (end, after) = run(start, replies, bindings);
            &&& end == StepModel::Attached {
                hwnd,
                degraded: if registered {
                    None
                } else {
                    Some(BindingFailure::DropTarget { hwnd })
                },
            }
            &&& after.contains_key(hwnd)
            &&& after[hwnd].drop_target == registered
            &&& after[hwnd].extra_references == 1
            &&& after[hwnd].window.hwnd == hwnd
            &&& after[hwnd].window.handle == handle
            &&& after[hwnd].window.state.logical_size == client_rect.extent()
            &&& after[hwnd].window.state.scale_factor == display.scale()
            &&& after[hwnd].window.state.device_size == display.scale().device_size(
                client_rect.extent(),
            )
            &&& after[hwnd].window.state.min_size == params.window_min_size
            &&& after[hwnd].window.state.callbacks.resize is None
            &&& after[hwnd].window.host_controlled()
            &&& after[hwnd].window.is_consistent()
            &&& after.remove(hwnd) == bindings.remove(hwnd)
            &&& calls_issued(start, replies, bindings) == seq![
                NativeCall::CheckAlive { hwnd },
                NativeCall::LocateDisplay { hwnd },
                NativeCall::ReadAppearance,
                NativeCall::MeasureClientArea { hwnd },
                NativeCall::RegisterDropTarget { hwnd },
            ]
        }),
{
    let replies = seq![
        NativeReply::Alive(true),
        NativeReply::Display(display),
        NativeReply::Appearance(appearance),
        NativeReply::ClientArea(Some(client_rect)),
        NativeReply::DropTarget(registered),
    ];
    let start = begin_model(handle, params, creation_info, NativeWindowHandle::Win32 { hwnd });
    let r1 = replies.drop_first();
    let r2 = r1.drop_first();
    let r3 = r2.drop_first();
    let r4 = r3.drop_first();
    let r5 = r4.drop_first();
    assert(r1.len() == 4 && r2.len() == 3 && r3.len() == 2 && r4.len() == 1 && r5.len() == 0);
    assert(r1[0] == replies[1] && r2[0] == replies[2] && r3[0] == replies[3] && r4[0]
        == replies[4]);
    reveal_with_fuel(run, 7);
    reveal_with_fuel(calls_issued, 7);
    assert(calls_issued(start, replies, bindings) =~= seq![
        NativeCall::CheckAlive { hwnd },
        NativeCall::LocateDisplay { hwnd },
        NativeCall::ReadAppearance,
        NativeCall::MeasureClientArea { hwnd },
        NativeCall::RegisterDropTarget { hwnd },
    ]);
    let (end, after) = run(start, replies, bindings);
    assert(after.remove(hwnd) =~= bindings.remove(hwnd));
}

/// A request whose geometry query fails, as it does when the host destroys
/// the native window after validation, fails with `GeometryUnavailable` and
/// leaves the bindings as they were.
pub proof fn lemma_lost_geometry_fails(state: AttachState, bindings: Map<isize, HandleBinding>)
    requires
        state.stage is Geometry,
    ensures
        step_outcome(state, NativeReply::ClientArea(None), bindings) == StepModel::Failed(
            AttachError::GeometryUnavailable,
        ),
        step_bindings(state, NativeReply::ClientArea(None), bindings) == bindings,
{
}

/// A well-formed request fails on three answers and on no other: that the
/// window is dead, which fails it as invalid; that the client rectangle
/// could not be reported, which fails it with `GeometryUnavailable`; and the
/// outcome of the registration when the binding of the window is gone, which
/// fails it as invalid. On every other answer it goes on, well formed, or is
/// attached.
pub proof fn lemma_step_fails_only_on_bad_answers(
    state: AttachState,
    reply: NativeReply,
    bindings: Map<isize, HandleBinding>,
)
    requires
        state.well_formed(),
    ensures
        step_outcome(state, reply, bindings) is Failed <==> fails(state, reply, bindings),
        state.stage is Geometry && reply == NativeReply::ClientArea(None) ==> step_outcome(
            state,
            reply,
            bindings,
        ) == StepModel::Failed(AttachError::GeometryUnavailable),
        fails(state, reply, bindings) && !(state.stage is Geometry) ==> step_outcome(
            state,
            reply,
            bindings,
        ) == StepModel::Failed(AttachError::InvalidHandle(state.native_handle())),
        step_outcome(state, reply, bindings) matches StepModel::Continue { state: next, .. }
            ==> next.well_formed(),
        step_outcome(state, reply, bindings) is Attached <==> state.stage is DropTarget && reply
            is DropTarget && bindings.contains_key(state.hwnd),
{
}

/// What one step does to the bindings. A step that fails leaves them as
/// they were. A step changes them only for the native window of its request:
/// by binding a window that is under the control of the host, whatever the
/// parameters asked for, with one extra reference, or by recording the
/// outcome of the registration. The step that takes that outcome attaches
/// the window whenever the window is still bound. The bindings stay well
/// formed, and the request and the bindings keep belonging together.
pub proof fn lemma_step_is_all_or_nothing(
    state: AttachState,
    reply: NativeReply,
    bindings: Map<isize, HandleBinding>,
)
    requires
        well_formed(bindings),
        bound_when_registering(state, bindings),
    ensures
        standing(step_outcome(state, reply, bindings), step_bindings(state, reply, bindings)),
        well_formed(step_bindings(state, reply, bindings)),
        step_outcome(state, reply, bindings) matches StepModel::Continue { state: next, .. }
            ==> next.hwnd == state.hwnd && next.handle == state.handle,
        step_outcome(state, reply, bindings) is Failed ==> !(state.stage is DropTarget)
            && step_bindings(state, reply, bindings) == bindings,
        step_bindings(state, reply, bindings).remove(state.hwnd) == bindings.remove(state.hwnd),
        step_outcome(state, reply, bindings) matches StepModel::Attached { hwnd, .. } ==> {
            let after = step_bindings(state, reply, bindings);
            &&& hwnd == state.hwnd
            &&& after.contains_key(hwnd)
            &&& after[hwnd].window.hwnd == hwnd
            &&& after[hwnd].window.handle == state.handle
            &&& after[hwnd].window.host_controlled()
            &&& after[hwnd].window.is_consistent()
            &&& after[hwnd].extra_references == 1
        },
{
    let after = step_bindings(state, reply, bindings);
    assert(after.remove(state.hwnd) =~= bindings.remove(state.hwnd));
}

/// Attaching is all or nothing. A request that ended in failure left the
/// bindings as they were and never issued the drag-and-drop registration. A
/// request that ended attached has its native window bound to a window that
/// is under the control of the host, whatever the parameters asked for; the
/// binding holds one extra reference; and no other binding changed. A
/// request that got as far as the registration cannot fail any more.
pub proof fn lemma_run_is_all_or_nothing(
    start: StepModel,
    replies: Seq<NativeReply>,
    bindings: Map<isize, HandleBinding>,
)
    requires
        well_formed(bindings),
        standing(start, bindings),
    ensures
        well_formed(run(start, replies, bindings).1),
        start matches StepModel::Continue { state, .. } ==> {
            let (end, after) = run(start, replies, bindings);
            &&& after.remove(state.hwnd) == bindings.remove(state.hwnd)
            &&& end is Failed ==> after == bindings && !(state.stage is DropTarget)
            &&& end matches StepModel::Attached { hwnd, .. } ==> {
                &&& hwnd == state.hwnd
                &&& after.contains_key(hwnd)
                &&& after[hwnd].window.hwnd == hwnd
                &&& after[hwnd].window.handle == state.handle
                &&& after[hwnd].window.host_controlled()
                &&& after[hwnd].window.is_consistent()
                &&& after[hwnd].extra_references == 1
            }
        },
    decreases replies.len(),
{
    match start {
        StepModel::Continue { state, .. } => {
            if replies.len() > 0 {
                let next = step_outcome(state, replies[0], bindings);
                let between = step_bindings(state, replies[0], bindings);
                lemma_step_is_all_or_nothing(state, replies[0], bindings);
                lemma_run_is_all_or_nothing(next, replies.drop_first(), between);
                let (end, after) = run(start, replies, bindings);
                assert(after.remove(state.hwnd) =~= bindings.remove(state.hwnd)) by {
                    if next is Continue {
                        assert(after.remove(state.hwnd) == between.remove(state.hwnd));
                    }
                }
                if end is Failed && next is Continue {
                    assert(between == bindings) by {
                        if between != bindings {
                            assert(next->state.stage is DropTarget);
                        }
                    }
                }
            }
        },
        _ => {},
    }
}

/// A request that ended in failure never issued the drag-and-drop
/// registration: whatever failed it did so before that call was due.
pub proof fn lemma_failed_run_registers_nothing(
    start: StepModel,
    replies: Seq<NativeReply>,
    bindings: Map<isize, HandleBinding>,
    i: int,
)
    requires
        well_formed(bindings),
        standing(start, bindings),
        run(start, replies, bindings).0 is Failed,
        0 <= i < calls_issued(start, replies, bindings).len(),
    ensures
        !(calls_issued(start, replies, bindings)[i] is RegisterDropTarget),
    decreases replies.len(),
{
    match start {
        StepModel::Continue { state, call } => {
            lemma_run_is_all_or_nothing(start, replies, bindings);
            if replies.len() > 0 && i > 0 {
                let next = step_outcome(state, replies[0], bindings);
                let between = step_bindings(state, replies[0], bindings);
                lemma_step_is_all_or_nothing(state, replies[0], bindings);
                lemma_failed_run_registers_nothing(next, replies.drop_first(), between, i - 1);
            }
        },
        _ => {},
    }
}

/// The same for a request from its beginning: whatever handle and parameters
/// it began with and whatever the platform answered, a request that failed
/// left the bindings as they were and registered nothing, and a request that
/// ended attached has the handle it was given bound to its window, which is
/// under the control of the host.
pub proof fn lemma_attach_is_all_or_nothing(
    handle: AnyWindowHandle,
    params: WindowParams,
    creation_info: WindowCreationInfo,
    raw_handle: NativeWindowHandle,
    replies: Seq<NativeReply>,
    bindings: Map<isize, HandleBinding>,
)
    requires
        well_formed(bindings),
    ensures
        ({
            let start = begin_model(handle, params, creation_info, raw_handle);
            let (end, after) = run(start, replies, bindings);
            &&& well_formed(after)
            &&& end is Failed ==> after == bindings && forall|i: int|
                0 <= i < calls_issued(start, replies, bindings).len() ==> !(#[trigger] calls_issued(
                    start,
                    replies,
                    bindings,
                )[i] is RegisterDropTarget)
            &&& end matches StepModel::Attached { hwnd, .. } ==> {
                &&& raw_handle == NativeWindowHandle::Win32 { hwnd }
                &&& hwnd != 0
                &&& after.contains_key(hwnd)
                &&& after[hwnd].window.hwnd == hwnd
                &&& after[hwnd].window.handle == handle
                &&& after[hwnd].window.host_controlled()
                &&& after[hwnd].window.is_consistent()
                &&& after[hwnd].extra_references == 1
                &&& after.remove(hwnd) == bindings.remove(hwnd)
            }
        }),
{
    let start = begin_model(handle, params, creation_info, raw_handle);
    lemma_run_is_all_or_nothing(start, replies, bindings);
    if run(start, replies, bindings).0 is Failed {
        assert forall|i: int| 0 <= i < calls_issued(start, replies, bindings).len() implies !(
        #[trigger] calls_issued(start, replies, bindings)[i] is RegisterDropTarget) by {
            lemma_failed_run_registers_nothing(start, replies, bindings, i);
        }
    }
}

/// No attach request ever issues a call that shows, focuses, moves, resizes
/// or closes the native window: every call along the way is a query or the
/// drag-and-drop registration.
pub proof fn lemma_run_issues_no_host_controlled_call(
    start: StepModel,
    replies: Seq<NativeReply>,
    bindings: Map<isize, HandleBinding>,
    i: int,
)
    requires
        coherent(start),
        0 <= i < calls_issued(start, replies, bindings).len(),
    ensures
        !calls_issued(start, replies, bindings)[i].is_host_controlled(),
        calls_issued(start, replies, bindings)[i].is_query() || calls_issued(
            start,
            replies,
            bindings,
        )[i] is RegisterDropTarget,
    decreases replies.len(),
{
    match start {
        StepModel::Continue { state, call } => {
            if replies.len() > 0 && i > 0 {
                let next = step_outcome(state, replies[0], bindings);
                let between = step_bindings(state, replies[0], bindings);
                assert(coherent(next));
                lemma_run_issues_no_host_controlled_call(next, replies.drop_first(), between, i - 1);
            }
        },
        _ => {},
    }
}

/// The same for a request from its beginning, whatever handle and
/// parameters it began with.
pub proof fn lemma_attach_issues_no_host_controlled_call(
    handle: AnyWindowHandle,
    params: WindowParams,
    creation_info: WindowCreationInfo,
    raw_handle: NativeWindowHandle,
    replies: Seq<NativeReply>,
    bindings: Map<isize, HandleBinding>,
    i: int,
)
    requires
        0 <= i < calls_issued(
            begin_model(handle, params, creation_info, raw_handle),
            replies,
            bindings,
        ).len(),
    ensures
        !calls_issued(
            begin_model(handle, params, creation_info, raw_handle),
            replies,
            bindings,
        )[i].is_host_controlled(),
{
    lemma_run_issues_no_host_controlled_call(
        begin_model(handle, params, creation_info, raw_handle),
        replies,
        bindings,
        i,
    );
}

/// A window constructed in attached mode has every host-controlled
/// capability off, whatever the parameters ask for, and the device size that
/// its logical size gives; the creation-only fields of the record do not
/// enter into it.
pub proof fn lemma_attached_overrides_parameters(
    hwnd: isize,
    handle: AnyWindowHandle,
    params: WindowParams,
    creation_info: WindowCreationInfo,
    record: InitializationRecord,
)
    ensures
        WindowsWindowInner::attached(hwnd, handle, params, creation_info, record).is_consistent(),
        WindowsWindowInner::attached(
            hwnd,
            handle,
            params,
            creation_info,
            record,
        ).host_controlled(),
        WindowsWindowInner::attached(hwnd, handle, params, creation_info, record)
            == WindowsWindowInner::attached(
            hwnd,
            handle,
            params,
            creation_info,
            InitializationRecord::synthetic(
                record.client_size(),
                record.display,
                record.appearance,
            ),
        ),
{
}

/// A resize that the host reports is taken in exactly as one that the
/// platform delivers: the same window results and the same callback is due.
/// The window then reports exactly the new size, and the device size that
/// the new size gives at its scale factor. The callback, where one is
/// registered, gets the new size and the scale factor of the window, which
/// the resize leaves as it is, as it leaves every host-controlled capability.
pub proof fn lemma_host_resize_is_native_resize(window: WindowsWindowInner, size: Size)
    ensures
        window.after_host_resize(size) == window.after_native_resize(size),
        window.after_host_resize(size).0.state.logical_size == size,
        window.after_host_resize(size).0.state.scale_factor == window.state.scale_factor,
        window.after_host_resize(size).0.state.device_size == window.state.scale_factor.device_size(
            size,
        ),
        window.after_host_resize(size).0.is_consistent(),
        window.after_host_resize(size).0.host_controlled() == window.host_controlled(),
        window.after_host_resize(size).1 == match window.state.callbacks.resize {
            Some(callback) => Some(
                ResizeDispatch { callback, size, scale_factor: window.state.scale_factor },
            ),
            None => None,
        },
{
}

/// The same through the table of bindings: a host resize and a native
/// resize of one native window leave the same bindings and make the same
/// callback due, and keep the bindings well formed.
pub proof fn lemma_bound_resize_keeps_bindings(
    bindings: Map<isize, HandleBinding>,
    hwnd: isize,
    size: Size,
)
    requires
        well_formed(bindings),
    ensures
        well_formed(after_resize(bindings, hwnd, size)),
        after_resize(bindings, hwnd, size).dom() == bindings.dom(),
        references_of(after_resize(bindings, hwnd, size), hwnd) == references_of(bindings, hwnd),
        bindings.contains_key(hwnd) ==> after_resize(bindings, hwnd, size)[hwnd].window
            == bindings[hwnd].window.after_host_resize(size).0 && resize_dispatch_of(
            bindings,
            hwnd,
            size,
        ) == bindings[hwnd].window.after_host_resize(size).1,
{
    assert(after_resize(bindings, hwnd, size).dom() =~= bindings.dom());
}

/// Detachment releases the extra reference exactly once. A bound native
/// window holds one extra reference; after its destruction was notified it
/// holds none and has no binding; a second notification changes nothing; and
/// no other native window gains or loses a reference.
pub proof fn lemma_detach_releases_once(bindings: Map<isize, HandleBinding>, hwnd: isize)
    requires
        well_formed(bindings),
        bindings.contains_key(hwnd),
    ensures
        references_of(bindings, hwnd) == 1,
        references_of(bindings.remove(hwnd), hwnd) == 0,
        !bindings.remove(hwnd).contains_key(hwnd),
        bindings.remove(hwnd).remove(hwnd) == bindings.remove(hwnd),
        well_formed(bindings.remove(hwnd)),
        forall|other: isize|
            other != hwnd ==> #[trigger] references_of(bindings.remove(hwnd), other)
                == references_of(bindings, other),
{
    assert(bindings.remove(hwnd).remove(hwnd) =~= bindings.remove(hwnd));
}

} // verus!
