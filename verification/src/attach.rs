//! Attaching a window to a native window of a host.
//!
//! Attaching needs the platform five times: to ask whether the native window
//! is alive, which display it resides on, what the system appearance is and
//! what its client rectangle is, and to register it as a drag-and-drop
//! target. Between these calls stand the decisions, and they are made here:
//! an attach request is a session that issues one call at a time and takes
//! the platform's answer to decide what comes next.
//!
//! The binding is installed by the step that takes the client rectangle,
//! once everything that can fail a request has gone well, and before the
//! registration is issued: from then on a native event for the window finds
//! its state. A request fails only on a dead window or on geometry that the
//! platform could not report, and then it has installed nothing and has
//! registered nothing. The one exception is a window whose destruction the
//! host notifies while the registration is under way: its binding is gone by
//! then, and the request ends as invalid.

use vstd::prelude::*;
use crate::binding::{
    after_install, after_registration, well_formed, BindingTable, HandleBinding,
};
use crate::error::{AttachError, BindingFailure};
use crate::handle::{confirm_liveness, confirmed, validate_handle, validated, NativeWindowHandle, Platform};
use crate::options::{WindowOptions, WindowParams};
use crate::geometry::ClientRect;
use crate::platform::{NativeCall, NativeReply};
use crate::record::InitializationBuilder;
use crate::window::{AnyWindowHandle, WindowCreationInfo, WindowsWindow, WindowsWindowInner};

verus! {

/// The answer that an attach request waits for.
#[derive(Clone, Copy, Debug, PartialEq, Eq, Structural)]
pub enum AttachStage {
    /// Whether the native window is alive.
    Liveness,
    /// The display that the native window resides on.
    Display,
    /// The system appearance.
    Appearance,
    /// The client rectangle of the native window.
    Geometry,
    /// The outcome of the drag-and-drop registration.
    DropTarget,
}

/// What an attach request holds while it is under way, as plain values.
#[derive(Clone, Copy, Debug, PartialEq, Eq)]
pub struct AttachState {
    pub stage: AttachStage,
    /// The native window, validated as far as the stage says.
    pub hwnd: isize,
    pub handle: AnyWindowHandle,
    pub params: WindowParams,
    pub creation_info: WindowCreationInfo,
    /// What the platform reported so far.
    pub builder: InitializationBuilder,
}

/// Where an attach request stands after a step, as plain values.
#[derive(Debug, PartialEq, Eq)]
pub enum StepModel {
    /// The request goes on: the platform is to perform `call` and its answer
    /// is to be handed to the next step.
    Continue { state: AttachState, call: NativeCall },
    /// The window is attached and bound to `hwnd`. `degraded` names an
    /// optional integration that could not be set up.
    Attached { hwnd: isize, degraded: Option<BindingFailure> },
    /// The request failed.
    Failed(AttachError),
}

impl AttachState {
    /// What holds of the requests that sessions hold: the handle is not
    /// null, the display is known once its stage is over, and the client
    /// rectangle is known where the registration is awaited.
    pub open spec fn well_formed(self) -> bool {
        &&& self.hwnd != 0
        &&& !(self.stage is Liveness || self.stage is Display) ==> self.builder.display is Some
        &&& self.stage is DropTarget ==> self.builder.client_rect is Some
    }

    /// The handle that the request is about.
    pub open spec fn native_handle(self) -> NativeWindowHandle {
        NativeWindowHandle::Win32 { hwnd: self.hwnd }
    }

    /// The call whose answer the request waits for.
    pub open spec fn pending_call(self) -> NativeCall {
        match self.stage {
            AttachStage::Liveness => NativeCall::CheckAlive { hwnd: self.hwnd },
            AttachStage::Display => NativeCall::LocateDisplay { hwnd: self.hwnd },
            AttachStage::Appearance => NativeCall::ReadAppearance,
            AttachStage::Geometry => NativeCall::MeasureClientArea { hwnd: self.hwnd },
            AttachStage::DropTarget => NativeCall::RegisterDropTarget { hwnd: self.hwnd },
        }
    }

    /// The request at the stage `stage`, with its call.
    pub open spec fn proceed(self, stage: AttachStage) -> StepModel {
        let state = AttachState { stage, ..self };
        StepModel::Continue { state, call: state.pending_call() }
    }

    /// The window that the request binds once its record is complete.
    pub open spec fn window(self) -> WindowsWindowInner {
        WindowsWindowInner::attached(
            self.hwnd,
            self.handle,
            self.params,
            self.creation_info,
            self.builder.built()->Ok_0,
        )
    }
}

/// The first step of an attach request on the Windows backend: a handle of
/// another backend fails as a mismatch and a null handle as invalid, without
/// any call on the platform; any other handle makes the liveness query due.
pub open spec fn begin_model(
    handle: AnyWindowHandle,
    params: WindowParams,
    creation_info: WindowCreationInfo,
    raw_handle: NativeWindowHandle,
) -> StepModel {
    match validated(Platform::Windows, raw_handle) {
        Ok(NativeWindowHandle::Win32 { hwnd }) => StepModel::Continue {
            state: AttachState {
                stage: AttachStage::Liveness,
                hwnd,
                handle,
                params,
                creation_info,
                builder: InitializationBuilder::empty(),
            },
            call: NativeCall::CheckAlive { hwnd },
        },
        Ok(_) => StepModel::Failed(AttachError::HandleMismatch(raw_handle)),
        Err(error) => StepModel::Failed(error),
    }
}

/// The request `state` with the client rectangle that the platform reported.
pub open spec fn measured(state: AttachState, client_rect: Option<ClientRect>) -> AttachState {
    AttachState { builder: InitializationBuilder { client_rect, ..state.builder }, ..state }
}

/// What the answer `reply` makes of the request `state`, where the bindings
/// are `bindings` when the answer arrives.
///
/// A dead window fails the request as invalid. The display and the appearance
/// are recorded as reported. A client rectangle that the platform could not
/// report fails the request with `GeometryUnavailable`; with a client
/// rectangle the registration is due. The outcome of the registration never
/// fails the request: the window is attached either way, and a failed
/// registration is named beside it. Only where the binding of the native
/// window is gone by then, because its destruction was notified meanwhile,
/// the request fails as invalid. An answer to a call other than the pending
/// one is ignored and the pending call is due again.
pub open spec fn step_outcome(
    state: AttachState,
    reply: NativeReply,
    bindings: Map<isize, HandleBinding>,
) -> StepModel {
    match (state.stage, reply) {
        (AttachStage::Liveness, NativeReply::Alive(alive)) => match confirmed(
            state.native_handle(),
            alive,
        ) {
            Ok(_) => state.proceed(AttachStage::Display),
            Err(error) => StepModel::Failed(error),
        },
        (AttachStage::Display, NativeReply::Display(display)) => (AttachState {
            builder: InitializationBuilder { display: Some(display), ..state.builder },
            ..state
        }).proceed(AttachStage::Appearance),
        (AttachStage::Appearance, NativeReply::Appearance(appearance)) => (AttachState {
            builder: InitializationBuilder { appearance, ..state.builder },
            ..state
        }).proceed(AttachStage::Geometry),
        (AttachStage::Geometry, NativeReply::ClientArea(client_rect)) => match measured(
            state,
            client_rect,
        ).builder.built() {
            Ok(_) => measured(state, client_rect).proceed(AttachStage::DropTarget),
            Err(error) => StepModel::Failed(error),
        },
        (AttachStage::DropTarget, NativeReply::DropTarget(registered)) => if bindings.contains_key(
            state.hwnd,
        ) {
            StepModel::Attached {
                hwnd: state.hwnd,
                degraded: if registered {
                    None
                } else {
                    Some(BindingFailure::DropTarget { hwnd: state.hwnd })
                },
            }
        } else {
            StepModel::Failed(AttachError::InvalidHandle(state.native_handle()))
        },
        _ => StepModel::Continue { state, call: state.pending_call() },
    }
}

/// The answers that fail a well-formed request: that the window is dead,
/// that its client rectangle could not be reported, and the outcome of the
/// registration of a window whose binding is gone.
pub open spec fn fails(
    state: AttachState,
    reply: NativeReply,
    bindings: Map<isize, HandleBinding>,
) -> bool {
    ||| state.stage is Liveness && reply == NativeReply::Alive(false)
    ||| state.stage is Geometry && reply == NativeReply::ClientArea(None)
    ||| state.stage is DropTarget && reply is DropTarget && !bindings.contains_key(state.hwnd)
}

/// The bindings after the answer `reply` reached the request `state`. The
/// step that takes a client rectangle installs the binding of the window.
/// The step that takes the outcome of the registration records it in that
/// binding. Every other step, and every step that fails, leaves the bindings
/// as they are.
pub open spec fn step_bindings(
    state: AttachState,
    reply: NativeReply,
    bindings: Map<isize, HandleBinding>,
) -> Map<isize, HandleBinding> {
    match (state.stage, reply) {
        (AttachStage::Geometry, NativeReply::ClientArea(client_rect)) => if measured(
            state,
            client_rect,
        ).builder.built() is Ok {
            after_install(bindings, measured(state, client_rect).window())
        } else {
            bindings
        },
        (AttachStage::DropTarget, NativeReply::DropTarget(registered)) => after_registration(
            bindings,
            state.hwnd,
            registered,
        ),
        _ => bindings,
    }
}

/// Where a request that stands at `start` ends up once the answers `replies`
/// were handed, one after the other, to the steps that wait for them, and
/// what became of the bindings. A request that is attached or failed takes no
/// further answers.
pub open spec fn run(
    start: StepModel,
    replies: Seq<NativeReply>,
    bindings: Map<isize, HandleBinding>,
) -> (StepModel, Map<isize, HandleBinding>)
    decreases replies.len(),
{
    match start {
        StepModel::Continue { state, .. } => if replies.len() > 0 {
            run(
                step_outcome(state, replies[0], bindings),
                replies.drop_first(),
                step_bindings(state, replies[0], bindings),
            )
        } else {
            (start, bindings)
        },
        _ => (start, bindings),
    }
}

/// The calls that such a run issues on the platform, in their order.
pub open spec fn calls_issued(
    start: StepModel,
    replies: Seq<NativeReply>,
    bindings: Map<isize, HandleBinding>,
) -> Seq<NativeCall>
    decreases replies.len(),
{
    match start {
        StepModel::Continue { state, call } => if replies.len() > 0 {
            seq![call] + calls_issued(
                step_outcome(state, replies[0], bindings),
                replies.drop_first(),
                step_bindings(state, replies[0], bindings),
            )
        } else {
            seq![call]
        },
        _ => Seq::<NativeCall>::empty(),
    }
}

/// An attach request under way. It is made by
/// [`WindowsWindow::new_embedded`] and moved on by [`AttachSession::step`],
/// and by nothing else, so that what it holds is always well formed.
#[derive(Debug, PartialEq, Eq)]
pub struct AttachSession {
    state: AttachState,
}

impl View for AttachSession {
    type V = AttachState;

    closed spec fn view(&self) -> AttachState {
        self.state
    }
}

/// Where an attach request stands after a step.
#[derive(Debug, PartialEq, Eq)]
pub enum AttachStep {
    /// The request goes on: the caller performs `call` and hands the
    /// platform's answer to [`AttachSession::step`].
    Continue { session: AttachSession, call: NativeCall },
    /// The window is attached and bound to `hwnd`. `degraded` names an
    /// optional integration that could not be set up; the caller logs it.
    Attached { hwnd: isize, degraded: Option<BindingFailure> },
    /// The request failed, and the native window has no binding from it.
    Failed(AttachError),
}

impl View for AttachStep {
    type V = StepModel;

    open spec fn view(&self) -> StepModel {
        match *self {
            AttachStep::Continue { session, call } => StepModel::Continue { state: session@, call },
            AttachStep::Attached { hwnd, degraded } => StepModel::Attached { hwnd, degraded },
            AttachStep::Failed(error) => StepModel::Failed(error),
        }
    }
}

/// Returns the call whose answer the request `state` waits for.
fn call_for(state: &AttachState) -> (call: NativeCall)
    ensures
        call == state.pending_call(),
{
    match state.stage {
        AttachStage::Liveness => NativeCall::CheckAlive { hwnd: state.hwnd },
        AttachStage::Display => NativeCall::LocateDisplay { hwnd: state.hwnd },
        AttachStage::Appearance => NativeCall::ReadAppearance,
        AttachStage::Geometry => NativeCall::MeasureClientArea { hwnd: state.hwnd },
        AttachStage::DropTarget => NativeCall::RegisterDropTarget { hwnd: state.hwnd },
    }
}

impl AttachSession {
    /// What holds of every session: the request it holds is well formed.
    #[verifier::type_invariant]
    pub open spec fn holds_well_formed(self) -> bool {
        self@.well_formed()
    }

    /// Returns what the request holds.
    pub fn state(&self) -> (state: AttachState)
        ensures
            state == self@,
            state.well_formed(),
    {
        proof {
            use_type_invariant(self);
        }
        self.state
    }

    /// Returns the native window that the request is about.
    pub fn hwnd(&self) -> (hwnd: isize)
        ensures
            hwnd == self@.hwnd,
    {
        self.state.hwnd
    }

    /// Returns the call whose answer the request waits for.
    pub fn pending_call(&self) -> (call: NativeCall)
        ensures
            call == self@.pending_call(),
    {
        call_for(&self.state)
    }

    /// Returns whether the next step is the one that installs the binding,
    /// so that the native window must be without a binding when it is taken.
    pub fn installs_binding(&self) -> (installs: bool)
        ensures
            installs == (self@.stage is Geometry),
    {
        match self.state.stage {
            AttachStage::Geometry => true,
            _ => false,
        }
    }

    /// Moves the request to the stage `stage` and says which call is due.
    fn proceed(state: AttachState, stage: AttachStage) -> (step: AttachStep)
        requires
            (AttachState { stage, ..state }).well_formed(),
        ensures
            step@ == state.proceed(stage),
    {
        let state = AttachState { stage, ..state };
        let call = call_for(&state);
        AttachStep::Continue { session: AttachSession { state }, call }
    }

    /// Takes the platform's answer `reply` and decides how the request goes
    /// on: with another call, with the window attached, or with a failure.
    ///
    /// The step that takes a client rectangle constructs the window state,
    /// installs its binding in `table` and takes the extra reference of the
    /// binding; the native window must have no binding when that step is
    /// taken. The step that takes the outcome of the registration records it
    /// in the binding. No other step changes `table`, and no step that fails
    /// does.
    pub fn step(self, reply: NativeReply, table: &mut BindingTable) -> (step: AttachStep)
        requires
            self@.stage is Geometry ==> !old(table)@.contains_key(self@.hwnd),
        ensures
            step@ == step_outcome(self@, reply, old(table)@),
            final(table)@ == step_bindings(self@, reply, old(table)@),
            step@ is Failed ==> final(table)@ == old(table)@,
            step@ is Failed <==> fails(self@, reply, old(table)@),
            step@ is Attached ==> final(table)@.contains_key(self@.hwnd),
            step@ matches StepModel::Continue { state: next, .. } ==> next.well_formed(),
            well_formed(final(table)@),
    {
        proof {
            use_type_invariant(&*table);
            use_type_invariant(&self);
        }
        let state = self.state;
        match (state.stage, reply) {
            (AttachStage::Liveness, NativeReply::Alive(alive)) => {
                match confirm_liveness(NativeWindowHandle::Win32 { hwnd: state.hwnd }, alive) {
                    Ok(_) => Self::proceed(state, AttachStage::Display),
                    Err(error) => AttachStep::Failed(error),
                }
            },
            (AttachStage::Display, NativeReply::Display(display)) => {
                let builder = state.builder.with_display(display);
                Self::proceed(AttachState { builder, ..state }, AttachStage::Appearance)
            },
            (AttachStage::Appearance, NativeReply::Appearance(appearance)) => {
                let builder = state.builder.with_appearance(appearance);
                Self::proceed(AttachState { builder, ..state }, AttachStage::Geometry)
            },
            (AttachStage::Geometry, NativeReply::ClientArea(client_rect)) => {
                let builder = state.builder.with_client_rect(client_rect);
                match builder.build() {
                    Ok(record) => {
                        let window = WindowsWindow::attached(
                            state.hwnd,
                            state.handle,
                            &state.params,
                            &state.creation_info,
                            &record,
                        );
                        table.install(window);
                        Self::proceed(AttachState { builder, ..state }, AttachStage::DropTarget)
                    },
                    Err(error) => {
                        AttachStep::Failed(error)
                    },
                }
            },
            (AttachStage::DropTarget, NativeReply::DropTarget(registered)) => {
                if table.record_drop_target(state.hwnd, registered) {
                    let degraded = if registered {
                        None
                    } else {
                        Some(BindingFailure::DropTarget { hwnd: state.hwnd })
                    };
                    AttachStep::Attached { hwnd: state.hwnd, degraded }
                } else {
                    AttachStep::Failed(
                        AttachError::InvalidHandle(NativeWindowHandle::Win32 { hwnd: state.hwnd }),
                    )
                }
            },
            _ => {
                let call = call_for(&state);
                AttachStep::Continue { session: self, call }
            },
        }
    }
}

impl WindowsWindow {
    /// Begins attaching a window to the native window `raw_handle` instead
    /// of creating one. The handle must be a Win32 handle and not null; the
    /// first call asks the platform whether it is alive.
    ///
    /// The window that results never takes the focus, is never shown, moved,
    /// resized or minimized by the toolkit and has no title bar, whatever
    /// `params` ask for: the host decides all of these.
    pub fn new_embedded(
        handle: AnyWindowHandle,
        params: WindowParams,
        creation_info: WindowCreationInfo,
        raw_handle: NativeWindowHandle,
    ) -> (step: AttachStep)
        ensures
            step@ == begin_model(handle, params, creation_info, raw_handle),
            !(raw_handle is Win32) ==> step@ == StepModel::Failed(
                AttachError::HandleMismatch(raw_handle),
            ),
            raw_handle is Win32 && raw_handle.is_null_handle() ==> step@ == StepModel::Failed(
                AttachError::InvalidHandle(raw_handle),
            ),
            raw_handle is Win32 && !raw_handle.is_null_handle() ==> step@ is Continue,
            step@ matches StepModel::Continue { state, .. } ==> state.well_formed(),
    {
        match validate_handle(Platform::Windows, raw_handle) {
            Ok(NativeWindowHandle::Win32 { hwnd }) => {
                let state = AttachState {
                    stage: AttachStage::Liveness,
                    hwnd,
                    handle,
                    params,
                    creation_info,
                    builder: InitializationBuilder::new(),
                };
                AttachStep::Continue {
                    session: AttachSession { state },
                    call: NativeCall::CheckAlive { hwnd },
                }
            },
            Ok(other) => AttachStep::Failed(AttachError::HandleMismatch(other)),
            Err(error) => AttachStep::Failed(error),
        }
    }

    /// Opens the window that `options` ask for, where they ask to attach to a
    /// native window: the attach request begins with the handle and the
    /// parameters of the options. Options without a native handle ask for a
    /// window of the toolkit's own, which is not made here.
    pub fn open_embedded(
        handle: AnyWindowHandle,
        options: WindowOptions,
        creation_info: WindowCreationInfo,
    ) -> (step: Option<AttachStep>)
        ensures
            step is Some <==> options.raw_window_handle is Some,
            step matches Some(begun) ==> begun@ == begin_model(
                handle,
                options.params_of(),
                creation_info,
                options.raw_window_handle->0,
            ),
    {
        let params = options.params();
        match options.raw_window_handle {
            Some(raw_handle) => Some(Self::new_embedded(handle, params, creation_info, raw_handle)),
            None => None,
        }
    }
}

} // verus!
