//! The bindings between native windows and the window state attached to
//! them. A binding is what lets a native event, which carries nothing but the
//! handle, find the state again. It owns the state, and holds one extra
//! ownership reference on it for as long as it stands.

use std::collections::HashMap;
use vstd::prelude::*;
use crate::geometry::Size;
use crate::window::{CallbackId, ResizeDispatch, WindowsWindow, WindowsWindowInner};

verus! {

/// What a binding holds, as plain values.
#[derive(Clone, Copy, Debug, PartialEq, Eq)]
pub struct HandleBinding {
    /// The window bound to the handle.
    pub window: WindowsWindowInner,
    /// The ownership references that the binding holds on the window beyond
    /// the owner's own.
    pub extra_references: usize,
    /// Whether the native window is registered as a drag-and-drop target.
    pub drop_target: bool,
}

/// The binding that installing `window` creates: one extra reference, and no
/// drag-and-drop registration yet.
pub open spec fn installed_binding(window: WindowsWindowInner) -> HandleBinding {
    HandleBinding { window, extra_references: 1, drop_target: false }
}

/// The extra references held for `hwnd` in `bindings`: those of its binding,
/// and none where it has no binding.
pub open spec fn references_of(bindings: Map<isize, HandleBinding>, hwnd: isize) -> nat {
    if bindings.contains_key(hwnd) {
        bindings[hwnd].extra_references as nat
    } else {
        0
    }
}

/// What holds of the bindings of every table: each binding stands under the
/// handle of its own window and holds exactly one extra reference, and its
/// window is under the control of the host and has the device size that its
/// logical size gives.
pub open spec fn well_formed(bindings: Map<isize, HandleBinding>) -> bool {
    forall|hwnd: isize| #[trigger]
        bindings.contains_key(hwnd) ==> bindings[hwnd].window.hwnd == hwnd
            && bindings[hwnd].extra_references == 1 && bindings[hwnd].window.host_controlled()
            && bindings[hwnd].window.is_consistent()
}

/// The bindings after the native window of `window` was bound to it.
pub open spec fn after_install(
    bindings: Map<isize, HandleBinding>,
    window: WindowsWindowInner,
) -> Map<isize, HandleBinding> {
    bindings.insert(window.hwnd, installed_binding(window))
}

/// The bindings after the outcome of the drag-and-drop registration of `hwnd`
/// was recorded. Without a binding for `hwnd` nothing changes.
pub open spec fn after_registration(
    bindings: Map<isize, HandleBinding>,
    hwnd: isize,
    registered: bool,
) -> Map<isize, HandleBinding> {
    if bindings.contains_key(hwnd) {
        bindings.insert(hwnd, HandleBinding { drop_target: registered, ..bindings[hwnd] })
    } else {
        bindings
    }
}

/// The bindings after the window of `hwnd` took the size `size`. Without a
/// binding for `hwnd` nothing changes.
pub open spec fn after_resize(bindings: Map<isize, HandleBinding>, hwnd: isize, size: Size) -> Map<
    isize,
    HandleBinding,
> {
    if bindings.contains_key(hwnd) {
        bindings.insert(
            hwnd,
            HandleBinding { window: bindings[hwnd].window.resized(size), ..bindings[hwnd] },
        )
    } else {
        bindings
    }
}

/// The callback that a resize of the window of `hwnd` makes due: none
/// without a binding for `hwnd`.
pub open spec fn resize_dispatch_of(
    bindings: Map<isize, HandleBinding>,
    hwnd: isize,
    size: Size,
) -> Option<ResizeDispatch> {
    if bindings.contains_key(hwnd) {
        bindings[hwnd].window.resize_dispatch(size)
    } else {
        None
    }
}

/// The bindings after `callback` went into the resize slot of the window of
/// `hwnd`. Without a binding for `hwnd` nothing changes.
pub open spec fn after_on_resize(
    bindings: Map<isize, HandleBinding>,
    hwnd: isize,
    callback: CallbackId,
) -> Map<isize, HandleBinding> {
    if bindings.contains_key(hwnd) {
        bindings.insert(
            hwnd,
            HandleBinding {
                window: bindings[hwnd].window.with_resize_callback(callback),
                ..bindings[hwnd]
            },
        )
    } else {
        bindings
    }
}

struct Slot {
    window: WindowsWindow,
    extra_references: usize,
    drop_target: bool,
}

impl Slot {
    spec fn model(self) -> HandleBinding {
        HandleBinding {
            window: self.window@,
            extra_references: self.extra_references,
            drop_target: self.drop_target,
        }
    }
}

/// The table of bindings, one for each native window that a window of the
/// toolkit is attached to.
pub struct BindingTable {
    slots: HashMap<isize, Slot>,
}

impl View for BindingTable {
    type V = Map<isize, HandleBinding>;

    closed spec fn view(&self) -> Map<isize, HandleBinding> {
        Map::new(|hwnd: isize| self.slots@.contains_key(hwnd), |hwnd: isize| self.slots@[hwnd].model())
    }
}

impl BindingTable {
    /// What holds of every table: its bindings are well formed.
    #[verifier::type_invariant]
    pub open spec fn bindings_well_formed(self) -> bool {
        well_formed(self@)
    }

    /// Whether every slot stands under the handle of its own window, holds
    /// one extra reference, and has a window that is under the control of
    /// the host and consistent in its sizes.
    spec fn agree(slots: Map<isize, Slot>) -> bool {
        forall|hwnd: isize| #[trigger]
            slots.contains_key(hwnd) ==> slots[hwnd].window@.hwnd == hwnd
                && slots[hwnd].extra_references == 1 && slots[hwnd].window@.host_controlled()
                && slots[hwnd].window@.is_consistent()
    }

    /// Moves the slots out of the table, which is left without any.
    fn take_slots(&mut self) -> (slots: HashMap<isize, Slot>)
        ensures
            slots@ == old(self).slots@,
            Self::agree(slots@),
            final(self).slots@ == Map::<isize, Slot>::empty(),
    {
        proof {
            use_type_invariant(&*self);
            let held = self.slots@;
            assert forall|hwnd: isize| #[trigger] held.contains_key(hwnd) implies {
                &&& held[hwnd].window@.hwnd == hwnd
                &&& held[hwnd].extra_references == 1
                &&& held[hwnd].window@.host_controlled()
                &&& held[hwnd].window@.is_consistent()
            } by {
                assert(self@.contains_key(hwnd));
            }
        }
        let mut slots: HashMap<isize, Slot> = HashMap::new();
        core::mem::swap(&mut self.slots, &mut slots);
        assert(self@ =~= Map::<isize, HandleBinding>::empty());
        slots
    }

    /// Moves `slots` into the table, in place of what it holds.
    fn put_slots(&mut self, slots: HashMap<isize, Slot>)
        requires
            Self::agree(slots@),
        ensures
            final(self).slots@ == slots@,
    {
        let mut slots = slots;
        proof {
            let installed = Map::new(
                |hwnd: isize| slots@.contains_key(hwnd),
                |hwnd: isize| slots@[hwnd].model(),
            );
            assert forall|hwnd: isize| #[trigger] installed.contains_key(hwnd) implies {
                &&& installed[hwnd].window.hwnd == hwnd
                &&& installed[hwnd].extra_references == 1
                &&& installed[hwnd].window.host_controlled()
                &&& installed[hwnd].window.is_consistent()
            } by {
                assert(slots@.contains_key(hwnd));
            }
        }
        core::mem::swap(&mut self.slots, &mut slots);
    }

    /// Creates a table without bindings.
    pub fn new() -> (table: BindingTable)
        ensures
            table@ == Map::<isize, HandleBinding>::empty(),
            well_formed(table@),
    {
        let table = BindingTable { slots: HashMap::new() };
        assert(table@ =~= Map::<isize, HandleBinding>::empty());
        table
    }

    /// Returns whether `hwnd` has a binding.
    pub fn is_bound(&self, hwnd: isize) -> (bound: bool)
        ensures
            bound == self@.contains_key(hwnd),
            well_formed(self@),
    {
        proof {
            use_type_invariant(self);
        }
        self.slots.contains_key(&hwnd)
    }

    /// Returns the extra ownership references held for `hwnd`: one while it
    /// has a binding, none otherwise.
    pub fn extra_references(&self, hwnd: isize) -> (count: usize)
        ensures
            count == references_of(self@, hwnd),
            count == if self@.contains_key(hwnd) { 1usize } else { 0usize },
    {
        proof {
            use_type_invariant(self);
        }
        match self.slots.get(&hwnd) {
            Some(slot) => slot.extra_references,
            None => 0,
        }
    }

    /// Finds the window bound to `hwnd`, as the routing of a native event
    /// does.
    pub fn window(&self, hwnd: isize) -> (found: Option<&WindowsWindow>)
        ensures
            found is Some <==> self@.contains_key(hwnd),
            found matches Some(window) ==> window@ == self@[hwnd].window && window@.hwnd == hwnd
                && window@.host_controlled() && window@.is_consistent(),
    {
        proof {
            use_type_invariant(self);
        }
        match self.slots.get(&hwnd) {
            Some(slot) => {
                assert(self@.contains_key(hwnd));
                Some(&slot.window)
            },
            None => None,
        }
    }

    /// Returns what the binding of `hwnd` holds.
    pub fn binding(&self, hwnd: isize) -> (found: Option<HandleBinding>)
        ensures
            found == if self@.contains_key(hwnd) {
                Some(self@[hwnd])
            } else {
                None
            },
    {
        match self.slots.get(&hwnd) {
            Some(slot) => Some(
                HandleBinding {
                    window: slot.window.inner(),
                    extra_references: slot.extra_references,
                    drop_target: slot.drop_target,
                },
            ),
            None => None,
        }
    }

    /// Binds the native window of `window` to it and takes the one extra
    /// reference of the binding. Only an attach request that got as far as
    /// the geometry of the native window installs a binding. The native
    /// window must have no binding yet: attaching again takes a detachment
    /// first.
    pub(crate) fn install(&mut self, window: WindowsWindow)
        requires
            !old(self)@.contains_key(window@.hwnd),
        ensures
            final(self)@ == after_install(old(self)@, window@),
            references_of(final(self)@, window@.hwnd) == 1,
            well_formed(final(self)@),
    {
        proof {
            use_type_invariant(&*self);
        }
        proof {
            use_type_invariant(&window);
        }
        let hwnd = window.hwnd();
        let ghost before = self@;
        let ghost model = window@;
        let mut slots = self.take_slots();
        slots.insert(hwnd, Slot { window, extra_references: 1, drop_target: false });
        self.put_slots(slots);
        assert(self@ =~= after_install(before, model));
    }

    /// Records whether the native window `hwnd` was registered as a
    /// drag-and-drop target. Returns whether `hwnd` has a binding; without
    /// one nothing changes.
    pub(crate) fn record_drop_target(&mut self, hwnd: isize, registered: bool) -> (bound: bool)
        ensures
            bound == old(self)@.contains_key(hwnd),
            final(self)@ == after_registration(old(self)@, hwnd, registered),
            well_formed(final(self)@),
    {
        proof {
            use_type_invariant(&*self);
        }
        let ghost before = self@;
        let mut slots = self.take_slots();
        match slots.remove(&hwnd) {
            Some(slot) => {
                let Slot { window, extra_references, drop_target: _ } = slot;
                slots.insert(hwnd, Slot { window, extra_references, drop_target: registered });
                self.put_slots(slots);
                assert(self@ =~= after_registration(before, hwnd, registered));
                true
            },
            None => {
                self.put_slots(slots);
                assert(self@ =~= before);
                false
            },
        }
    }

    /// Registers `callback` for resizes of the window bound to `hwnd`.
    /// Returns whether `hwnd` has a binding; without one nothing changes.
    pub fn on_resize(&mut self, hwnd: isize, callback: CallbackId) -> (bound: bool)
        ensures
            bound == old(self)@.contains_key(hwnd),
            final(self)@ == after_on_resize(old(self)@, hwnd, callback),
            well_formed(final(self)@),
    {
        proof {
            use_type_invariant(&*self);
        }
        let ghost before = self@;
        let mut slots = self.take_slots();
        match slots.remove(&hwnd) {
            Some(slot) => {
                let Slot { mut window, extra_references, drop_target } = slot;
                window.on_resize(callback);
                slots.insert(hwnd, Slot { window, extra_references, drop_target });
                self.put_slots(slots);
                assert(self@ =~= after_on_resize(before, hwnd, callback));
                true
            },
            None => {
                self.put_slots(slots);
                assert(self@ =~= before);
                false
            },
        }
    }

    /// Notifies the window bound to `hwnd` that the host gave the native
    /// window the size `new_size`. Without a binding for `hwnd` nothing
    /// changes and no callback is due.
    pub fn notify_host_resize(&mut self, hwnd: isize, new_size: Size) -> (dispatch: Option<
        ResizeDispatch,
    >)
        ensures
            final(self)@ == after_resize(old(self)@, hwnd, new_size),
            dispatch == resize_dispatch_of(old(self)@, hwnd, new_size),
            well_formed(final(self)@),
    {
        proof {
            use_type_invariant(&*self);
        }
        let ghost before = self@;
        let mut slots = self.take_slots();
        match slots.remove(&hwnd) {
            Some(slot) => {
                let Slot { mut window, extra_references, drop_target } = slot;
                let dispatch = window.notify_host_resize(new_size);
                slots.insert(hwnd, Slot { window, extra_references, drop_target });
                self.put_slots(slots);
                assert(self@ =~= after_resize(before, hwnd, new_size));
                dispatch
            },
            None => {
                self.put_slots(slots);
                assert(self@ =~= before);
                None
            },
        }
    }

    /// Routes a resize that the platform delivered for `hwnd` to the window
    /// bound to it. Without a binding for `hwnd` nothing changes and no
    /// callback is due.
    pub fn dispatch_native_resize(&mut self, hwnd: isize, new_size: Size) -> (dispatch: Option<
        ResizeDispatch,
    >)
        ensures
            final(self)@ == after_resize(old(self)@, hwnd, new_size),
            dispatch == resize_dispatch_of(old(self)@, hwnd, new_size),
            well_formed(final(self)@),
    {
        proof {
            use_type_invariant(&*self);
        }
        let ghost before = self@;
        let mut slots = self.take_slots();
        match slots.remove(&hwnd) {
            Some(slot) => {
                let Slot { mut window, extra_references, drop_target } = slot;
                let dispatch = window.handle_native_resize(new_size);
                slots.insert(hwnd, Slot { window, extra_references, drop_target });
                self.put_slots(slots);
                assert(self@ =~= after_resize(before, hwnd, new_size));
                dispatch
            },
            None => {
                self.put_slots(slots);
                assert(self@ =~= before);
                None
            },
        }
    }

    /// Notifies the table that the host destroyed the native window `hwnd`.
    /// The binding of `hwnd` is removed and its extra reference released;
    /// the window comes back to the caller, who owns it from now on. Without
    /// a binding for `hwnd` nothing changes and nothing is released.
    pub fn notify_destroyed(&mut self, hwnd: isize) -> (released: Option<WindowsWindow>)
        ensures
            final(self)@ == old(self)@.remove(hwnd),
            released is Some <==> old(self)@.contains_key(hwnd),
            released matches Some(window) ==> window@ == old(self)@[hwnd].window,
            released is None ==> final(self)@ == old(self)@,
            references_of(final(self)@, hwnd) == 0,
            well_formed(final(self)@),
    {
        proof {
            use_type_invariant(&*self);
        }
        let ghost before = self@;
        let mut slots = self.take_slots();
        let removed = slots.remove(&hwnd);
        self.put_slots(slots);
        match removed {
            Some(slot) => {
                assert(self@ =~= before.remove(hwnd));
                Some(slot.window)
            },
            None => {
                assert(self@ =~= before);
                assert(before.remove(hwnd) =~= before);
                None
            },
        }
    }
}

} // verus!
