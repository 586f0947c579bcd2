//! The bootstrap context: which native objects exist, which step may come
//! next, and in which order everything is torn down.

use crate::backend::vulkan::device::DeviceRequest;
use crate::backend::vulkan::{result_text, vulkan_error};
use crate::backend::{Backend, Error, ErrorKind, ErrorView};
use vstd::prelude::*;
use vstd::string::*;

verus! {

/// How far the bootstrap has come.
#[derive(Clone, Copy, Debug, PartialEq, Eq, Structural)]
pub enum Stage {
    /// The instance exists, nothing else.
    Created,
    /// A surface is bound to the instance.
    SurfaceBound,
    /// The logical device and its queues exist.
    DeviceReady,
    /// Everything has been torn down.
    Destroyed,
}

/// One native object to destroy.
#[derive(Clone, Copy, Debug, PartialEq, Eq, Structural)]
pub enum TeardownStep {
    DebugMessenger(u64),
    Device(u64),
    Surface(u64),
    Instance(u64),
}

/// The handles that come with a new instance.
#[derive(Clone, Copy, Debug, PartialEq, Eq, Structural)]
pub struct InstanceHandles {
    pub instance: u64,
    /// The debug messenger, created exactly when diagnostics are enabled.
    pub debug_utils_messenger: Option<u64>,
}

/// The handles that come with a new logical device.
#[derive(Clone, Copy, Debug, PartialEq, Eq, Structural)]
pub struct DeviceHandles {
    pub device: u64,
    /// Queue 0 of the graphics family.
    pub graphics_queue: u64,
    /// Queue 0 of the present family.
    pub present_queue: u64,
}

/// The handles a context holds, each as its raw value.
pub struct VulkanView {
    pub instance: Option<u64>,
    pub debug_utils_messenger: Option<u64>,
    pub surface: Option<u64>,
    pub device: Option<u64>,
    pub physical_device: Option<u64>,
    pub graphics_queue: Option<u64>,
    pub present_queue: Option<u64>,
}

impl VulkanView {
    /// The dependencies among the handles: nothing outlives the instance,
    /// a device needs a surface, and the physical device and both queues
    /// are held exactly while the device is.
    pub open spec fn well_formed(self) -> bool {
        &&& self.instance is None ==> self.debug_utils_messenger is None && self.surface is None
        &&& self.device is Some ==> self.surface is Some
        &&& self.physical_device is Some <==> self.device is Some
        &&& self.graphics_queue is Some <==> self.device is Some
        &&& self.present_queue is Some <==> self.device is Some
    }

    /// The stage that the handles amount to.
    pub open spec fn stage(self) -> Stage {
        if self.instance is None {
            Stage::Destroyed
        } else if self.surface is None {
            Stage::Created
        } else if self.device is None {
            Stage::SurfaceBound
        } else {
            Stage::DeviceReady
        }
    }

    /// A context that holds nothing.
    pub open spec fn empty() -> VulkanView {
        VulkanView {
            instance: None,
            debug_utils_messenger: None,
            surface: None,
            device: None,
            physical_device: None,
            graphics_queue: None,
            present_queue: None,
        }
    }

    /// A context right after instance creation.
    pub open spec fn created(handles: InstanceHandles) -> VulkanView {
        VulkanView {
            instance: Some(handles.instance),
            debug_utils_messenger: handles.debug_utils_messenger,
            ..VulkanView::empty()
        }
    }

    /// The context after a surface was bound.
    pub open spec fn with_surface(self, surface: u64) -> VulkanView {
        VulkanView { surface: Some(surface), ..self }
    }

    /// The context after a logical device was created on `physical_device`.
    pub open spec fn with_device(self, physical_device: u64, handles: DeviceHandles) -> VulkanView {
        VulkanView {
            device: Some(handles.device),
            physical_device: Some(physical_device),
            graphics_queue: Some(handles.graphics_queue),
            present_queue: Some(handles.present_queue),
            ..self
        }
    }

    /// What teardown destroys, in order: the debug messenger, the device,
    /// the surface, the instance; each only if it is held.
    pub open spec fn teardown_steps(self) -> Seq<TeardownStep> {
        (match self.debug_utils_messenger {
            Some(messenger) => seq![TeardownStep::DebugMessenger(messenger)],
            None => Seq::empty(),
        }) + (match self.device {
            Some(device) => seq![TeardownStep::Device(device)],
            None => Seq::empty(),
        }) + (match self.surface {
            Some(surface) => seq![TeardownStep::Surface(surface)],
            None => Seq::empty(),
        }) + (match self.instance {
            Some(instance) => seq![TeardownStep::Instance(instance)],
            None => Seq::empty(),
        })
    }
}

/// The place of each kind of step in the teardown order.
pub open spec fn teardown_rank(step: TeardownStep) -> int {
    match step {
        TeardownStep::DebugMessenger(_) => 0,
        TeardownStep::Device(_) => 1,
        TeardownStep::Surface(_) => 2,
        TeardownStep::Instance(_) => 3,
    }
}

/// Teardown order: whatever the context holds, its steps come in strictly
/// rising rank. So the debug messenger and the device go before the
/// surface, the surface before the instance, and nothing is destroyed
/// twice.
pub proof fn lemma_teardown_order(view: VulkanView, i: int, j: int)
    requires
        0 <= i < j < view.teardown_steps().len(),
    ensures
        teardown_rank(view.teardown_steps()[i]) < teardown_rank(view.teardown_steps()[j]),
{
}

/// Teardown is exhaustive and exact: a step is taken for a handle if and
/// only if the context holds that handle.
pub proof fn lemma_teardown_releases_what_is_held(view: VulkanView, handle: u64)
    ensures
        view.teardown_steps().contains(TeardownStep::DebugMessenger(handle))
            <==> view.debug_utils_messenger == Some(handle),
        view.teardown_steps().contains(TeardownStep::Device(handle)) <==> view.device == Some(
            handle,
        ),
        view.teardown_steps().contains(TeardownStep::Surface(handle)) <==> view.surface == Some(
            handle,
        ),
        view.teardown_steps().contains(TeardownStep::Instance(handle)) <==> view.instance
            == Some(handle),
{
    let steps = view.teardown_steps();
    let m: int = if view.debug_utils_messenger is Some { 1 } else { 0 };
    let d: int = if view.device is Some { 1 } else { 0 };
    let s: int = if view.surface is Some { 1 } else { 0 };
    if view.debug_utils_messenger == Some(handle) {
        assert(steps[0] == TeardownStep::DebugMessenger(handle));
    }
    if view.device == Some(handle) {
        assert(steps[m] == TeardownStep::Device(handle));
    }
    if view.surface == Some(handle) {
        assert(steps[m + d] == TeardownStep::Surface(handle));
    }
    if view.instance == Some(handle) {
        assert(steps[m + d + s] == TeardownStep::Instance(handle));
    }
}

/// Teardown is idempotent: what it leaves behind has nothing to destroy.
pub proof fn lemma_teardown_idempotent()
    ensures
        VulkanView::empty().teardown_steps() == Seq::<TeardownStep>::empty(),
        VulkanView::empty().well_formed(),
        VulkanView::empty().stage() == Stage::Destroyed,
{
}

/// The stages follow one another: each step, taken in its stage, leads to
/// the next stage and keeps the context well formed.
pub proof fn lemma_stages_advance(
    view: VulkanView,
    surface: u64,
    physical_device: u64,
    handles: DeviceHandles,
)
    requires
        view.well_formed(),
    ensures
        view.stage() == Stage::Created ==> {
            &&& view.with_surface(surface).well_formed()
            &&& view.with_surface(surface).stage() == Stage::SurfaceBound
        },
        view.stage() == Stage::SurfaceBound ==> {
            &&& view.with_device(physical_device, handles).well_formed()
            &&& view.with_device(physical_device, handles).stage() == Stage::DeviceReady
        },
{
}

/// The error for binding a surface at the wrong time.
pub open spec fn surface_order_error() -> ErrorView {
    vulkan_error(
        ErrorKind::InvalidBootstrapOrder,
        "Can't create a surface unless the instance is all there is"@,
    )
}

/// The error for creating a device at the wrong time.
pub open spec fn device_order_error(stage: Stage) -> ErrorView {
    vulkan_error(
        ErrorKind::InvalidBootstrapOrder,
        if stage == Stage::Created {
            "Can't create device without a surface"@
        } else {
            "Can't create a device unless a surface is the last thing bound"@
        },
    )
}

/// The bootstrap context. It owns the instance and whatever was created on
/// top of it, and is the single place where all of it is released.
#[derive(Debug)]
pub struct Vulkan {
    instance: Option<u64>,
    debug_utils_messenger: Option<u64>,
    surface: Option<u64>,
    device: Option<u64>,
    physical_device: Option<u64>,
    graphics_queue: Option<u64>,
    present_queue: Option<u64>,
}

impl View for Vulkan {
    type V = VulkanView;

    closed spec fn view(&self) -> VulkanView {
        VulkanView {
            instance: self.instance,
            debug_utils_messenger: self.debug_utils_messenger,
            surface: self.surface,
            device: self.device,
            physical_device: self.physical_device,
            graphics_queue: self.graphics_queue,
            present_queue: self.present_queue,
        }
    }
}

impl Vulkan {
    #[verifier::type_invariant]
    closed spec fn inv(self) -> bool {
        self@.well_formed()
    }

    /// How far the bootstrap has come.
    pub fn stage(&self) -> (stage: Stage)
        ensures
            stage == self@.stage(),
            self@.well_formed(),
    {
        proof {
            use_type_invariant(self);
        }
        if self.instance.is_none() {
            Stage::Destroyed
        } else if self.surface.is_none() {
            Stage::Created
        } else if self.device.is_none() {
            Stage::SurfaceBound
        } else {
            Stage::DeviceReady
        }
    }

    /// The instance, until teardown.
    pub fn instance(&self) -> (handle: Option<u64>)
        ensures
            handle == self@.instance,
    {
        self.instance
    }

    /// The debug messenger, if diagnostics are enabled.
    pub fn debug_utils_messenger(&self) -> (handle: Option<u64>)
        ensures
            handle == self@.debug_utils_messenger,
    {
        self.debug_utils_messenger
    }

    /// The surface, once bound.
    pub fn surface(&self) -> (handle: Option<u64>)
        ensures
            handle == self@.surface,
    {
        self.surface
    }

    /// The logical device, once created.
    pub fn device(&self) -> (handle: Option<u64>)
        ensures
            handle == self@.device,
    {
        self.device
    }

    /// The physical device that the logical device was created on.
    pub fn physical_device(&self) -> (handle: Option<u64>)
        ensures
            handle == self@.physical_device,
    {
        self.physical_device
    }

    /// The graphics queue, valid while the device lives.
    pub fn graphics_queue(&self) -> (handle: Option<u64>)
        ensures
            handle == self@.graphics_queue,
    {
        self.graphics_queue
    }

    /// The present queue, valid while the device lives.
    pub fn present_queue(&self) -> (handle: Option<u64>)
        ensures
            handle == self@.present_queue,
    {
        self.present_queue
    }

    /// Asks leave to bind a surface: granted only while the instance is
    /// all there is. Returns the instance to bind to.
    pub fn begin_surface(&self) -> (result: Result<u64, Error>)
        ensures
            result is Ok <==> self@.stage() == Stage::Created,
            result matches Ok(instance) ==> self@.instance == Some(instance),
            result matches Err(e) ==> e@ == surface_order_error(),
            self@.well_formed(),
    {
        proof {
            use_type_invariant(self);
        }
        match (self.instance, self.surface) {
            (Some(instance), None) => Ok(instance),
            _ => Err(
                Error::new(
                    ErrorKind::InvalidBootstrapOrder,
                    String::from_str("Can't create a surface unless the instance is all there is"),
                ),
            ),
        }
    }

    /// Records the outcome of native surface creation.
    ///
    /// Out of order, the outcome is refused and nothing changes. In order,
    /// a native failure is reported as `SurfaceCreationFailed` and nothing
    /// changes; a surface is recorded and the context moves on.
    pub fn create_surface(&mut self, native: Result<u64, i32>) -> (result: Result<(), Error>)
        ensures
            result is Ok <==> old(self)@.stage() == Stage::Created && native is Ok,
            result is Ok ==> final(self)@ == old(self)@.with_surface(native->Ok_0),
            result is Err ==> final(self)@ == old(self)@,
            result matches Err(e) ==> e@ == (if old(self)@.stage() != Stage::Created {
                surface_order_error()
            } else {
                vulkan_error(ErrorKind::SurfaceCreationFailed, result_text(native->Err_0))
            }),
            final(self)@.well_formed(),
    {
        match self.begin_surface() {
            Ok(_) => {},
            Err(e) => {
                return Err(e);
            },
        }
        match native {
            Ok(surface) => {
                self.surface = Some(surface);
                Ok(())
            },
            Err(code) => Err(Error::surface_creation_failed(code)),
        }
    }

    /// Asks leave to create the logical device: granted only while a
    /// surface is the last thing bound. Returns that surface, against which
    /// the host probes the devices.
    pub fn begin_device(&self) -> (result: Result<u64, Error>)
        ensures
            result is Ok <==> self@.stage() == Stage::SurfaceBound,
            result matches Ok(surface) ==> self@.surface == Some(surface),
            result matches Err(e) ==> e@ == device_order_error(self@.stage()),
            self@.well_formed(),
    {
        proof {
            use_type_invariant(self);
        }
        match (self.instance, self.surface, self.device) {
            (Some(_), Some(surface), None) => Ok(surface),
            (Some(_), None, _) => Err(
                Error::new(
                    ErrorKind::InvalidBootstrapOrder,
                    String::from_str("Can't create device without a surface"),
                ),
            ),
            _ => Err(
                Error::new(
                    ErrorKind::InvalidBootstrapOrder,
                    String::from_str(
                        "Can't create a device unless a surface is the last thing bound",
                    ),
                ),
            ),
        }
    }

    /// Records the outcome of native device creation for `request`.
    ///
    /// Out of order, the outcome is refused and nothing changes. In order,
    /// a native failure is reported as `DeviceCreationFailed` with its code
    /// and nothing changes; on success the device, the physical device it
    /// was created on and both queues are recorded.
    pub fn create_device(
        &mut self,
        request: &DeviceRequest,
        native: Result<DeviceHandles, i32>,
    ) -> (result: Result<(), Error>)
        ensures
            result is Ok <==> old(self)@.stage() == Stage::SurfaceBound && native is Ok,
            result is Ok ==> final(self)@ == old(self)@.with_device(
                request.physical_device,
                native->Ok_0,
            ),
            result is Err ==> final(self)@ == old(self)@,
            result matches Err(e) ==> e@ == (if old(self)@.stage() != Stage::SurfaceBound {
                device_order_error(old(self)@.stage())
            } else {
                vulkan_error(
                    ErrorKind::DeviceCreationFailed(native->Err_0),
                    result_text(native->Err_0),
                )
            }),
            final(self)@.well_formed(),
    {
        match self.begin_device() {
            Ok(_) => {},
            Err(e) => {
                return Err(e);
            },
        }
        match native {
            Ok(handles) => {
                *self = Vulkan {
                    instance: self.instance,
                    debug_utils_messenger: self.debug_utils_messenger,
                    surface: self.surface,
                    device: Some(handles.device),
                    physical_device: Some(request.physical_device),
                    graphics_queue: Some(handles.graphics_queue),
                    present_queue: Some(handles.present_queue),
                };
                Ok(())
            },
            Err(code) => Err(Error::device_creation_failed(code)),
        }
    }

}

impl Backend for Vulkan {
    type Created = InstanceHandles;

    type Release = TeardownStep;

    open spec fn pending_release(&self) -> Seq<TeardownStep> {
        self@.teardown_steps()
    }

    /// The context for a freshly created instance.
    fn new(created: InstanceHandles) -> (vulkan: Vulkan)
        ensures
            vulkan@ == VulkanView::created(created),
            vulkan@.well_formed(),
    {
        Vulkan {
            instance: Some(created.instance),
            debug_utils_messenger: created.debug_utils_messenger,
            surface: None,
            device: None,
            physical_device: None,
            graphics_queue: None,
            present_queue: None,
        }
    }

    /// Tears the context down. Returns what the host has to destroy, in
    /// the order in which it has to: the debug messenger and the device,
    /// then the surface, then the instance, each only if it exists.
    /// Afterwards the context holds nothing, so a second call returns
    /// nothing to destroy.
    fn destroy(&mut self) -> (steps: Vec<TeardownStep>)
        ensures
            steps@ == old(self)@.teardown_steps(),
            final(self)@ == VulkanView::empty(),
            final(self)@.well_formed(),
    {
        let mut steps: Vec<TeardownStep> = Vec::new();
        if let Some(messenger) = self.debug_utils_messenger {
            steps.push(TeardownStep::DebugMessenger(messenger));
        }
        if let Some(device) = self.device {
            steps.push(TeardownStep::Device(device));
        }
        if let Some(surface) = self.surface {
            steps.push(TeardownStep::Surface(surface));
        }
        if let Some(instance) = self.instance {
            steps.push(TeardownStep::Instance(instance));
        }
        *self = Vulkan {
            instance: None,
            debug_utils_messenger: None,
            surface: None,
            device: None,
            physical_device: None,
            graphics_queue: None,
            present_queue: None,
        };
        steps
    }
}

} // verus!
