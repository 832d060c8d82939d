//! The device session: what is asked of the platform at startup, and the
//! swapchain that follows the surface through every resize.

use vstd::prelude::*;

use crate::error::RenderError;
use crate::format::{TextureFormat, TextureUsage};

verus! {

/// Width and height of a surface, in physical pixels.
#[derive(Clone, Copy, Debug, PartialEq, Eq, Structural)]
pub struct SurfaceSize {
    pub width: u32,
    pub height: u32,
}

impl SurfaceSize {
    /// A size that covers no pixel at all.
    pub open spec fn degenerate(self) -> bool {
        self.width == 0 || self.height == 0
    }

    /// The size with each zero dimension raised to one.
    pub open spec fn clamped(self) -> SurfaceSize {
        SurfaceSize {
            width: if self.width == 0 { 1u32 } else { self.width },
            height: if self.height == 0 { 1u32 } else { self.height },
        }
    }

    /// Accepts a size that has an area and rejects one that has none.
    pub fn validate(self) -> (r: Result<SurfaceSize, RenderError>)
        ensures
            r == if self.degenerate() {
                Err::<SurfaceSize, RenderError>(RenderError::ResizeRejected)
            } else {
                Ok(self)
            },
    {
        if self.width == 0 || self.height == 0 {
            Err(RenderError::ResizeRejected)
        } else {
            Ok(self)
        }
    }

    /// The nearest size a swapchain can be created with.
    pub fn clamp(self) -> (r: SurfaceSize)
        ensures
            r == self.clamped(),
            !r.degenerate(),
    {
        match self.validate() {
            Ok(size) => size,
            Err(_) => SurfaceSize {
                width: if self.width == 0 { 1 } else { self.width },
                height: if self.height == 0 { 1 } else { self.height },
            },
        }
    }
}

/// When a rendered image becomes visible.
#[derive(Clone, Copy, Debug, PartialEq, Eq, Structural)]
pub enum PresentMode {
    Immediate,
    Mailbox,
    Fifo,
}

/// Which adapter to prefer when several can serve the surface.
#[derive(Clone, Copy, Debug, PartialEq, Eq, Structural)]
pub enum PowerPreference {
    Default,
    LowPower,
    HighPerformance,
}

/// The families of graphics backends an adapter may come from.
#[derive(Clone, Copy, Debug, PartialEq, Eq, Structural)]
pub enum Backends {
    /// Vulkan, Metal, DirectX 12 and the browser's own.
    Primary,
    /// OpenGL and DirectX 11.
    Secondary,
}

/// What is asked of the platform when looking for an adapter.
#[derive(Clone, Copy, Debug, PartialEq, Eq, Structural)]
pub struct AdapterRequest {
    pub power_preference: PowerPreference,
    /// The adapter must be able to present to the session's surface.
    pub compatible_with_surface: bool,
    pub backends: Backends,
}

/// What is asked of the adapter when opening the logical device.
#[derive(Clone, Copy, Debug, PartialEq, Eq, Structural)]
pub struct DeviceRequest {
    pub anisotropic_filtering: bool,
    pub max_bind_groups: u32,
}

/// The number of bind groups a device offers unless more are asked for.
pub const DEFAULT_MAX_BIND_GROUPS: u32 = 4;

/// The set of presentable images, as the device is asked to create it.
#[derive(Clone, Copy, Debug, PartialEq, Eq, Structural)]
pub struct SwapChainDescriptor {
    pub usage: TextureUsage,
    pub format: TextureFormat,
    pub width: u32,
    pub height: u32,
    pub present_mode: PresentMode,
}

/// The swapchain this session presents through, for a surface of the given
/// size: 8-bit BGRA in the sRGB curve, locked to the display's refresh.
pub open spec fn presentation_descriptor(size: SurfaceSize) -> SwapChainDescriptor {
    SwapChainDescriptor {
        usage: TextureUsage::presented(),
        format: TextureFormat::Bgra8UnormSrgb,
        width: size.width,
        height: size.height,
        present_mode: PresentMode::Fifo,
    }
}

/// How the platform answered the startup requests.
#[derive(Clone, Copy, Debug, PartialEq, Eq, Structural)]
pub enum Negotiation {
    /// The window handle gave no surface.
    SurfaceInvalid,
    /// A surface exists, but no adapter can present to it.
    NoAdapter,
    /// Surface, adapter, device and queue are all at hand.
    Ready,
}

/// What the caller must do to the device after a resize.
#[derive(Clone, Copy, Debug, PartialEq, Eq, Structural)]
pub enum ResizeAction {
    /// Nothing: the swapchain in use already has the right size.
    Keep,
    /// Create a swapchain from this descriptor and drop the one in use.
    Recreate(SwapChainDescriptor),
}

/// The mathematical content of a [`Session`].
pub struct SessionView {
    /// The last surface size observed, never degenerate.
    pub size: SurfaceSize,
    /// The descriptor the swapchain in use was created from.
    pub descriptor: SwapChainDescriptor,
    /// Which swapchain is in use: a number that changes with every recreation.
    pub swap_chain: u64,
}

/// The number of the swapchain that replaces swapchain `id`.
pub open spec fn next_swap_chain(id: u64) -> u64 {
    if id == u64::MAX {
        0
    } else {
        (id + 1) as u64
    }
}

/// A session is consistent when its swapchain has exactly the size of the
/// surface and that size has an area.
pub open spec fn consistent(s: SessionView) -> bool {
    &&& !s.size.degenerate()
    &&& s.descriptor == presentation_descriptor(s.size)
}

/// The session after the surface is seen to have size `new_size`.
pub open spec fn resized(s: SessionView, new_size: SurfaceSize) -> SessionView {
    let size = new_size.clamped();
    if size == s.size {
        s
    } else {
        SessionView {
            size,
            descriptor: SwapChainDescriptor {
                width: size.width,
                height: size.height,
                ..s.descriptor
            },
            swap_chain: next_swap_chain(s.swap_chain),
        }
    }
}

/// The session after its swapchain was replaced by a new one of the same
/// size.
pub open spec fn recreated(s: SessionView) -> SessionView {
    SessionView { swap_chain: next_swap_chain(s.swap_chain), ..s }
}

/// The device work a resize to `new_size` calls for.
pub open spec fn resize_action(s: SessionView, new_size: SurfaceSize) -> ResizeAction {
    if new_size.clamped() == s.size {
        ResizeAction::Keep
    } else {
        ResizeAction::Recreate(resized(s, new_size).descriptor)
    }
}

/// The session that startup yields for each answer of the platform.
pub open spec fn initialized(negotiation: Negotiation, requested: SurfaceSize) -> Result<
    SessionView,
    RenderError,
> {
    match negotiation {
        Negotiation::SurfaceInvalid => Err(RenderError::SurfaceCreationFailed),
        Negotiation::NoAdapter => Err(RenderError::DeviceUnavailable),
        Negotiation::Ready => Ok(
            SessionView {
                size: requested.clamped(),
                descriptor: presentation_descriptor(requested.clamped()),
                swap_chain: 0,
            },
        ),
    }
}

/// The swapchain state of a running session.
#[derive(Clone, Copy, Debug, PartialEq, Eq)]
pub struct Session {
    size: SurfaceSize,
    descriptor: SwapChainDescriptor,
    swap_chain: u64,
}

impl View for Session {
    type V = SessionView;

    closed spec fn view(&self) -> SessionView {
        SessionView { size: self.size, descriptor: self.descriptor, swap_chain: self.swap_chain }
    }
}

impl Session {
    #[verifier::type_invariant]
    closed spec fn well_formed(&self) -> bool {
        consistent(self@)
    }

    /// The adapter this session wants: the platform's default choice among
    /// the primary backends, able to present to the surface.
    pub fn adapter_request() -> (r: AdapterRequest)
        ensures
            r == (AdapterRequest {
                power_preference: PowerPreference::Default,
                compatible_with_surface: true,
                backends: Backends::Primary,
            }),
    {
        AdapterRequest {
            power_preference: PowerPreference::Default,
            compatible_with_surface: true,
            backends: Backends::Primary,
        }
    }

    /// The logical device this session wants: no optional hardware feature,
    /// default limits.
    pub fn device_request() -> (r: DeviceRequest)
        ensures
            r == (DeviceRequest { anisotropic_filtering: false, max_bind_groups: 4 }),
    {
        DeviceRequest { anisotropic_filtering: false, max_bind_groups: DEFAULT_MAX_BIND_GROUPS }
    }

    /// Starts a session from the platform's answer and the size asked for.
    ///
    /// Fails with `SurfaceCreationFailed` when there is no surface and with
    /// `DeviceUnavailable` when no adapter serves it.  Otherwise the session
    /// holds swapchain number zero, sized to `requested`; a zero dimension is
    /// raised to one, as [`Session::resize`] does.
    pub fn initialize(negotiation: Negotiation, requested: SurfaceSize) -> (r: Result<
        Session,
        RenderError,
    >)
        ensures
            match r {
                Ok(session) => initialized(negotiation, requested) == Ok::<
                    SessionView,
                    RenderError,
                >(session@),
                Err(e) => initialized(negotiation, requested) == Err::<SessionView, RenderError>(e),
            },
            r matches Ok(session) ==> consistent(session@),
    {
        match negotiation {
            Negotiation::SurfaceInvalid => Err(RenderError::SurfaceCreationFailed),
            Negotiation::NoAdapter => Err(RenderError::DeviceUnavailable),
            Negotiation::Ready => {
                let size = requested.clamp();
                Ok(
                    Session {
                        size,
                        descriptor: SwapChainDescriptor {
                            usage: TextureUsage {
                                copy_src: false,
                                copy_dst: false,
                                sampled: false,
                                storage: false,
                                output_attachment: true,
                            },
                            format: TextureFormat::Bgra8UnormSrgb,
                            width: size.width,
                            height: size.height,
                            present_mode: PresentMode::Fifo,
                        },
                        swap_chain: 0,
                    },
                )
            },
        }
    }

    /// Follows the surface to `new_size`.
    ///
    /// When the size, with zero dimensions raised to one, is the one the
    /// session already has, nothing changes and no device work is asked for.
    /// Otherwise the descriptor takes the new size, the swapchain in use is
    /// replaced by the next one, and the caller is told to create it.
    pub fn resize(&mut self, new_size: SurfaceSize) -> (action: ResizeAction)
        ensures
            final(self)@ == resized(old(self)@, new_size),
            action == resize_action(old(self)@, new_size),
            consistent(final(self)@),
    {
        proof {
            use_type_invariant(&*self);
        }
        let size = new_size.clamp();
        if size.width == self.size.width && size.height == self.size.height {
            ResizeAction::Keep
        } else {
            let descriptor = SwapChainDescriptor {
                usage: self.descriptor.usage,
                format: self.descriptor.format,
                width: size.width,
                height: size.height,
                present_mode: self.descriptor.present_mode,
            };
            let swap_chain = if self.swap_chain == u64::MAX {
                0
            } else {
                self.swap_chain + 1
            };
            *self = Session { size, descriptor, swap_chain };
            ResizeAction::Recreate(descriptor)
        }
    }

    /// Replaces the swapchain by a new one of the same size, as the recovery
    /// from a lost surface or a timeout asks.  The caller creates the
    /// swapchain from the descriptor returned.
    pub fn recreate_swap_chain(&mut self) -> (descriptor: SwapChainDescriptor)
        ensures
            final(self)@ == recreated(old(self)@),
            descriptor == old(self)@.descriptor,
            consistent(final(self)@),
    {
        proof {
            use_type_invariant(&*self);
        }
        let swap_chain = if self.swap_chain == u64::MAX {
            0
        } else {
            self.swap_chain + 1
        };
        *self = Session { size: self.size, descriptor: self.descriptor, swap_chain };
        self.descriptor
    }

    /// The last surface size observed.
    pub fn size(&self) -> (r: SurfaceSize)
        ensures
            r == self@.size,
            !r.degenerate(),
    {
        proof {
            use_type_invariant(self);
        }
        self.size
    }

    /// The descriptor of the swapchain in use.
    pub fn descriptor(&self) -> (r: SwapChainDescriptor)
        ensures
            r == self@.descriptor,
            r == presentation_descriptor(self@.size),
    {
        proof {
            use_type_invariant(self);
        }
        self.descriptor
    }

    /// The number of the swapchain in use.
    pub fn swap_chain(&self) -> (r: u64)
        ensures
            r == self@.swap_chain,
    {
        self.swap_chain
    }
}

/// A resize to the size the session already has changes nothing and asks for
/// no device work: the swapchain in use stays the one it was.
pub proof fn lemma_resize_same_size_is_noop(s: SessionView)
    requires
        consistent(s),
    ensures
        resized(s, s.size) == s,
        resize_action(s, s.size) == ResizeAction::Keep,
{
}

/// A resize to a size with an area leaves the session with a swapchain of
/// exactly that size, whatever it had before.
pub proof fn lemma_resize_reaches_size(s: SessionView, new_size: SurfaceSize)
    requires
        consistent(s),
        !new_size.degenerate(),
    ensures
        resized(s, new_size).size == new_size,
        resized(s, new_size).descriptor.width == new_size.width,
        resized(s, new_size).descriptor.height == new_size.height,
        consistent(resized(s, new_size)),
{
}

/// A resize that changes the size always changes the swapchain in use.
pub proof fn lemma_resize_replaces_swap_chain(s: SessionView, new_size: SurfaceSize)
    requires
        consistent(s),
        new_size.clamped() != s.size,
    ensures
        resized(s, new_size).swap_chain != s.swap_chain,
        resize_action(s, new_size) == ResizeAction::Recreate(
            presentation_descriptor(new_size.clamped()),
        ),
{
}

/// A resize to no area at all is answered with the smallest swapchain
/// instead of an error.
pub proof fn lemma_resize_clamps_zero_area(s: SessionView)
    requires
        consistent(s),
    ensures
        resized(s, SurfaceSize { width: 0, height: 0 }).size == (SurfaceSize {
            width: 1,
            height: 1,
        }),
        consistent(resized(s, SurfaceSize { width: 0, height: 0 })),
{
}

} // verus!
