use vstd::prelude::*;

use crate::device::DeviceHandle;
use crate::error::Error;
use crate::format::Format;

verus! {

/// The kinds of scan-out buffer this library can ask for.
#[derive(Clone, Copy, Debug, PartialEq, Eq, Structural)]
pub enum Type {
    /// A dumb buffer: device memory usable only as a scan-out surface.
    Dumb,
}

/// What the kernel reports for a fulfilled buffer allocation. Width,
/// height, pitch and size may all exceed the requested geometry — the
/// driver is free to round up for hardware alignment — and the reported
/// values are the ones that count from then on.
#[derive(Clone, Copy, Debug, PartialEq, Eq, Structural)]
pub struct AllocationInfo {
    /// The width actually allocated, in pixels.
    pub width: u32,
    /// The height actually allocated, in lines.
    pub height: u32,
    /// The pitch actually allocated, in bytes per line.
    pub pitch: u32,
    /// The size actually allocated, in bytes.
    pub size: u64,
    /// The driver-local handle of the allocation.
    pub handle: u32,
}

/// Whether a reported allocation is large enough for a request of
/// `width` × `height` at `bpp` bits per pixel, and internally consistent:
/// each line fits its pitch and all lines fit the size.
pub open spec fn spec_allocation_adequate(
    alloc: AllocationInfo,
    width: u32,
    height: u32,
    bpp: u32,
) -> bool {
    &&& alloc.width >= width
    &&& alloc.height >= height
    &&& alloc.pitch as int * 8 >= alloc.width as int * bpp as int
    &&& alloc.size as int >= alloc.pitch as int * alloc.height as int
}

/// A scan-out memory allocation.
///
/// The stored geometry is always the hardware-reported one, never the
/// requested one. A buffer must be registered as a [`Framebuffer`] before
/// a plane can scan it out.
#[derive(Clone, Copy, Debug, PartialEq, Eq, Structural)]
pub struct Buffer {
    /// Back-reference to the owning device.
    pub dev: DeviceHandle,
    /// The width actually allocated, in pixels.
    pub width: u32,
    /// The height actually allocated, in lines.
    pub height: u32,
    /// The pitch actually allocated, in bytes per line.
    pub pitch: u32,
    /// The size actually allocated, in bytes.
    pub size: u64,
    /// The driver-local handle of the allocation.
    pub handle: u32,
}

impl Buffer {
    /// Accepts a fulfilled allocation for a request of `width` × `height`
    /// at `bpp` bits per pixel.
    ///
    /// The reported geometry must be at least the requested one and
    /// internally consistent; a response that says otherwise cannot be a
    /// valid allocation and is rejected with [`Error::InvalidData`] rather
    /// than silently accepted short.
    pub(crate) fn new(
        dev: DeviceHandle,
        width: u32,
        height: u32,
        bpp: u32,
        alloc: AllocationInfo,
    ) -> (r: Result<Buffer, Error>)
        ensures
            match r {
                Ok(b) => {
                    &&& spec_allocation_adequate(alloc, width, height, bpp)
                    &&& b == (Buffer {
                        dev,
                        width: alloc.width,
                        height: alloc.height,
                        pitch: alloc.pitch,
                        size: alloc.size,
                        handle: alloc.handle,
                    })
                    &&& b.width >= width
                    &&& b.height >= height
                    &&& b.pitch as int * 8 >= width as int * bpp as int
                    &&& b.size as int * 8 >= width as int * height as int * bpp as int
                },
                Err(e) => e == Error::InvalidData && !spec_allocation_adequate(
                    alloc,
                    width,
                    height,
                    bpp,
                ),
            },
    {
        let ok_width = alloc.width >= width;
        let ok_height = alloc.height >= height;
        proof {
            assert(alloc.width as int * bpp as int <= 0xffff_ffff * 0xffff_ffff)
                by (nonlinear_arith)
                requires
                    alloc.width as int <= 0xffff_ffff,
                    bpp as int <= 0xffff_ffff,
                    0 <= alloc.width as int,
                    0 <= bpp as int,
            ;
            assert(alloc.pitch as int * alloc.height as int <= 0xffff_ffff * 0xffff_ffff)
                by (nonlinear_arith)
                requires
                    alloc.pitch as int <= 0xffff_ffff,
                    alloc.height as int <= 0xffff_ffff,
                    0 <= alloc.pitch as int,
                    0 <= alloc.height as int,
            ;
        }
        let ok_pitch = alloc.pitch as u128 * 8 >= alloc.width as u128 * bpp as u128;
        let ok_size = alloc.size as u128 >= alloc.pitch as u128 * alloc.height as u128;
        if ok_width && ok_height && ok_pitch && ok_size {
            proof {
                lemma_adequate_allocation_bounds(alloc, width, height, bpp);
            }
            Ok(Buffer {
                dev,
                width: alloc.width,
                height: alloc.height,
                pitch: alloc.pitch,
                size: alloc.size,
                handle: alloc.handle,
            })
        } else {
            Err(Error::InvalidData)
        }
    }

    /// Returns the height, in lines — the reported one, which can exceed
    /// the requested one.
    pub fn height(&self) -> (r: u32)
        ensures
            r == self.height,
    {
        self.height
    }

    /// Returns the width, in pixels — the reported one, which can exceed
    /// the requested one.
    pub fn width(&self) -> (r: u32)
        ensures
            r == self.width,
    {
        self.width
    }

    /// Returns the pitch, in bytes per line — the reported one, which can
    /// exceed the requested width times bytes per pixel.
    pub fn pitch(&self) -> (r: u32)
        ensures
            r == self.pitch,
    {
        self.pitch
    }

    /// Returns the size, in bytes — the reported one, which can exceed the
    /// product of the requested geometry and bytes per pixel.
    pub fn size(&self) -> (r: u64)
        ensures
            r == self.size,
    {
        self.size
    }

    /// Returns the driver-local handle of the allocation.
    pub fn handle(&self) -> (r: u32)
        ensures
            r == self.handle,
    {
        self.handle
    }

    /// Turns the buffer into a registered scan-out source, consuming it.
    /// `fb_id` is the scan-out ID the registration call returned for this
    /// buffer and `format` the pixel format it was registered under.
    ///
    /// The buffer lives on inside the framebuffer — composition, not
    /// duplication.
    pub fn into_framebuffer(self, format: Format, fb_id: u32) -> (r: Framebuffer)
        ensures
            r == (Framebuffer { dev: self.dev, buffer: self, id: fb_id, format }),
    {
        Framebuffer { dev: self.dev, buffer: self, id: fb_id, format }
    }
}

/// An allocation that covers its own reported geometry also covers the
/// requested one it was made for.
proof fn lemma_adequate_allocation_bounds(alloc: AllocationInfo, width: u32, height: u32, bpp: u32)
    requires
        spec_allocation_adequate(alloc, width, height, bpp),
    ensures
        alloc.pitch as int * 8 >= width as int * bpp as int,
        alloc.size as int * 8 >= width as int * height as int * bpp as int,
{
    let p = alloc.pitch as int;
    let w = alloc.width as int;
    let h = alloc.height as int;
    let s = alloc.size as int;
    let rw = width as int;
    let rh = height as int;
    let b = bpp as int;
    assert(p * 8 >= rw * b) by (nonlinear_arith)
        requires
            p * 8 >= w * b,
            w >= rw,
            0 <= b,
            0 <= rw,
    ;
    assert(s * 8 >= rw * rh * b) by (nonlinear_arith)
        requires
            s >= p * h,
            p * 8 >= w * b,
            w >= rw,
            h >= rh,
            0 <= b,
            0 <= rw,
            0 <= rh,
            0 <= p,
    ;
}

/// A registered scan-out image source: a [`Buffer`] plus the scan-out ID
/// and pixel format it was registered under.
///
/// A framebuffer cannot exist without its buffer; it owns it outright.
#[derive(Clone, Copy, Debug, PartialEq, Eq, Structural)]
pub struct Framebuffer {
    /// Back-reference to the owning device.
    pub dev: DeviceHandle,
    /// The buffer providing the pixels.
    pub buffer: Buffer,
    /// The registered scan-out ID.
    pub id: u32,
    /// The pixel format the buffer was registered under.
    pub format: Format,
}

impl Framebuffer {
    /// Returns the registered scan-out ID.
    pub fn id(&self) -> (r: u32)
        ensures
            r == self.id,
    {
        self.id
    }

    /// Returns the pixel format the buffer was registered under.
    pub fn format(&self) -> (r: Format)
        ensures
            r == self.format,
    {
        self.format
    }

    /// Returns the wrapped buffer.
    pub fn buffer(&self) -> (r: &Buffer)
        ensures
            r == &self.buffer,
    {
        &self.buffer
    }

    /// Returns the wrapped buffer's width, in pixels.
    pub fn width(&self) -> (r: u32)
        ensures
            r == self.buffer.width,
    {
        self.buffer.width
    }

    /// Returns the wrapped buffer's height, in lines.
    pub fn height(&self) -> (r: u32)
        ensures
            r == self.buffer.height,
    {
        self.buffer.height
    }

    /// Returns the wrapped buffer's pitch, in bytes per line.
    pub fn pitch(&self) -> (r: u32)
        ensures
            r == self.buffer.pitch,
    {
        self.buffer.pitch
    }

    /// Returns the wrapped buffer's size, in bytes.
    pub fn size(&self) -> (r: u64)
        ensures
            r == self.buffer.size,
    {
        self.buffer.size
    }
}

} // verus!
