//! The presentable surface's configuration and its resize rule.
use vstd::prelude::*;

verus! {

/// How many frames may be queued for presentation ahead of the display.
pub const DESIRED_MAX_FRAME_LATENCY: u32 = 2;

/// Width, height and pixel format that the surface is configured with, and
/// how many frames may be in flight. Width and height are never zero.
pub struct SurfaceConfig {
    width: u32,
    height: u32,
    format: wgpu::TextureFormat,
    max_frame_latency: u32,
}

impl SurfaceConfig {
    pub closed spec fn spec_width(&self) -> u32 {
        self.width
    }

    pub closed spec fn spec_height(&self) -> u32 {
        self.height
    }

    pub closed spec fn spec_format(&self) -> wgpu::TextureFormat {
        self.format
    }

    pub closed spec fn spec_max_frame_latency(&self) -> u32 {
        self.max_frame_latency
    }

    /// A configuration that may be applied: neither dimension is zero.
    pub open spec fn wf(&self) -> bool {
        self.spec_width() > 0 && self.spec_height() > 0
    }

    /// The configuration for a surface of the given size and format; `None`
    /// when the size has no area.
    pub fn new(format: wgpu::TextureFormat, width: u32, height: u32) -> (r: Option<SurfaceConfig>)
        ensures
            r.is_some() == (width > 0 && height > 0),
            r matches Some(c) ==> {
                &&& c.wf()
                &&& c.spec_width() == width
                &&& c.spec_height() == height
                &&& c.spec_format() == format
                &&& c.spec_max_frame_latency() == DESIRED_MAX_FRAME_LATENCY
            },
    {
        if width > 0 && height > 0 {
            Some(SurfaceConfig { width, height, format, max_frame_latency: DESIRED_MAX_FRAME_LATENCY })
        } else {
            None
        }
    }

    /// `after` is `before` resized to `width` by `height`, which was
    /// `applied` exactly when neither dimension is zero; otherwise nothing
    /// changed.
    pub open spec fn configured(before: Self, width: u32, height: u32, after: Self, applied: bool) -> bool {
        &&& applied == (width > 0 && height > 0)
        &&& applied ==> {
            &&& after.spec_width() == width
            &&& after.spec_height() == height
            &&& after.spec_format() == before.spec_format()
            &&& after.spec_max_frame_latency() == before.spec_max_frame_latency()
        }
        &&& !applied ==> after == before
    }

    /// Applies a new size. A size with a zero dimension (a minimised window)
    /// is ignored and the last valid configuration is kept. Returns whether
    /// the configuration changed and must be applied to the surface again.
    pub fn configure(&mut self, width: u32, height: u32) -> (applied: bool)
        ensures
            Self::configured(*old(self), width, height, *final(self), applied),
            old(self).wf() ==> final(self).wf(),
    {
        if width > 0 && height > 0 {
            self.width = width;
            self.height = height;
            true
        } else {
            false
        }
    }

    pub fn width(&self) -> (r: u32)
        ensures
            r == self.spec_width(),
    {
        self.width
    }

    pub fn height(&self) -> (r: u32)
        ensures
            r == self.spec_height(),
    {
        self.height
    }

    pub fn format(&self) -> (r: wgpu::TextureFormat)
        ensures
            r == self.spec_format(),
    {
        self.format
    }

    pub fn max_frame_latency(&self) -> (r: u32)
        ensures
            r == self.spec_max_frame_latency(),
    {
        self.max_frame_latency
    }
}

} // verus!
