use vstd::prelude::*;

use crate::error::ViewerError;
use crate::pixels::MAX_TEXTURE_DIM;
use crate::pixels::PixelBuffer;

verus! {

/// What the viewer tracks of the texture currently displayed: its
/// dimensions, and a serial number that tells one installed texture from the
/// next. Every page refresh installs a fresh texture under a fresh serial
/// number; the binding set records the serial number of the texture it was
/// built against, which is how the state machine shows that the binding
/// never outlives its texture.
#[derive(Clone, Copy, Debug, PartialEq, Eq, Structural)]
pub struct TextureMeta {
    pub width: u32,
    pub height: u32,
    pub generation: u64,
}

impl TextureMeta {
    /// The dimensions can back a real GPU texture.
    pub open spec fn wf(self) -> bool {
        &&& 1 <= self.width <= MAX_TEXTURE_DIM
        &&& 1 <= self.height <= MAX_TEXTURE_DIM
    }
}

/// The interim fill color drawn behind the page, a cosmetic function of the
/// pointer position. Components are exact rationals `num / denom`; the
/// invariant keeps every component in `[0, 1]`. The window layer divides
/// the fields out to floating point when it clears the frame.
#[derive(Clone, Copy, Debug, PartialEq, Eq, Structural)]
pub struct ViewportColor {
    pub red_num: u32,
    pub green_num: u32,
    pub blue_num: u32,
    pub alpha_num: u32,
    pub denom: u32,
}

impl ViewportColor {
    /// Every component lies in `[0, 1]`.
    pub open spec fn wf(self) -> bool {
        &&& 1 <= self.denom
        &&& self.red_num <= self.denom
        &&& self.green_num <= self.denom
        &&& self.blue_num <= self.denom
        &&& self.alpha_num <= self.denom
    }

    /// Fully transparent black: what is shown before the pointer has moved.
    pub open spec fn initial_spec() -> ViewportColor {
        ViewportColor { red_num: 0, green_num: 0, blue_num: 0, alpha_num: 0, denom: 1 }
    }
}

/// The color the pointer position paints: red from the horizontal and green
/// from the vertical position, both normalized by the viewport width and
/// clamped into `[0, 1]`; blue and alpha full.
pub open spec fn pointer_color_spec(viewport_width: u32, x: u32, y: u32) -> ViewportColor {
    let den = if viewport_width >= 1 { viewport_width } else { 1u32 };
    ViewportColor {
        red_num: if x <= den { x } else { den },
        green_num: if y <= den { y } else { den },
        blue_num: den,
        alpha_num: den,
        denom: den,
    }
}

/// `current + delta` clamped into the valid page range `[0, count - 1]`.
pub open spec fn clamped_index(current: int, delta: int, count: int) -> int {
    let target = current + delta;
    if target < 0 {
        0
    } else if target > count - 1 {
        count - 1
    } else {
        target
    }
}

/// The viewer's page-texture state machine.
///
/// It owns the page position and what is known of the displayed texture;
/// the document source and the GPU are collaborators whose outcomes are
/// handed in as plain values. The well-formedness invariant pins the two
/// properties the viewer lives by: the current index is always a valid
/// page, and the binding set on record was built against the texture on
/// record.
#[derive(Clone, Copy, Debug, PartialEq, Eq, Structural)]
pub struct ViewerState {
    /// Number of pages of the opened document; at least one.
    pub page_count: u32,
    /// The page currently displayed; always below `page_count`.
    pub current_index: u32,
    /// Supersampling factor applied before rasterization, as a whole number.
    pub scale: u32,
    /// Last reported size of the window surface.
    pub viewport_width: u32,
    pub viewport_height: u32,
    /// Fill color shown behind the page.
    pub color: ViewportColor,
    /// The texture currently displayed.
    pub texture: TextureMeta,
    /// Serial number of the texture the current binding set was built
    /// against; the invariant keeps it equal to `texture.generation`.
    pub binding_generation: u64,
}

impl ViewerState {
    /// The state invariant: a valid current page, a displayable texture,
    /// a binding built against that texture, and a color in range.
    pub open spec fn wf(self) -> bool {
        &&& 1 <= self.page_count
        &&& self.current_index < self.page_count
        &&& 1 <= self.scale
        &&& self.texture.wf()
        &&& self.binding_generation == self.texture.generation
        &&& self.color.wf()
    }

    /// The state right after opening: page zero, the texture built from the
    /// first rasterized page under serial number zero, and the binding built
    /// against it.
    pub open spec fn initial_spec(
        page_count: u32,
        scale: u32,
        viewport_width: u32,
        viewport_height: u32,
        texture_width: u32,
        texture_height: u32,
    ) -> ViewerState {
        ViewerState {
            page_count,
            current_index: 0,
            scale,
            viewport_width,
            viewport_height,
            color: ViewportColor::initial_spec(),
            texture: TextureMeta { width: texture_width, height: texture_height, generation: 0 },
            binding_generation: 0,
        }
    }

    /// Where navigating by `delta` goes: the clamped target page, or nothing
    /// when clamping lands back on the current page and the navigation is a
    /// no-op.
    pub open spec fn nav_target(self, delta: int) -> Option<u32> {
        let target = clamped_index(self.current_index as int, delta, self.page_count as int);
        if target == self.current_index as int {
            None
        } else {
            Some(target as u32)
        }
    }

    /// The state after a successful refresh of page `index` from a buffer
    /// with the given dimensions: the index moves, a fresh texture serial is
    /// taken, and the binding follows the texture; nothing else changes.
    pub open spec fn refreshed(self, index: u32, width: u32, height: u32) -> ViewerState {
        ViewerState {
            current_index: index,
            texture: TextureMeta {
                width,
                height,
                generation: (self.texture.generation + 1) as u64,
            },
            binding_generation: (self.texture.generation + 1) as u64,
            ..self
        }
    }

    /// Opens the viewer on a document: the caller reports the document's
    /// page count and the outcome of rasterizing page zero (`None` when the
    /// page could not be decoded). Fails exactly when that first page does
    /// not exist, could not be decoded, or is mis-sized; on success the
    /// state starts at page zero with the first texture installed.
    pub fn open(
        page_count: u32,
        scale: u32,
        viewport_width: u32,
        viewport_height: u32,
        raster0: Option<PixelBuffer>,
    ) -> (r: Result<ViewerState, ViewerError>)
        requires
            1 <= scale,
        ensures
            page_count == 0 ==> r == Err::<ViewerState, ViewerError>(ViewerError::PageDecode),
            raster0 is None ==> r == Err::<ViewerState, ViewerError>(ViewerError::PageDecode),
            raster0 matches Some(b) ==> {
                &&& page_count >= 1 && !b.well_sized() ==> r == Err::<ViewerState, ViewerError>(
                    ViewerError::InvalidBufferSize,
                )
                &&& page_count >= 1 && b.well_sized() ==> (r matches Ok(s) && s
                    == ViewerState::initial_spec(
                    page_count,
                    scale,
                    viewport_width,
                    viewport_height,
                    b.width,
                    b.height,
                ) && s.wf())
            },
    {
        if page_count < 1 {
            // A document without pages has no page zero to rasterize.
            return Err(ViewerError::PageDecode);
        }
        match raster0 {
            None => Err(ViewerError::PageDecode),
            Some(buffer) => {
                if !buffer.check_size() {
                    return Err(ViewerError::InvalidBufferSize);
                }
                Ok(
                    ViewerState {
                        page_count,
                        current_index: 0,
                        scale,
                        viewport_width,
                        viewport_height,
                        color: ViewportColor {
                            red_num: 0,
                            green_num: 0,
                            blue_num: 0,
                            alpha_num: 0,
                            denom: 1,
                        },
                        texture: TextureMeta {
                            width: buffer.width,
                            height: buffer.height,
                            generation: 0,
                        },
                        binding_generation: 0,
                    },
                )
            },
        }
    }

    /// Computes the page a navigation by `delta` should load, clamped to the
    /// valid range. Returns `None` when the navigation is a no-op (already
    /// at the boundary), in which case no refresh is to be triggered.
    pub fn go_to_page(&self, delta: i32) -> (target: Option<u32>)
        requires
            self.wf(),
        ensures
            target == self.nav_target(delta as int),
            target matches Some(p) ==> p < self.page_count && p != self.current_index,
    {
        let current: i64 = self.current_index as i64;
        let limit: i64 = (self.page_count as i64) - 1;
        let mut target: i64 = current + (delta as i64);
        if target < 0 {
            target = 0;
        }
        if target > limit {
            target = limit;
        }
        if target == current {
            None
        } else {
            Some(target as u32)
        }
    }

    /// Navigation one page forward; a no-op at the last page.
    pub fn next_page(&self) -> (target: Option<u32>)
        requires
            self.wf(),
        ensures
            target == self.nav_target(1),
    {
        self.go_to_page(1)
    }

    /// Navigation one page back; a no-op at the first page.
    pub fn previous_page(&self) -> (target: Option<u32>)
        requires
            self.wf(),
        ensures
            target == self.nav_target(-1),
    {
        self.go_to_page(-1)
    }

    /// Installs the outcome of a successful page load: called only once the
    /// new texture and binding exist, so the state never reflects a
    /// half-built refresh.
    pub(crate) fn commit_refresh(&mut self, index: u32, width: u32, height: u32)
        requires
            old(self).wf(),
            index < old(self).page_count,
            old(self).texture.generation < u64::MAX,
            1 <= width <= MAX_TEXTURE_DIM,
            1 <= height <= MAX_TEXTURE_DIM,
        ensures
            *final(self) == old(self).refreshed(index, width, height),
            final(self).wf(),
    {
        let new_generation: u64 = self.texture.generation + 1;
        self.current_index = index;
        self.texture = TextureMeta { width, height, generation: new_generation };
        self.binding_generation = new_generation;
    }

    /// Judges a page-refresh attempt for page `index`: `raster` is what the
    /// page source returned (`None` when it failed to decode the page).
    ///
    /// On success the state is exactly `refreshed`; on any fault the state
    /// is left untouched, byte for byte — the previous page stays displayed
    /// and the previous binding stays valid.
    pub fn refresh_page_texture(&mut self, index: u32, raster: Option<PixelBuffer>) -> (r: Result<
        (),
        ViewerError,
    >)
        requires
            old(self).wf(),
            index < old(self).page_count,
            old(self).texture.generation < u64::MAX,
        ensures
            final(self).wf(),
            raster is None ==> r == Err::<(), ViewerError>(ViewerError::PageDecode) && *final(self)
                == *old(self),
            raster matches Some(b) ==> {
                &&& !b.well_sized() ==> r == Err::<(), ViewerError>(ViewerError::InvalidBufferSize)
                    && *final(self) == *old(self)
                &&& b.well_sized() ==> r is Ok && *final(self) == old(self).refreshed(
                    index,
                    b.width,
                    b.height,
                )
            },
    {
        match raster {
            None => Err(ViewerError::PageDecode),
            Some(buffer) => {
                if !buffer.check_size() {
                    return Err(ViewerError::InvalidBufferSize);
                }
                let width: u32 = buffer.width;
                let height: u32 = buffer.height;
                self.commit_refresh(index, width, height);
                Ok(())
            },
        }
    }

    /// Records a new surface size. The texture and binding are untouched:
    /// the page is drawn scaled to the viewport by the full-screen quad, so
    /// a resize does not re-rasterize. Reconfiguring the swapchain itself is
    /// the window layer's business.
    pub fn set_viewport_size(&mut self, width: u32, height: u32)
        requires
            old(self).wf(),
        ensures
            *final(self) == (ViewerState {
                viewport_width: width,
                viewport_height: height,
                ..*old(self)
            }),
            final(self).wf(),
    {
        self.viewport_width = width;
        self.viewport_height = height;
    }

    /// Recomputes the fill color from the pointer position. Purely
    /// cosmetic: no resource is touched.
    pub fn handle_pointer_move(&mut self, x: u32, y: u32)
        requires
            old(self).wf(),
        ensures
            *final(self) == (ViewerState {
                color: pointer_color_spec(old(self).viewport_width, x, y),
                ..*old(self)
            }),
            final(self).wf(),
    {
        let den: u32 = if self.viewport_width >= 1 {
            self.viewport_width
        } else {
            1
        };
        let red: u32 = if x <= den {
            x
        } else {
            den
        };
        let green: u32 = if y <= den {
            y
        } else {
            den
        };
        self.color = ViewportColor {
            red_num: red,
            green_num: green,
            blue_num: den,
            alpha_num: den,
            denom: den,
        };
    }
}

/// A navigation target is always a valid page and never the current one: a
/// triggered refresh always loads a genuinely different, in-range page.
pub proof fn lemma_nav_target_valid(s: ViewerState, delta: int)
    requires
        s.wf(),
    ensures
        s.nav_target(delta) matches Some(p) ==> p < s.page_count && p != s.current_index,
{
}

/// Navigating to a page and refreshing with the buffer the page source
/// returned for it leaves the viewer exactly there: the current index is the
/// target page, the installed texture has the buffer's dimensions, and the
/// binding on record was built against that texture.
pub proof fn lemma_navigate_then_refresh(s: ViewerState, delta: int, p: u32, b: PixelBuffer)
    requires
        s.wf(),
        s.texture.generation < u64::MAX,
        b.well_sized(),
        s.nav_target(delta) == Some(p),
    ensures
        s.refreshed(p, b.width, b.height).wf(),
        s.refreshed(p, b.width, b.height).current_index == p,
        s.refreshed(p, b.width, b.height).texture.width == b.width,
        s.refreshed(p, b.width, b.height).texture.height == b.height,
        s.refreshed(p, b.width, b.height).binding_generation == s.refreshed(
            p,
            b.width,
            b.height,
        ).texture.generation,
{
}

/// Navigating forward at the last page is a no-op: no refresh target, so
/// the index and the displayed texture stay as they are.
pub proof fn lemma_next_at_last_is_noop(s: ViewerState)
    requires
        s.wf(),
        s.current_index == s.page_count - 1,
    ensures
        s.nav_target(1) is None,
{
}

/// Navigating back at the first page is a no-op, symmetric to the forward
/// boundary.
pub proof fn lemma_previous_at_first_is_noop(s: ViewerState)
    requires
        s.wf(),
        s.current_index == 0,
    ensures
        s.nav_target(-1) is None,
{
}

/// A one-page document cannot navigate anywhere: both directions are
/// no-ops, so the texture installed at open is the one still displayed.
pub proof fn lemma_single_page_round_trip(s: ViewerState)
    requires
        s.wf(),
        s.page_count == 1,
    ensures
        s.nav_target(1) is None,
        s.nav_target(-1) is None,
{
}

} // verus!
