//! Decisions of the overlay window manager: which visual the overlay uses,
//! where it sits, which shape and stacking requests it sends. Sending them
//! over a display connection is left to the caller.
use vstd::prelude::*;

verus! {

/// Depth of an alpha-capable visual.
pub const ALPHA_DEPTH: u8 = 32;

/// Free space kept around the overlay on each axis, split evenly on both sides.
pub const WINDOW_MARGIN: u16 = 200;

/// Event mask subscribing the overlay to every core event category.
pub const ALL_EVENTS_MASK: u32 = 0x1FF_FFFF;

/// `SubstructureNotify` bit of an event mask.
pub const SUBSTRUCTURE_NOTIFY: u32 = 0x8_0000;

/// `SubstructureRedirect` bit of an event mask.
pub const SUBSTRUCTURE_REDIRECT: u32 = 0x10_0000;

/// Mask under which the always-on-top request is sent to the root window.
pub const ROOT_EVENT_MASK: u32 = SUBSTRUCTURE_NOTIFY | SUBSTRUCTURE_REDIRECT;

/// Action code "add" of a `_NET_WM_STATE` client message.
pub const NET_WM_STATE_ADD: u32 = 1;

/// Atom naming the window-manager state property.
pub const NET_WM_STATE: &'static str = "_NET_WM_STATE";

/// Atom naming the "keep above" window-manager state.
pub const NET_WM_STATE_ABOVE: &'static str = "_NET_WM_STATE_ABOVE";

/// One pixel depth that a screen supports, with the visuals offered at it.
#[derive(Clone, Debug)]
pub struct VisualDepth {
    pub depth: u8,
    pub visual_ids: Vec<u32>,
}

/// Why no alpha-capable visual could be chosen.
#[derive(Clone, Copy, Debug, PartialEq, Eq, Structural)]
pub enum VisualError {
    /// The screen offers no depth of `ALPHA_DEPTH` bits.
    NoAlphaDepth,
    /// Every alpha-capable depth lists no visual.
    NoAlphaVisual,
}

/// `d` has the alpha depth and lists at least one visual.
pub open spec fn offers_alpha_visual(d: VisualDepth) -> bool {
    d.depth == ALPHA_DEPTH && d.visual_ids@.len() > 0
}

/// `i` is the first entry of `ds` that offers an alpha-capable visual.
pub open spec fn is_first_alpha(ds: Seq<VisualDepth>, i: int) -> bool {
    &&& 0 <= i < ds.len()
    &&& offers_alpha_visual(ds[i])
    &&& forall|j: int| 0 <= j < i ==> !offers_alpha_visual(#[trigger] ds[j])
}

/// Some entry of `ds` has the alpha depth, with or without visuals.
pub open spec fn has_alpha_depth(ds: Seq<VisualDepth>) -> bool {
    exists|i: int| 0 <= i < ds.len() && ds[i].depth == ALPHA_DEPTH
}

/// The visual an overlay uses: the first visual of the first alpha-capable
/// depth that lists one.
pub open spec fn alpha_visual(ds: Seq<VisualDepth>) -> Result<u32, VisualError> {
    if exists|i: int| is_first_alpha(ds, i) {
        let i = choose|i: int| is_first_alpha(ds, i);
        Ok(ds[i].visual_ids@[0])
    } else if has_alpha_depth(ds) {
        Err(VisualError::NoAlphaVisual)
    } else {
        Err(VisualError::NoAlphaDepth)
    }
}

proof fn lemma_first_alpha_unique(ds: Seq<VisualDepth>, i: int, k: int)
    requires
        is_first_alpha(ds, i),
        is_first_alpha(ds, k),
    ensures
        i == k,
{
    if i < k {
        assert(!offers_alpha_visual(ds[i]));
    } else if k < i {
        assert(!offers_alpha_visual(ds[k]));
    }
}

/// Picks the visual of the overlay window from the depths a screen advertises.
pub fn select_alpha_visual(depths: &Vec<VisualDepth>) -> (r: Result<u32, VisualError>)
    ensures
        r == alpha_visual(depths@),
{
    let mut seen_alpha_depth = false;
    let mut k: usize = 0;
    while k < depths.len()
        invariant
            k <= depths@.len(),
            forall|j: int| 0 <= j < k ==> !offers_alpha_visual(#[trigger] depths@[j]),
            seen_alpha_depth <==> exists|j: int| 0 <= j < k && depths@[j].depth == ALPHA_DEPTH,
        decreases depths@.len() - k,
    {
        if depths[k].depth == ALPHA_DEPTH {
            if depths[k].visual_ids.len() > 0 {
                let ghost ds = depths@;
                assert(is_first_alpha(ds, k as int));
                proof {
                    let i = choose|i: int| is_first_alpha(ds, i);
                    lemma_first_alpha_unique(ds, i, k as int);
                }
                return Ok(depths[k].visual_ids[0]);
            }
            seen_alpha_depth = true;
        }
        k = k + 1;
    }
    assert(!exists|i: int| is_first_alpha(depths@, i));
    if seen_alpha_depth {
        Err(VisualError::NoAlphaVisual)
    } else {
        Err(VisualError::NoAlphaDepth)
    }
}

/// Position and size of a window, in pixels.
#[derive(Clone, Copy, Debug, PartialEq, Eq, Structural)]
pub struct WindowGeometry {
    pub x: i16,
    pub y: i16,
    pub width: u16,
    pub height: u16,
}

/// Places the overlay on a screen of the given size: `WINDOW_MARGIN` smaller on
/// each axis and centred. `None` where the screen leaves no area after the margin.
pub fn overlay_geometry(screen_width: u16, screen_height: u16) -> (r: Option<WindowGeometry>)
    ensures
        r is Some <==> (screen_width > WINDOW_MARGIN && screen_height > WINDOW_MARGIN),
        r matches Some(g) ==> {
            &&& g.x == WINDOW_MARGIN / 2
            &&& g.y == WINDOW_MARGIN / 2
            &&& g.width == screen_width - WINDOW_MARGIN
            &&& g.height == screen_height - WINDOW_MARGIN
        },
{
    if screen_width > WINDOW_MARGIN && screen_height > WINDOW_MARGIN {
        let half = (WINDOW_MARGIN / 2) as i16;
        Some(
            WindowGeometry {
                x: half,
                y: half,
                width: screen_width - WINDOW_MARGIN,
                height: screen_height - WINDOW_MARGIN,
            },
        )
    } else {
        None
    }
}

/// Parameters of the request that creates the overlay window.
#[derive(Clone, Copy, Debug, PartialEq, Eq, Structural)]
pub struct OverlayWindowPlan {
    pub parent: u32,
    pub depth: u8,
    pub visual: u32,
    pub geometry: WindowGeometry,
    pub border_width: u16,
    pub background_pixel: u32,
    pub border_pixel: u32,
    pub override_redirect: bool,
    pub event_mask: u32,
}

/// Plans an overlay window under `root`: an alpha-capable visual, a fully
/// transparent background, override-redirect, a border one pixel wide drawn
/// with pixel value 1, and every event category.
pub fn plan_overlay_window(root: u32, depths: &Vec<VisualDepth>, geometry: WindowGeometry) -> (r:
    Result<OverlayWindowPlan, VisualError>)
    ensures
        r is Ok <==> alpha_visual(depths@) is Ok,
        r matches Err(e) ==> alpha_visual(depths@) == Err::<u32, VisualError>(e),
        r matches Ok(p) ==> {
            &&& alpha_visual(depths@) == Ok::<u32, VisualError>(p.visual)
            &&& p.parent == root
            &&& p.depth == ALPHA_DEPTH
            &&& p.geometry == geometry
            &&& p.border_width == 1
            &&& p.background_pixel == 0
            &&& p.border_pixel == 1
            &&& p.override_redirect
            &&& p.event_mask == ALL_EVENTS_MASK
        },
{
    match select_alpha_visual(depths) {
        Ok(visual) => Ok(
            OverlayWindowPlan {
                parent: root,
                depth: ALPHA_DEPTH,
                visual,
                geometry,
                border_width: 1,
                background_pixel: 0,
                border_pixel: 1,
                override_redirect: true,
                event_mask: ALL_EVENTS_MASK,
            },
        ),
        Err(e) => Err(e),
    }
}

/// Which of a window's shapes a shape request replaces.
#[derive(Clone, Copy, Debug, PartialEq, Eq, Structural)]
pub enum ShapeKind {
    /// The shape in which the window's pixels are drawn.
    Bounding,
    /// The shape that clips the window's children.
    Clip,
    /// The shape in which the window accepts pointer and keyboard input.
    Input,
}

/// The region a shape request sets.
#[derive(Clone, Copy, Debug, PartialEq, Eq, Structural)]
pub enum ShapeRegion {
    /// No region: the shape reverts to the whole window rectangle.
    Unshaped,
    /// The server-side region of this identifier.
    Region(u32),
}

/// A request that sets one shape of `dest` to `region`.
#[derive(Clone, Copy, Debug, PartialEq, Eq, Structural)]
pub struct ShapeRequest {
    pub dest: u32,
    pub kind: ShapeKind,
    pub x_offset: i16,
    pub y_offset: i16,
    pub region: ShapeRegion,
}

/// What a shape of a window covers, as far as the overlay cares.
pub enum ShapeExtent {
    /// The whole window rectangle.
    FullRectangle,
    /// Nothing at all.
    Empty,
    /// Some other region.
    Other,
}

/// The drawn and the input shape of a window.
pub struct WindowShapes {
    pub bounding: ShapeExtent,
    pub input: ShapeExtent,
}

/// What a shape request with region `region` makes a shape cover, where
/// `empty_region` is a region that holds no rectangle.
pub open spec fn region_extent(region: ShapeRegion, empty_region: u32) -> ShapeExtent {
    match region {
        ShapeRegion::Unshaped => ShapeExtent::FullRectangle,
        ShapeRegion::Region(id) => if id == empty_region {
            ShapeExtent::Empty
        } else {
            ShapeExtent::Other
        },
    }
}

/// The shapes of `window` once the server has applied `req`.
pub open spec fn apply_shape_request(
    shapes: WindowShapes,
    window: u32,
    req: ShapeRequest,
    empty_region: u32,
) -> WindowShapes {
    if req.dest != window {
        shapes
    } else {
        match req.kind {
            ShapeKind::Bounding => WindowShapes {
                bounding: region_extent(req.region, empty_region),
                ..shapes
            },
            ShapeKind::Input => WindowShapes {
                input: region_extent(req.region, empty_region),
                ..shapes
            },
            ShapeKind::Clip => shapes,
        }
    }
}

/// The shapes of `window` once the server has applied `reqs` in order.
pub open spec fn apply_shape_requests(
    shapes: WindowShapes,
    window: u32,
    reqs: Seq<ShapeRequest>,
    empty_region: u32,
) -> WindowShapes
    decreases reqs.len(),
{
    if reqs.len() == 0 {
        shapes
    } else {
        apply_shape_requests(
            apply_shape_request(shapes, window, reqs[0], empty_region),
            window,
            reqs.drop_first(),
            empty_region,
        )
    }
}

/// The requests that make `window` click-through: its drawn shape is reset
/// to the whole rectangle, its input shape set to the empty region.
pub open spec fn passthrough_plan(window: u32, empty_region: u32) -> Seq<ShapeRequest> {
    seq![
        ShapeRequest {
            dest: window,
            kind: ShapeKind::Bounding,
            x_offset: 0,
            y_offset: 0,
            region: ShapeRegion::Unshaped,
        },
        ShapeRequest {
            dest: window,
            kind: ShapeKind::Input,
            x_offset: 0,
            y_offset: 0,
            region: ShapeRegion::Region(empty_region),
        },
    ]
}

/// Builds the shape requests that let all input on `window` fall through to
/// the windows beneath, given a freshly created region with no rectangle.
pub fn passthrough_requests(window: u32, empty_region: u32) -> (r: Vec<ShapeRequest>)
    ensures
        r@ == passthrough_plan(window, empty_region),
{
    let mut r: Vec<ShapeRequest> = Vec::new();
    r.push(
        ShapeRequest {
            dest: window,
            kind: ShapeKind::Bounding,
            x_offset: 0,
            y_offset: 0,
            region: ShapeRegion::Unshaped,
        },
    );
    r.push(
        ShapeRequest {
            dest: window,
            kind: ShapeKind::Input,
            x_offset: 0,
            y_offset: 0,
            region: ShapeRegion::Region(empty_region),
        },
    );
    assert(r@ =~= passthrough_plan(window, empty_region));
    r
}

/// Whatever shapes `window` had, after the passthrough requests its drawn
/// shape is the full window rectangle and its input shape is empty, so the
/// two differ: pixels still show while input falls through.
pub proof fn lemma_passthrough_shapes(shapes: WindowShapes, window: u32, empty_region: u32)
    ensures
        ({
            let after = apply_shape_requests(
                shapes,
                window,
                passthrough_plan(window, empty_region),
                empty_region,
            );
            &&& after.bounding == ShapeExtent::FullRectangle
            &&& after.input == ShapeExtent::Empty
            &&& after.bounding != after.input
        }),
{
    let plan = passthrough_plan(window, empty_region);
    let s1 = apply_shape_request(shapes, window, plan[0], empty_region);
    let s2 = apply_shape_request(s1, window, plan[1], empty_region);
    assert(plan.drop_first().drop_first().len() == 0);
    assert(apply_shape_requests(s2, window, plan.drop_first().drop_first(), empty_region) == s2);
    assert(apply_shape_requests(s1, window, plan.drop_first(), empty_region) == s2);
}

/// A client message event, as sent to the root window.
#[derive(Clone, Copy, Debug)]
pub struct ClientMessage {
    pub format: u8,
    pub window: u32,
    pub message_type: u32,
    pub data: [u32; 5],
}

/// Builds the message asking the window manager to add the "above" state to
/// `window`, given the atoms interned for `NET_WM_STATE` and `NET_WM_STATE_ABOVE`.
pub fn always_on_top_message(window: u32, wm_state: u32, wm_state_above: u32) -> (r:
    ClientMessage)
    ensures
        r.format == 32,
        r.window == window,
        r.message_type == wm_state,
        r.data@ == seq![NET_WM_STATE_ADD, wm_state_above, 0u32, 0u32, 0u32],
{
    let r = ClientMessage {
        format: 32,
        window,
        message_type: wm_state,
        data: [NET_WM_STATE_ADD, wm_state_above, 0, 0, 0],
    };
    assert(r.data@ =~= seq![NET_WM_STATE_ADD, wm_state_above, 0u32, 0u32, 0u32]);
    r
}

/// Stacking modes of a configure request.
#[derive(Clone, Copy, Debug, PartialEq, Eq, Structural)]
pub enum StackMode {
    Above,
    Below,
    TopIf,
    BottomIf,
    Opposite,
}

/// A configure request that only changes the stacking of `window`.
#[derive(Clone, Copy, Debug, PartialEq, Eq, Structural)]
pub struct RestackRequest {
    pub window: u32,
    pub stack_mode: StackMode,
}

/// `window` is topmost among `children`, the root's children from bottom to top.
pub open spec fn is_topmost(children: Seq<u32>, window: u32) -> bool {
    children.len() > 0 && children.last() == window
}

/// Decides, from the root window's children listed bottom to top, whether
/// `window` must be raised: no request where it is already the last child,
/// else exactly one request that stacks it above its siblings.
pub fn restack_request(children: &Vec<u32>, window: u32) -> (r: Option<RestackRequest>)
    ensures
        is_topmost(children@, window) ==> r is None,
        !is_topmost(children@, window) ==> r == Some(
            RestackRequest { window, stack_mode: StackMode::Above },
        ),
{
    let n = children.len();
    if n > 0 && children[n - 1] == window {
        None
    } else {
        Some(RestackRequest { window, stack_mode: StackMode::Above })
    }
}

} // verus!
