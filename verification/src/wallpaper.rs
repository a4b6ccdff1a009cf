//! Setting the X11 wallpaper: what the X server is asked for, and with which pixels.

use vstd::prelude::*;

use crate::decode::RgbaImage;

verus! {

/// The depth of a pixmap with an alpha channel.
pub const ARGB_DEPTH: u8 = 32;

/// A property loses what it held before.
pub const REPLACE: u8 = 0;

/// The number of the type of pixmaps among the predefined atoms.
pub const ATOM_PIXMAP: u32 = 20;

/// The bits of one value of a property, and of one pixel of an image.
pub const WORD: u8 = 32;

/// What a start of the program is for.
#[derive(Clone, Copy, Debug, PartialEq, Eq, Structural)]
pub enum Task {
    /// To show images.
    View,
    /// To set the wallpaper.
    SetWallpaper,
    /// To say that the wallpaper cannot be set on Wayland.
    RefuseWallpaper,
}

/// The task, given whether a wallpaper was named and whether Wayland is running.
pub fn task_for(wallpaper: bool, wayland: bool) -> (task: Task)
    ensures
        task is View <==> !wallpaper,
        task is SetWallpaper <==> wallpaper && !wayland,
        task is RefuseWallpaper <==> wallpaper && wayland,
{
    if !wallpaper {
        Task::View
    } else if wayland {
        Task::RefuseWallpaper
    } else {
        Task::SetWallpaper
    }
}

/// The screen whose wallpaper is set: its size, the depth of its root window, and the depths that
/// its pixmaps may have.
#[derive(Debug)]
pub struct Screen {
    pub width: u16,
    pub height: u16,
    pub root_depth: u8,
    pub depths: Vec<u8>,
}

/// The pixmaps that hold the wallpaper.
#[derive(Clone, Copy, Debug, PartialEq, Eq, Structural)]
pub enum Pixmap {
    /// With an alpha channel, for compositors.
    Argb,
    /// With the depth of the root window.
    Root,
}

/// The properties of the root window that tell other programs of the wallpaper.
#[derive(Clone, Copy, Debug, PartialEq, Eq, Structural)]
pub enum Property {
    XrootpmapId,
    EsetrootPmapId,
}

/// What the X server is asked for.
#[derive(Clone, Copy, Debug, PartialEq, Eq, Structural)]
pub enum Request {
    CreatePixmap { pixmap: Pixmap, depth: u8, width: u16, height: u16 },
    /// A graphics context to draw on the pixmap with.
    CreateContext { pixmap: Pixmap },
    /// The wallpaper is drawn on the pixmap at this place. A pixel and the end of a line take as many
    /// bits as `pixel` and `pad` say; `low_first` says that the byte of lowest value comes first.
    PutImage {
        pixmap: Pixmap,
        depth: u8,
        width: u16,
        height: u16,
        x: i16,
        y: i16,
        pixel: u8,
        pad: u8,
        low_first: bool,
    },
    /// The graphics context goes.
    FreeContext { pixmap: Pixmap },
    /// The property of the root window names the pixmap: it gets one value of this type and size.
    SetProperty { property: Property, pixmap: Pixmap, mode: u8, kind: u32, format: u8 },
    /// The pixmap becomes the background of the root window.
    SetBackground { pixmap: Pixmap },
    /// This part of the root window is drawn anew; `exposures` says whether it is told of that.
    ClearArea { exposures: bool, x: i16, y: i16, width: u16, height: u16 },
    /// What was created outlives the connection.
    RetainPermanently,
    /// Everything that was asked for is sent.
    Flush,
}

/// The root window may have pixmaps with an alpha channel.
pub open spec fn has_argb(screen: &Screen) -> bool {
    screen.depths@.contains(ARGB_DEPTH)
}

/// A length as the X protocol carries it: what does not fit into 16 bits is cut off.
pub open spec fn protocol_length(length: u32) -> u16 {
    (length % 0x1_0000) as u16
}

/// The wallpaper is drawn on all of the pixmap.
pub open spec fn painting(pixmap: Pixmap, depth: u8, width: u16, height: u16) -> Request {
    Request::PutImage {
        pixmap,
        depth,
        width,
        height,
        x: 0,
        y: 0,
        pixel: WORD,
        pad: WORD,
        low_first: true,
    }
}

/// The property names the pixmap, and nothing else.
pub open spec fn announcement(property: Property, pixmap: Pixmap) -> Request {
    Request::SetProperty { property, pixmap, mode: REPLACE, kind: ATOM_PIXMAP, format: WORD }
}

/// How the wallpaper gets into a pixmap.
pub open spec fn drawn(pixmap: Pixmap, depth: u8, width: u16, height: u16) -> Seq<Request> {
    seq![
        Request::CreatePixmap { pixmap, depth, width, height },
        Request::CreateContext { pixmap },
        painting(pixmap, depth, width, height),
        Request::FreeContext { pixmap },
    ]
}

/// The pixmap that the properties name.
pub open spec fn announced(screen: &Screen) -> Pixmap {
    if has_argb(screen) {
        Pixmap::Argb
    } else {
        Pixmap::Root
    }
}

/// The requests that set a wallpaper of this size.
pub open spec fn wallpaper_plan(screen: &Screen, width: u32, height: u32) -> Seq<Request> {
    let (w, h) = (protocol_length(width), protocol_length(height));
    let argb = if has_argb(screen) {
        drawn(Pixmap::Argb, ARGB_DEPTH, w, h)
    } else {
        Seq::empty()
    };
    let pixmap = announced(screen);
    argb + drawn(Pixmap::Root, screen.root_depth, w, h) + seq![
        announcement(Property::XrootpmapId, pixmap),
        announcement(Property::EsetrootPmapId, pixmap),
        Request::SetBackground { pixmap: Pixmap::Root },
        Request::ClearArea {
            exposures: false,
            x: 0,
            y: 0,
            width: screen.width,
            height: screen.height,
        },
        Request::RetainPermanently,
        Request::Flush,
    ]
}

impl Property {
    /// The name that the property has on the X server.
    pub fn name(self) -> (name: &'static str)
        ensures
            self is XrootpmapId ==> name@ == "_XROOTPMAP_ID"@,
            self is EsetrootPmapId ==> name@ == "ESETROOT_PMAP_ID"@,
    {
        match self {
            Property::XrootpmapId => "_XROOTPMAP_ID",
            Property::EsetrootPmapId => "ESETROOT_PMAP_ID",
        }
    }
}

impl Screen {
    fn has_argb_depth(&self) -> (found: bool)
        ensures
            found == has_argb(self),
    {
        let len: usize = self.depths.len();
        let mut i: usize = 0;
        while i < len
            invariant
                i <= len == self.depths@.len(),
                forall|j: int| 0 <= j < i ==> self.depths@[j] != ARGB_DEPTH,
            decreases len - i,
        {
            if self.depths[i] == ARGB_DEPTH {
                return true;
            }
            i = i + 1;
        }
        false
    }
}

fn cut(length: u32) -> (cut: u16)
    ensures
        cut == protocol_length(length),
{
    assert((length % 0x1_0000) as u16 == length as u16) by (bit_vector);
    #[verifier::truncate]
    (length as u16)
}

fn push_drawn(
    requests: &mut Vec<Request>,
    pixmap: Pixmap,
    depth: u8,
    width: u16,
    height: u16,
)
    ensures
        final(requests)@ == old(requests)@ + drawn(pixmap, depth, width, height),
{
    requests.push(Request::CreatePixmap { pixmap, depth, width, height });
    requests.push(Request::CreateContext { pixmap });
    requests.push(
        Request::PutImage {
            pixmap,
            depth,
            width,
            height,
            x: 0,
            y: 0,
            pixel: WORD,
            pad: WORD,
            low_first: true,
        },
    );
    requests.push(Request::FreeContext { pixmap });
}

fn naming(property: Property, pixmap: Pixmap) -> (request: Request)
    ensures
        request == announcement(property, pixmap),
{
    Request::SetProperty { property, pixmap, mode: REPLACE, kind: ATOM_PIXMAP, format: WORD }
}

/// The requests that set a wallpaper of this size, in the order in which they are made. One that
/// fails ends the series.
pub fn wallpaper_requests(screen: &Screen, width: u32, height: u32) -> (requests: Vec<Request>)
    ensures
        requests@ == wallpaper_plan(screen, width, height),
{
    let w: u16 = cut(width);
    let h: u16 = cut(height);
    let mut requests: Vec<Request> = Vec::new();
    let mut pixmap = Pixmap::Root;
    if screen.has_argb_depth() {
        push_drawn(&mut requests, Pixmap::Argb, ARGB_DEPTH, w, h);
        pixmap = Pixmap::Argb;
    }
    push_drawn(&mut requests, Pixmap::Root, screen.root_depth, w, h);
    requests.push(naming(Property::XrootpmapId, pixmap));
    requests.push(naming(Property::EsetrootPmapId, pixmap));
    requests.push(Request::SetBackground { pixmap: Pixmap::Root });
    requests.push(
        Request::ClearArea {
            exposures: false,
            x: 0,
            y: 0,
            width: screen.width,
            height: screen.height,
        },
    );
    requests.push(Request::RetainPermanently);
    requests.push(Request::Flush);
    requests
}

/// The pixels with the bytes of each in the order blue, green, red, alpha.
pub open spec fn blue_first(pixels: Seq<u8>) -> Seq<u8> {
    Seq::new(
        pixels.len(),
        |i: int|
            if i % 4 == 0 {
                pixels[i + 2]
            } else if i % 4 == 2 {
                pixels[i - 2]
            } else {
                pixels[i]
            },
    )
}

/// A color channel over black.
pub open spec fn over_black(channel: u8, alpha: u8) -> u8 {
    (channel * alpha / 255) as u8
}

/// The pixels over black, in the order blue, green, red, and a byte that means nothing.
pub open spec fn composed(pixels: Seq<u8>) -> Seq<u8> {
    Seq::new(
        pixels.len(),
        |i: int|
            if i % 4 == 3 {
                0
            } else {
                over_black(blue_first(pixels)[i], pixels[i - i % 4 + 3])
            },
    )
}

/// What is drawn on a pixmap.
pub open spec fn pixmap_content(pixels: Seq<u8>, pixmap: Pixmap) -> Seq<u8> {
    match pixmap {
        Pixmap::Argb => blue_first(pixels),
        Pixmap::Root => composed(pixels),
    }
}

fn shade(channel: u8, alpha: u8) -> (shaded: u8)
    ensures
        shaded == over_black(channel, alpha),
{
    assert(channel * alpha <= 255 * 255) by (nonlinear_arith)
        requires
            channel <= 255,
            alpha <= 255,
    ;
    let product: u32 = (channel as u32) * (alpha as u32);
    (product / 255) as u8
}

/// The bytes of the wallpaper for a pixmap.
pub fn pixmap_data(image: &RgbaImage, pixmap: Pixmap) -> (data: Vec<u8>)
    requires
        image.wf(),
    ensures
        data@ == pixmap_content(image.pixels@, pixmap),
{
    let len: usize = image.pixels.len();
    let mut data: Vec<u8> = Vec::with_capacity(len);
    let mut i: usize = 0;
    assert(len % 4 == 0) by {
        assert(4 * image.width * image.height == 4 * (image.width * image.height))
            by (nonlinear_arith);
    }
    while i < len
        invariant
            i <= len == image.pixels@.len(),
            len % 4 == 0,
            i % 4 == 0,
            data@ == pixmap_content(image.pixels@, pixmap).take(i as int),
        decreases len - i,
    {
        let red: u8 = image.pixels[i];
        let green: u8 = image.pixels[i + 1];
        let blue: u8 = image.pixels[i + 2];
        let alpha: u8 = image.pixels[i + 3];
        match pixmap {
            Pixmap::Argb => {
                data.push(blue);
                data.push(green);
                data.push(red);
                data.push(alpha);
            },
            Pixmap::Root => {
                data.push(shade(blue, alpha));
                data.push(shade(green, alpha));
                data.push(shade(red, alpha));
                data.push(0);
            },
        }
        i = i + 4;
        assert(data@ =~= pixmap_content(image.pixels@, pixmap).take(i as int));
    }
    assert(pixmap_content(image.pixels@, pixmap).take(len as int) =~= pixmap_content(
        image.pixels@,
        pixmap,
    ));
    data
}

/// The wallpaper is drawn on the pixmap by one of the requests before number `i`.
pub open spec fn drawn_before(requests: Seq<Request>, i: int, pixmap: Pixmap) -> bool {
    exists|j: int|
        0 <= j < i && (#[trigger] requests[j] is PutImage) && requests[j]->PutImage_pixmap
            == pixmap
}

/// Both properties are set, and name the same pixmap: the one with an alpha channel wherever the
/// screen can have one. The background is the other one. Each is named only after the wallpaper
/// was drawn on it.
pub proof fn law_wallpaper_is_announced(screen: &Screen, width: u32, height: u32)
    ensures
        ({
            let plan = wallpaper_plan(screen, width, height);
            &&& forall|property: Property|
                #![trigger plan.contains(announcement(property, announced(screen)))]
                plan.contains(announcement(property, announced(screen)))
            &&& plan.contains(Request::SetBackground { pixmap: Pixmap::Root })
            &&& forall|i: int|
                0 <= i < plan.len() && (#[trigger] plan[i] is SetProperty)
                    ==> plan[i]->SetProperty_pixmap == announced(screen) && drawn_before(
                    plan,
                    i,
                    announced(screen),
                )
            &&& forall|i: int|
                0 <= i < plan.len() && (#[trigger] plan[i] is SetBackground)
                    ==> plan[i]->SetBackground_pixmap == Pixmap::Root && drawn_before(
                    plan,
                    i,
                    Pixmap::Root,
                )
        }),
{
    let plan = wallpaper_plan(screen, width, height);
    let start = if has_argb(screen) {
        4int
    } else {
        0
    };
    assert(plan.len() == start + 10);
    assert(plan[start + 4] == announcement(Property::XrootpmapId, announced(screen)));
    assert(plan[start + 5] == announcement(Property::EsetrootPmapId, announced(screen)));
    assert(plan[start + 6] == Request::SetBackground { pixmap: Pixmap::Root });
    assert forall|property: Property|
        #![trigger plan.contains(announcement(property, announced(screen)))]
        plan.contains(announcement(property, announced(screen))) by {
        match property {
            Property::XrootpmapId => {},
            Property::EsetrootPmapId => {},
        }
    }
    assert(plan[start + 2] is PutImage && plan[start + 2]->PutImage_pixmap == Pixmap::Root);
    if has_argb(screen) {
        assert(plan[2] is PutImage && plan[2]->PutImage_pixmap == Pixmap::Argb);
    }
}

/// Where request number `i` draws, the pixmap was just created with the same size and depth, and
/// the graphics context for it comes before and goes after. Where it creates a graphics context,
/// that is freed two requests later.
pub open spec fn in_its_place(requests: Seq<Request>, i: int) -> bool {
    match requests[i] {
        Request::PutImage { pixmap, depth, width, height, .. } => {
            &&& 2 <= i < requests.len() - 1
            &&& requests[i - 2] == (Request::CreatePixmap { pixmap, depth, width, height })
            &&& requests[i - 1] == (Request::CreateContext { pixmap })
            &&& requests[i + 1] == (Request::FreeContext { pixmap })
        },
        Request::CreateContext { pixmap } => {
            &&& i + 2 < requests.len()
            &&& requests[i + 2] == (Request::FreeContext { pixmap })
        },
        _ => true,
    }
}

/// The wallpaper is only drawn on a pixmap that was just created with the same size and depth, and
/// every graphics context is freed as soon as it has been used.
pub proof fn law_contexts_are_freed(screen: &Screen, width: u32, height: u32)
    ensures
        forall|i: int|
            0 <= i < wallpaper_plan(screen, width, height).len() ==> #[trigger] in_its_place(
                wallpaper_plan(screen, width, height),
                i,
            ),
{
}

/// The pixmaps are kept when the program ends, and nothing that was asked for is left unsent.
pub proof fn law_wallpaper_outlives_the_program(screen: &Screen, width: u32, height: u32)
    ensures
        ({
            let plan = wallpaper_plan(screen, width, height);
            &&& 2 <= plan.len()
            &&& plan[plan.len() - 2] == Request::RetainPermanently
            &&& plan.last() == Request::Flush
        }),
{
}

/// Each pixmap gets as many bytes as an image of the requested size takes, four for a pixel. It
/// takes an image whose sides fit into the protocol's 16 bits.
pub proof fn law_data_fills_the_pixmap(image: RgbaImage, pixmap: Pixmap)
    requires
        image.wf(),
        image.width < 0x1_0000,
        image.height < 0x1_0000,
    ensures
        pixmap_content(image.pixels@, pixmap).len() == 4 * protocol_length(image.width)
            * protocol_length(image.height),
{
    assert(protocol_length(image.width) == image.width);
    assert(protocol_length(image.height) == image.height);
}

/// Exchanging red and blue twice changes nothing.
pub proof fn law_blue_first_undoes_itself(pixels: Seq<u8>)
    requires
        pixels.len() % 4 == 0,
    ensures
        blue_first(blue_first(pixels)) == pixels,
{
    assert(blue_first(blue_first(pixels)) =~= pixels);
}

/// What is opaque keeps its color over black, what is transparent is black, and nothing becomes
/// brighter.
pub proof fn law_composition(channel: u8, alpha: u8)
    ensures
        over_black(channel, 255) == channel,
        over_black(channel, 0) == 0,
        over_black(channel, alpha) <= channel,
{
    assert(channel * alpha / 255 <= channel) by (nonlinear_arith)
        requires
            channel <= 255,
            alpha <= 255,
    ;
    assert(channel * 255 / 255 == channel);
}

/// Every pixmap is created, and every image drawn, in the size of the picture, whatever the size of
/// the screen, and as many bytes are drawn as that takes. It takes a picture whose sides fit into the
/// protocol's 16 bits.
pub proof fn law_wallpaper_has_the_size_of_the_picture(screen: &Screen, image: RgbaImage, i: int)
    requires
        image.wf(),
        image.width < 0x1_0000,
        image.height < 0x1_0000,
        0 <= i < wallpaper_plan(screen, image.width, image.height).len(),
    ensures
        match wallpaper_plan(screen, image.width, image.height)[i] {
            Request::CreatePixmap { width, height, .. } => {
                &&& width == image.width
                &&& height == image.height
            },
            Request::PutImage { pixmap, width, height, .. } => {
                &&& width == image.width
                &&& height == image.height
                &&& pixmap_content(image.pixels@, pixmap).len() == 4 * width * height
            },
            _ => true,
        },
{
}

/// Two screens of different size with the same depths get the same wallpaper: only the part of the
/// root window that is drawn anew differs.
pub proof fn law_screen_size_does_not_matter(a: &Screen, b: &Screen, width: u32, height: u32)
    requires
        a.root_depth == b.root_depth,
        a.depths@ == b.depths@,
    ensures
        wallpaper_plan(a, width, height).len() == wallpaper_plan(b, width, height).len(),
        forall|i: int|
            0 <= i < wallpaper_plan(a, width, height).len() && !(#[trigger] wallpaper_plan(
                a,
                width,
                height,
            )[i] is ClearArea) ==> wallpaper_plan(a, width, height)[i] == wallpaper_plan(
                b,
                width,
                height,
            )[i],
{
}

/// Of a side that does not fit into 16 bits the protocol carries the lower 16.
pub proof fn law_long_sides_are_cut(screen: &Screen, width: u32, height: u32, i: int)
    requires
        0 <= i < wallpaper_plan(screen, width, height).len(),
    ensures
        match wallpaper_plan(screen, width, height)[i] {
            Request::CreatePixmap { width: w, height: h, .. } => {
                &&& (width - w) % 0x1_0000 == 0
                &&& (height - h) % 0x1_0000 == 0
            },
            _ => true,
        },
{
}

/// There is always a pixmap with the depth of the root window, and one of 32 bits exactly if the
/// screen allows that depth. On each the wallpaper is drawn once, at its corner, with pixels of 32
/// bits.
pub proof fn law_pixmaps(screen: &Screen, width: u32, height: u32)
    ensures
        ({
            let plan = wallpaper_plan(screen, width, height);
            &&& exists|i: int|
                0 <= i < plan.len() && (#[trigger] plan[i] is CreatePixmap)
                    && plan[i]->CreatePixmap_pixmap is Root
            &&& (exists|i: int|
                0 <= i < plan.len() && (#[trigger] plan[i] is CreatePixmap)
                    && plan[i]->CreatePixmap_pixmap is Argb) <==> screen.depths@.contains(32)
            &&& forall|i: int|
                0 <= i < plan.len() ==> match #[trigger] plan[i] {
                    Request::CreatePixmap { pixmap, depth, .. } => depth == (match pixmap {
                        Pixmap::Argb => 32u8,
                        Pixmap::Root => screen.root_depth,
                    }),
                    Request::PutImage { pixmap, depth, x, y, pixel, pad, low_first, .. } => {
                        &&& depth == (match pixmap {
                            Pixmap::Argb => 32u8,
                            Pixmap::Root => screen.root_depth,
                        })
                        &&& x == 0 && y == 0
                        &&& pixel == 32 && pad == 32
                        &&& low_first
                    },
                    _ => true,
                }
            &&& forall|i: int, j: int|
                0 <= i < j < plan.len() && (#[trigger] plan[i] is PutImage) && (
                #[trigger] plan[j] is PutImage) ==> plan[i]->PutImage_pixmap
                    != plan[j]->PutImage_pixmap
        }),
{
    let plan = wallpaper_plan(screen, width, height);
    if has_argb(screen) {
        assert(plan[0] is CreatePixmap && plan[0]->CreatePixmap_pixmap is Argb);
        assert(plan[4] is CreatePixmap && plan[4]->CreatePixmap_pixmap is Root);
    } else {
        assert(plan[0] is CreatePixmap && plan[0]->CreatePixmap_pixmap is Root);
    }
}

/// The properties are replaced by one pixmap of 32 bits, each of them, and name the pixmap with an
/// alpha channel exactly if the screen allows one. Then all of the screen is drawn anew, without
/// telling anyone.
pub proof fn law_properties_name_the_pixmap(screen: &Screen, width: u32, height: u32)
    ensures
        ({
            let plan = wallpaper_plan(screen, width, height);
            &&& forall|i: int|
                0 <= i < plan.len() ==> match #[trigger] plan[i] {
                    Request::SetProperty { pixmap, mode, kind, format, .. } => {
                        &&& mode == 0
                        &&& kind == 20
                        &&& format == 32
                        &&& pixmap is Argb <==> screen.depths@.contains(32)
                    },
                    Request::ClearArea { exposures, x, y, width: w, height: h } => {
                        &&& !exposures
                        &&& x == 0 && y == 0
                        &&& w == screen.width
                        &&& h == screen.height
                    },
                    _ => true,
                }
            &&& plan.len() == (if screen.depths@.contains(32) {
                14nat
            } else {
                10nat
            })
            &&& plan[plan.len() - 6] is SetProperty
            &&& plan[plan.len() - 6]->SetProperty_property is XrootpmapId
            &&& plan[plan.len() - 5] is SetProperty
            &&& plan[plan.len() - 5]->SetProperty_property is EsetrootPmapId
            &&& plan[plan.len() - 4] is SetBackground
            &&& plan[plan.len() - 3] is ClearArea
        }),
{
}

/// A color over black is the greatest one of which 255 parts are no more than `alpha` parts of it.
pub proof fn law_shade_is_the_greatest(channel: u8, alpha: u8)
    ensures
        255 * over_black(channel, alpha) <= channel * alpha,
        channel * alpha < 255 * (over_black(channel, alpha) + 1),
{
    assert(0 <= channel * alpha <= 255 * 255) by (nonlinear_arith)
        requires
            channel <= 255,
            alpha <= 255,
    ;
}

/// Each pixel keeps its place. For compositors its bytes are blue, green, red and alpha; for the root
/// window they are blue, green and red, each over black, and a zero.
pub proof fn law_pixels_keep_their_place(pixels: Seq<u8>, p: int)
    requires
        0 <= p,
        4 * p + 4 <= pixels.len(),
    ensures
        ({
            let argb = pixmap_content(pixels, Pixmap::Argb);
            let root = pixmap_content(pixels, Pixmap::Root);
            let (red, green, blue) = (pixels[4 * p], pixels[4 * p + 1], pixels[4 * p + 2]);
            let alpha = pixels[4 * p + 3];
            &&& argb.len() == pixels.len()
            &&& root.len() == pixels.len()
            &&& argb[4 * p] == blue
            &&& argb[4 * p + 1] == green
            &&& argb[4 * p + 2] == red
            &&& argb[4 * p + 3] == alpha
            &&& 255 * root[4 * p] <= blue * alpha < 255 * (root[4 * p] + 1)
            &&& 255 * root[4 * p + 1] <= green * alpha < 255 * (root[4 * p + 1] + 1)
            &&& 255 * root[4 * p + 2] <= red * alpha < 255 * (root[4 * p + 2] + 1)
            &&& root[4 * p + 3] == 0
        }),
{
    law_shade_is_the_greatest(pixels[4 * p], pixels[4 * p + 3]);
    law_shade_is_the_greatest(pixels[4 * p + 1], pixels[4 * p + 3]);
    law_shade_is_the_greatest(pixels[4 * p + 2], pixels[4 * p + 3]);
    assert((4 * p) % 4 == 0 && (4 * p + 1) % 4 == 1 && (4 * p + 2) % 4 == 2 && (4 * p + 3) % 4 == 3);
}

} // verus!
