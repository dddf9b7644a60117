use vstd::prelude::*;

verus! {

/// Left edge of the cropped region, in source pixels.
pub const CROP_X: u32 = 50;

/// Top edge of the cropped region, in source pixels.
pub const CROP_Y: u32 = 480;

/// Width of the cropped region when the source is large enough.
pub const CROP_WIDTH: u32 = 1000;

/// Height of the cropped region when the source is large enough.
pub const CROP_HEIGHT: u32 = 1000;

/// A rectangle of an image, in pixels.
#[derive(Debug, Clone, Copy, PartialEq, Eq)]
pub struct CropRegion {
    pub x: u32,
    pub y: u32,
    pub width: u32,
    pub height: u32,
}

pub open spec fn min_u32(a: u32, b: u32) -> u32 {
    if a <= b {
        a
    } else {
        b
    }
}

/// The fixed crop rectangle intersected with a `width` x `height` image:
/// the corner is pulled inside the image and the size shrunk to fit.
pub open spec fn clamped_region(width: u32, height: u32) -> CropRegion {
    let x = min_u32(CROP_X, width);
    let y = min_u32(CROP_Y, height);
    CropRegion {
        x,
        y,
        width: min_u32(CROP_WIDTH, (width - x) as u32),
        height: min_u32(CROP_HEIGHT, (height - y) as u32),
    }
}

/// The part of the fixed crop rectangle that lies inside a `width` x
/// `height` image.
pub fn crop_region(width: u32, height: u32) -> (r: CropRegion)
    ensures
        r == clamped_region(width, height),
        r.x + r.width <= width,
        r.y + r.height <= height,
{
    let x = if CROP_X <= width {
        CROP_X
    } else {
        width
    };
    let y = if CROP_Y <= height {
        CROP_Y
    } else {
        height
    };
    let w = if CROP_WIDTH <= width - x {
        CROP_WIDTH
    } else {
        width - x
    };
    let h = if CROP_HEIGHT <= height - y {
        CROP_HEIGHT
    } else {
        height - y
    };
    CropRegion { x, y, width: w, height: h }
}

/// A source that covers the whole rectangle is cropped to exactly its size.
pub proof fn lemma_large_source_full_crop(width: u32, height: u32)
    requires
        width >= CROP_X + CROP_WIDTH,
        height >= CROP_Y + CROP_HEIGHT,
    ensures
        clamped_region(width, height) == (CropRegion {
            x: CROP_X,
            y: CROP_Y,
            width: CROP_WIDTH,
            height: CROP_HEIGHT,
        }),
{
}

/// Directory that receives the cropped images.
pub open spec fn cropped_dir() -> Seq<char> {
    "./output/cropped/"@
}

/// Where the crop of a source is written: the source's file name inside the
/// cropped directory, or `fresh_id` with a `.png` extension when the source
/// has no file name.
pub open spec fn cropped_path_spec(file_name: Option<Seq<char>>, fresh_id: Seq<char>) -> Seq<char> {
    match file_name {
        Some(n) => cropped_dir() + n,
        None => cropped_dir() + fresh_id + ".png"@,
    }
}

/// The path that the crop of a source named `file_name` is written to.
pub fn cropped_output_path(file_name: &Option<String>, fresh_id: &str) -> (r: String)
    ensures
        r@ == cropped_path_spec(
            match file_name {
                Some(n) => Some(n@),
                None => None,
            },
            fresh_id@,
        ),
{
    let mut path = String::from_str("./output/cropped/");
    match file_name {
        Some(n) => {
            path.append(n.as_str());
        },
        None => {
            path.append(fresh_id);
            path.append(".png");
        },
    }
    path
}

/// Crops of two sources with the same file name go to the same path, so the
/// later one replaces the earlier; sources with different names never share
/// a path.
pub proof fn lemma_cropped_path_by_name(a: Seq<char>, b: Seq<char>, id_a: Seq<char>, id_b: Seq<char>)
    ensures
        (cropped_path_spec(Some(a), id_a) == cropped_path_spec(Some(b), id_b)) <==> (a == b),
{
    let d = cropped_dir();
    if cropped_path_spec(Some(a), id_a) == cropped_path_spec(Some(b), id_b) {
        assert((d + a).subrange(d.len() as int, (d + a).len() as int) =~= a);
        assert((d + b).subrange(d.len() as int, (d + b).len() as int) =~= b);
    }
}

} // verus!
