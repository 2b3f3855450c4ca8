//! Primitive pixel operations, and what each does to an image's size.
use vstd::prelude::*;

verus! {

/// One primitive operation on a decoded image.
#[derive(Debug, Clone, Copy, PartialEq, Eq, Structural)]
pub enum Step {
    /// Resample to exactly this size.
    Resize { width: u32, height: u32 },
    /// Keep the rectangle with this origin and size, cut back to the image.
    Crop { x: u32, y: u32, width: u32, height: u32 },
    /// Quarter turn clockwise.
    Rotate90,
    Rotate180,
    /// Three quarter turns clockwise.
    Rotate270,
    FlipHorizontal,
    FlipVertical,
    /// Add this amount to every colour channel, clamped to the channel's range.
    Brighten(i32),
    Grayscale,
    /// Replace each colour channel `v` by `255 - v`, alpha kept.
    Invert,
    /// Gaussian blur with a standard deviation of `sigma_tenths / 10`.
    Blur { sigma_tenths: u32 },
    /// One unsharp-mask pass with fixed parameters.
    Sharpen,
    /// Flatten an alpha channel away, leaving an opaque RGB image.
    DropAlpha,
}

/// The size of an image of size `(w, h)` after `s`.
pub open spec fn step_dims(s: Step, w: int, h: int) -> (int, int) {
    match s {
        Step::Resize { width, height } => (width as int, height as int),
        Step::Crop { x, y, width, height } => {
            let x0 = if x <= w { x as int } else { w };
            let y0 = if y <= h { y as int } else { h };
            (
                if width <= w - x0 { width as int } else { w - x0 },
                if height <= h - y0 { height as int } else { h - y0 },
            )
        },
        Step::Rotate90 | Step::Rotate270 => (h, w),
        _ => (w, h),
    }
}

/// The size of an image of size `(w, h)` after all of `steps`, in order.
pub open spec fn plan_dims(steps: Seq<Step>, w: int, h: int) -> (int, int)
    decreases steps.len(),
{
    if steps.len() == 0 {
        (w, h)
    } else {
        let prev = plan_dims(steps.drop_last(), w, h);
        step_dims(steps.last(), prev.0, prev.1)
    }
}

/// The size after a plan of a single step is that step's size.
pub proof fn lemma_plan_dims_single(s: Step, w: int, h: int)
    ensures
        plan_dims(seq![s], w, h) == step_dims(s, w, h),
{
    assert(seq![s].drop_last() =~= Seq::<Step>::empty());
    assert(plan_dims(seq![s].drop_last(), w, h) == (w, h));
}

/// The longest side a resize may produce: 2^26. With it, every buffer that
/// resampling allocates stays within the largest vector, whatever the source.
pub const MAX_SIDE: u32 = 0x0400_0000;

/// The largest change of brightness that makes a difference: beyond it
/// every channel, up to 16 bits, saturates.
pub const MAX_BRIGHTEN: i32 = 65535;

/// A resize step stays within the side limit, a brightness change within
/// its range.
pub open spec fn within_limits(s: Step) -> bool {
    match s {
        Step::Resize { width, height } => width <= MAX_SIDE && height <= MAX_SIDE,
        Step::Brighten(d) => -MAX_BRIGHTEN <= d <= MAX_BRIGHTEN,
        _ => true,
    }
}

pub open spec fn all_within_limits(steps: Seq<Step>) -> bool {
    forall|k: int| 0 <= k < steps.len() ==> within_limits(#[trigger] steps[k])
}

/// Whether every resize in `steps` stays within the side limit.
pub fn fits_limits(steps: &Vec<Step>) -> (r: bool)
    ensures
        r == all_within_limits(steps@),
{
    let mut k: usize = 0;
    while k < steps.len()
        invariant
            k <= steps@.len(),
            forall|j: int| 0 <= j < k ==> within_limits(#[trigger] steps@[j]),
        decreases steps@.len() - k,
    {
        match steps[k] {
            Step::Resize { width, height } => {
                if width > MAX_SIDE || height > MAX_SIDE {
                    return false;
                }
            },
            Step::Brighten(d) => {
                if d < -MAX_BRIGHTEN || d > MAX_BRIGHTEN {
                    return false;
                }
            },
            _ => {},
        }
        k = k + 1;
    }
    true
}

} // verus!
