//! The camera: how its two streams are configured, and which buffers its
//! requests carry.

use crate::command::CameraResizeRequest;
use crate::format::{HEIGHT, PixelFormat, Size, VARIABLE_HEIGHT, VARIABLE_WIDTH, WIDTH, pixel_format};
use vstd::prelude::*;

verus! {

/// How many streams the camera delivers: the variable stream, then the fixed one.
pub const STREAMS: usize = 2;

/// The part of a stream's configuration that the server chooses.
#[derive(Debug, Clone, Copy, PartialEq, Eq, Structural)]
pub struct StreamSettings {
    pub pixel_format: PixelFormat,
    pub size: Size,
    /// Bytes per line.
    pub stride: u32,
}

/// The settings of a stream after it is configured: the stride stays as it was
/// where none is given.
pub open spec fn configured(
    settings: StreamSettings,
    width: u32,
    height: u32,
    stride: Option<u32>,
) -> StreamSettings {
    StreamSettings {
        pixel_format: crate::format::raw_pixel_format(),
        size: Size { width, height },
        stride: match stride {
            Some(stride) => stride,
            None => settings.stride,
        },
    }
}

/// Configures one stream for raw images of a size, and leaves the others alone.
pub fn configure_camera(
    cfgs: &mut Vec<StreamSettings>,
    idx: usize,
    width: u32,
    height: u32,
    stride: Option<u32>,
)
    requires
        idx < old(cfgs)@.len(),
    ensures
        final(cfgs)@ == old(cfgs)@.update(
            idx as int,
            configured(old(cfgs)@[idx as int], width, height, stride),
        ),
        final(cfgs)@[idx as int].size.width == width,
        final(cfgs)@[idx as int].size.height == height,
        final(cfgs)@[idx as int].pixel_format.fourcc == 0x3231_564e,
        final(cfgs)@[idx as int].pixel_format.modifier == 0,
        stride matches Some(bytes) ==> final(cfgs)@[idx as int].stride == bytes,
        stride is None ==> final(cfgs)@[idx as int].stride == old(cfgs)@[idx as int].stride,
{
    let stride: u32 = match stride {
        Some(stride) => stride,
        None => cfgs[idx].stride,
    };
    cfgs.set(
        idx,
        StreamSettings { pixel_format: pixel_format(), size: Size { width, height }, stride },
    );
}

/// Configures both streams as they are when the camera starts.
pub fn configure_initially(cfgs: &mut Vec<StreamSettings>)
    requires
        old(cfgs)@.len() >= 2,
    ensures
        final(cfgs)@ == old(cfgs)@.update(0, configured(old(cfgs)@[0], 1080, 720, None)).update(
            1,
            configured(old(cfgs)@[1], 1920, 1080, None),
        ),
        final(cfgs)@[0].size == (Size { width: 1080, height: 720 }),
        final(cfgs)@[1].size == (Size { width: 1920, height: 1080 }),
        forall|i: int|
            0 <= i < 2 ==> (#[trigger] final(cfgs)@[i]).stride == old(cfgs)@[i].stride
                && final(cfgs)@[i].pixel_format.fourcc == 0x3231_564e
                && final(cfgs)@[i].pixel_format.modifier == 0,
{
    configure_camera(cfgs, 0, VARIABLE_WIDTH, VARIABLE_HEIGHT, None);
    configure_camera(cfgs, 1, WIDTH, HEIGHT, None);
}

/// Configures the variable stream as a resize asks for.
pub fn configure_resized(cfgs: &mut Vec<StreamSettings>, request: &CameraResizeRequest)
    requires
        old(cfgs)@.len() >= 1,
    ensures
        final(cfgs)@ == old(cfgs)@.update(
            0,
            configured(old(cfgs)@[0], request.width, request.height, Some(request.stride)),
        ),
        final(cfgs)@[0].size == (Size { width: request.width, height: request.height }),
        final(cfgs)@[0].stride == request.stride,
        final(cfgs)@[0].pixel_format.fourcc == 0x3231_564e,
        final(cfgs)@[0].pixel_format.modifier == 0,
{
    configure_camera(cfgs, 0, request.width, request.height, Some(request.stride));
}

/// A stream that is configured has the size that was asked for, whatever it had
/// before, and linear NV12 images. It has the stride that was asked for, and keeps
/// its own where none was.
pub proof fn law_stream_configured_as_asked(
    settings: StreamSettings,
    width: u32,
    height: u32,
    stride: Option<u32>,
)
    ensures
        ({
            let result = configured(settings, width, height, stride);
            &&& result.size.width == width
            &&& result.size.height == height
            &&& result.pixel_format.fourcc == 0x3231_564e
            &&& result.pixel_format.modifier == 0
            &&& stride matches Some(bytes) ==> result.stride == bytes
            &&& stride is None ==> result.stride == settings.stride
        }),
{
}

/// What was configured before does not outlive a later configuration with a stride,
/// and without one nothing of it is left but its stride.
pub proof fn law_last_configuration_counts(
    settings: StreamSettings,
    earlier: (u32, u32, Option<u32>),
    width: u32,
    height: u32,
    stride: u32,
)
    ensures
        ({
            let before = configured(settings, earlier.0, earlier.1, earlier.2);
            &&& configured(before, width, height, Some(stride)) == configured(
                settings,
                width,
                height,
                Some(stride),
            )
            &&& configured(before, width, height, None) == configured(
                settings,
                width,
                height,
                Some(before.stride),
            )
        }),
{
}

/// A capture request: its cookie, and a buffer for each stream.
#[derive(Debug)]
pub struct RequestPlan<A, B> {
    pub cookie: u64,
    pub variable: A,
    pub fixed: B,
}

/// The capture requests that the buffers of the two streams make: one for each
/// pair of buffers, numbered from 0. Where one stream has more buffers, those
/// that find no partner are left out.
pub open spec fn paired<A, B>(variable: Seq<A>, fixed: Seq<B>) -> Seq<RequestPlan<A, B>> {
    let count = if variable.len() <= fixed.len() {
        variable.len()
    } else {
        fixed.len()
    };
    Seq::new(
        count,
        |i: int| RequestPlan { cookie: i as u64, variable: variable[i], fixed: fixed[i] },
    )
}

/// Pairs the buffers of the two streams into capture requests.
pub fn plan_requests<A, B>(variable: Vec<A>, fixed: Vec<B>) -> (plans: Vec<RequestPlan<A, B>>)
    ensures
        plans@ == paired(variable@, fixed@),
        plans@.len() <= variable@.len(),
        plans@.len() <= fixed@.len(),
        plans@.len() == variable@.len() || plans@.len() == fixed@.len(),
        forall|i: int|
            0 <= i < plans@.len() ==> (#[trigger] plans@[i]).cookie == i && plans@[i].variable
                == variable@[i] && plans@[i].fixed == fixed@[i],
{
    let count: usize = if variable.len() <= fixed.len() {
        variable.len()
    } else {
        fixed.len()
    };
    let mut variable_left = variable;
    let mut fixed_left = fixed;
    variable_left.truncate(count);
    fixed_left.truncate(count);
    // The pairs come off the ends of the two lists, last pair first.
    let mut reversed: Vec<RequestPlan<A, B>> = Vec::new();
    let mut left: usize = count;
    while left > 0
        invariant
            count == paired(variable@, fixed@).len(),
            left <= count,
            variable_left@ == variable@.take(left as int),
            fixed_left@ == fixed@.take(left as int),
            variable_left@.len() == left,
            fixed_left@.len() == left,
            reversed@.len() == count - left,
            forall|i: int|
                0 <= i < reversed@.len() ==> #[trigger] reversed@[i] == paired(variable@, fixed@)[
                count - 1 - i],
        decreases left,
    {
        left -= 1;
        if let (Some(variable), Some(fixed)) = (variable_left.pop(), fixed_left.pop()) {
            reversed.push(RequestPlan { cookie: left as u64, variable, fixed });
        }
    }
    let mut plans: Vec<RequestPlan<A, B>> = Vec::new();
    while reversed.len() > 0
        invariant
            count == paired(variable@, fixed@).len(),
            plans@.len() + reversed@.len() == count,
            forall|i: int|
                0 <= i < reversed@.len() ==> #[trigger] reversed@[i] == paired(variable@, fixed@)[
                count - 1 - i],
            plans@ =~= paired(variable@, fixed@).take(plans@.len() as int),
        decreases reversed@.len(),
    {
        if let Some(plan) = reversed.pop() {
            plans.push(plan);
        }
    }
    plans
}

/// The requests are numbered from 0 by their cookies, so that no two have the
/// same one.
pub proof fn law_cookies_number_requests<A, B>(variable: Seq<A>, fixed: Seq<B>)
    requires
        variable.len() <= u64::MAX || fixed.len() <= u64::MAX,
    ensures
        forall|i: int|
            0 <= i < paired(variable, fixed).len() ==> (#[trigger] paired(variable, fixed)[i]).cookie
                == i,
{
}

/// Each request holds the buffers that stand at its number in the two lists, and
/// no buffer of the stream with fewer of them is left out.
pub proof fn law_buffers_keep_their_order<A, B>(variable: Seq<A>, fixed: Seq<B>)
    ensures
        paired(variable, fixed).map_values(|plan: RequestPlan<A, B>| plan.variable)
            == variable.take(paired(variable, fixed).len() as int),
        paired(variable, fixed).map_values(|plan: RequestPlan<A, B>| plan.fixed) == fixed.take(
            paired(variable, fixed).len() as int,
        ),
        paired(variable, fixed).len() <= variable.len(),
        paired(variable, fixed).len() <= fixed.len(),
        paired(variable, fixed).len() == variable.len() || paired(variable, fixed).len()
            == fixed.len(),
{
}

} // verus!
