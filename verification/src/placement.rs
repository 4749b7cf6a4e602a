//! One placement attempt: pick a pixel of the reference image, compare it
//! with the canvas, and paint it where the canvas differs.
//!
//! The attempt is cut at its two network calls. `sample_target` opens it;
//! the caller reads the canvas and hands the answer to `on_pixel_read`,
//! which either ends the attempt or asks for a paint request; the caller
//! sends that and hands the classified answer to `on_draw_result`.

use crate::config::ConfigOffset;
use crate::draw::{DrawResult, FailReason};
use crate::image::ReferenceImage;
use rand::Rng;
use vstd::prelude::*;

verus! {

/// `rand::rngs::ThreadRng`, the random number generator that a thread has
/// for itself. Nothing is known of its state.
#[verifier::external_type_specification]
#[verifier::external_body]
pub struct ExThreadGenerator(rand::rngs::ThreadRng);

/// Calls `rand::thread_rng`, which hands out the calling thread's own
/// generator, seeded by the system. Nothing is promised of it.
#[verifier::external_body]
fn thread_generator() -> rand::rngs::ThreadRng {
    rand::thread_rng()
}

/// Calls `rand::Rng::gen_range` on the range from 0 up to and excluding
/// `bound`. The call panics on an empty range, so `bound` is positive; the
/// number it returns lies in the range.
#[verifier::external_body]
fn sample_below(generator: &mut rand::rngs::ThreadRng, bound: u32) -> (n: u32)
    requires
        bound > 0,
    ensures
        n < bound,
{
    generator.gen_range(0..bound)
}

/// The pixel that one attempt is about: where it lies on the canvas and the
/// palette index it should have.
#[derive(Clone, Copy, Debug, PartialEq, Eq)]
pub struct PlacementTarget {
    pub absolute_x: u64,
    pub absolute_y: u64,
    pub desired: u8,
}

/// What one attempt gave.
#[derive(Clone, Copy, Debug, PartialEq, Eq)]
pub enum WorkOutcome {
    /// The pixel was painted; the next paint may follow after that many
    /// seconds.
    Done(u32),
    /// The paint was refused for cooldown; wait that many seconds.
    Wait(u32),
    /// The canvas already shows the wanted colour: try another pixel.
    NextJob,
}

/// Why the canvas could not be read.
#[derive(Clone, Copy, Debug, PartialEq, Eq)]
pub enum OracleError {
    /// No response arrived.
    Transport,
    /// The body of the response could not be decoded.
    Decode,
}

/// Why an attempt gave no outcome.
#[derive(Clone, Copy, Debug, PartialEq, Eq)]
pub enum AttemptFailure {
    /// The canvas could not be read.
    Oracle(OracleError),
    /// The paint request failed.
    Draw(FailReason),
}

/// The outcome of one round trip of a pixel read, as the transport reports
/// it.
#[derive(Clone, Copy, Debug, PartialEq, Eq)]
pub enum PixelReply {
    /// No response arrived.
    NoResponse,
    /// A response arrived: the `color` of its body where the body could be
    /// decoded.
    Response { color: Option<u32> },
}

/// How an attempt goes on once the canvas has been read.
#[derive(Clone, Copy, Debug, PartialEq, Eq)]
pub enum AttemptStep {
    /// The attempt is over with this outcome; nothing is to be sent.
    Finish(WorkOutcome),
    /// The attempt is over without an outcome; nothing is to be sent.
    Fail(AttemptFailure),
    /// Send a paint request for this pixel.
    Paint(PlacementTarget),
}

/// The target for pixel (`x`, `y`) of the image: the offset added to the
/// pixel's coordinates, and the palette index the image holds there.
pub open spec fn target_of(
    image: ReferenceImage,
    offset: ConfigOffset,
    x: int,
    y: int,
) -> PlacementTarget {
    PlacementTarget {
        absolute_x: (offset.x + x) as u64,
        absolute_y: (offset.y + y) as u64,
        desired: image.spec_desired(x, y),
    }
}

/// Whether `target` is the target of some pixel of the image.
pub open spec fn is_target_in(
    image: ReferenceImage,
    offset: ConfigOffset,
    target: PlacementTarget,
) -> bool {
    exists|x: int, y: int|
        0 <= x < image.spec_width() && 0 <= y < image.spec_height() && target == #[trigger] target_of(
            image,
            offset,
            x,
            y,
        )
}

/// The target for pixel (`x`, `y`) of the image.
pub fn target_at(image: &ReferenceImage, offset: ConfigOffset, x: u32, y: u32) -> (target:
    PlacementTarget)
    requires
        image.wf(),
        x < image.spec_width(),
        y < image.spec_height(),
    ensures
        target == target_of(*image, offset, x as int, y as int),
        target.absolute_x == offset.x + x,
        target.absolute_y == offset.y + y,
        is_target_in(*image, offset, target),
{
    let desired = image.desired(x, y);
    PlacementTarget {
        absolute_x: offset.x as u64 + x as u64,
        absolute_y: offset.y as u64 + y as u64,
        desired,
    }
}

/// Picks a pixel of the image at random and returns its target. The image
/// has at least one pixel.
pub fn sample_target(image: &ReferenceImage, offset: ConfigOffset) -> (target: PlacementTarget)
    requires
        image.wf(),
        image.spec_width() > 0,
        image.spec_height() > 0,
    ensures
        is_target_in(*image, offset, target),
{
    let mut generator = thread_generator();
    let x = sample_below(&mut generator, image.width());
    let y = sample_below(&mut generator, image.height());
    target_at(image, offset, x, y)
}

/// What a pixel read amounts to.
pub open spec fn pixel_of(reply: PixelReply) -> Result<u32, OracleError> {
    match reply {
        PixelReply::NoResponse => Err(OracleError::Transport),
        PixelReply::Response { color: None } => Err(OracleError::Decode),
        PixelReply::Response { color: Some(live) } => Ok(live),
    }
}

/// Reads the canvas colour out of the reply to a pixel read.
pub fn read_pixel(reply: PixelReply) -> (r: Result<u32, OracleError>)
    ensures
        r == pixel_of(reply),
{
    match reply {
        PixelReply::NoResponse => Err(OracleError::Transport),
        PixelReply::Response { color } => match color {
            None => Err(OracleError::Decode),
            Some(live) => Ok(live),
        },
    }
}

/// The step that follows a pixel read.
pub open spec fn step_after_read(target: PlacementTarget, read: Result<u32, OracleError>) -> AttemptStep {
    match read {
        Err(why) => AttemptStep::Fail(AttemptFailure::Oracle(why)),
        Ok(live) => if live == target.desired {
            AttemptStep::Finish(WorkOutcome::NextJob)
        } else {
            AttemptStep::Paint(target)
        },
    }
}

/// Decides how the attempt goes on once the canvas has been read: a canvas
/// that already shows the wanted colour ends it, another colour asks for a
/// paint request for the same pixel, a failed read ends it as a failure.
pub fn on_pixel_read(target: PlacementTarget, read: Result<u32, OracleError>) -> (step:
    AttemptStep)
    ensures
        step == step_after_read(target, read),
{
    match read {
        Err(why) => AttemptStep::Fail(AttemptFailure::Oracle(why)),
        Ok(live) => {
            if live == target.desired as u32 {
                AttemptStep::Finish(WorkOutcome::NextJob)
            } else {
                AttemptStep::Paint(target)
            }
        },
    }
}

/// What a classified paint request amounts to for the attempt.
pub open spec fn outcome_of_draw(result: DrawResult) -> Result<WorkOutcome, AttemptFailure> {
    match result {
        DrawResult::Accepted(seconds) => Ok(WorkOutcome::Done(seconds)),
        DrawResult::RateLimited(seconds) => Ok(WorkOutcome::Wait(seconds)),
        DrawResult::Failed(why) => Err(AttemptFailure::Draw(why)),
    }
}

/// Ends the attempt with the classified answer to its paint request.
pub fn on_draw_result(result: DrawResult) -> (r: Result<WorkOutcome, AttemptFailure>)
    ensures
        r == outcome_of_draw(result),
{
    match result {
        DrawResult::Accepted(seconds) => Ok(WorkOutcome::Done(seconds)),
        DrawResult::RateLimited(seconds) => Ok(WorkOutcome::Wait(seconds)),
        DrawResult::Failed(why) => Err(AttemptFailure::Draw(why)),
    }
}

/// Every target of the image lies in the image's rectangle on the canvas,
/// at the offset plus the pixel's own coordinates.
pub proof fn target_within_canvas_rectangle(
    image: ReferenceImage,
    offset: ConfigOffset,
    target: PlacementTarget,
)
    requires
        image.wf(),
        is_target_in(image, offset, target),
    ensures
        offset.x <= target.absolute_x < offset.x + image.spec_width(),
        offset.y <= target.absolute_y < offset.y + image.spec_height(),
        target.desired == image.spec_desired(
            target.absolute_x - offset.x,
            target.absolute_y - offset.y,
        ),
        target.desired < 16,
{
    let (x, y) = choose|x: int, y: int|
        0 <= x < image.spec_width() && 0 <= y < image.spec_height() && target == #[trigger] target_of(
            image,
            offset,
            x,
            y,
        );
    crate::image::flat_index_in_bounds(
        image.spec_width() as int,
        image.spec_height() as int,
        x,
        y,
    );
}

} // verus!
