use place_bot::config::ConfigOffset;
use place_bot::draw::{classify_draw, DrawReply, DrawResult, FailReason};
use place_bot::image::ReferenceImage;
use place_bot::placement::{
    on_draw_result, on_pixel_read, read_pixel, sample_target, target_at, AttemptFailure,
    AttemptStep, OracleError, PixelReply, PlacementTarget, WorkOutcome,
};

fn small_image() -> ReferenceImage {
    ReferenceImage::new(3, 2, vec![1, 2, 3, 4, 5, 6]).unwrap()
}

#[test]
fn target_adds_offset_to_sample() {
    let image = small_image();
    let offset = ConfigOffset { x: 100, y: 200 };
    let target = target_at(&image, offset, 2, 1);
    assert_eq!(target, PlacementTarget { absolute_x: 102, absolute_y: 201, desired: 6 });
    let first = target_at(&image, offset, 0, 0);
    assert_eq!(first, PlacementTarget { absolute_x: 100, absolute_y: 200, desired: 1 });
}

#[test]
fn target_near_the_end_of_the_coordinate_range_does_not_wrap() {
    let image = small_image();
    let offset = ConfigOffset { x: u32::MAX, y: u32::MAX };
    let target = target_at(&image, offset, 2, 1);
    assert_eq!(target.absolute_x, 4294967297);
    assert_eq!(target.absolute_y, 4294967296);
    assert_eq!(target.desired, 6);
}

#[test]
fn sampled_target_lies_in_the_image() {
    let image = small_image();
    let offset = ConfigOffset { x: 10, y: 20 };
    let mut seen = [false; 6];
    for _ in 0..2000 {
        let target = sample_target(&image, offset);
        assert!(target.absolute_x >= 10 && target.absolute_x < 13);
        assert!(target.absolute_y >= 20 && target.absolute_y < 22);
        let x = (target.absolute_x - 10) as u32;
        let y = (target.absolute_y - 20) as u32;
        assert_eq!(target.desired, image.desired(x, y));
        seen[(y * 3 + x) as usize] = true;
    }
    assert!(seen.iter().all(|s| *s));
}

#[test]
fn sampling_a_single_pixel_image_gives_that_pixel() {
    let image = ReferenceImage::new(1, 1, vec![9]).unwrap();
    let offset = ConfigOffset { x: 7, y: 8 };
    for _ in 0..20 {
        let target = sample_target(&image, offset);
        assert_eq!(target, PlacementTarget { absolute_x: 7, absolute_y: 8, desired: 9 });
    }
}

#[test]
fn matching_pixel_is_next_job_without_paint() {
    let target = PlacementTarget { absolute_x: 5, absolute_y: 6, desired: 3 };
    let step = on_pixel_read(target, read_pixel(PixelReply::Response { color: Some(3) }));
    assert_eq!(step, AttemptStep::Finish(WorkOutcome::NextJob));
}

#[test]
fn differing_pixel_painted_with_success_is_done() {
    let target = PlacementTarget { absolute_x: 5, absolute_y: 6, desired: 3 };
    let step = on_pixel_read(target, read_pixel(PixelReply::Response { color: Some(4) }));
    assert_eq!(step, AttemptStep::Paint(target));
    let result = classify_draw(DrawReply::Response { status: 200, wait_seconds: Some(5) });
    assert_eq!(on_draw_result(result), Ok(WorkOutcome::Done(5)));
}

#[test]
fn rate_limited_paint_is_wait() {
    let result = classify_draw(DrawReply::Response { status: 429, wait_seconds: Some(12) });
    assert_eq!(on_draw_result(result), Ok(WorkOutcome::Wait(12)));
}

#[test]
fn failed_paint_is_an_attempt_failure() {
    assert_eq!(
        on_draw_result(DrawResult::Failed(FailReason::Transport)),
        Err(AttemptFailure::Draw(FailReason::Transport))
    );
    assert_eq!(
        on_draw_result(DrawResult::Failed(FailReason::UnexpectedStatus(500))),
        Err(AttemptFailure::Draw(FailReason::UnexpectedStatus(500)))
    );
}

#[test]
fn failed_read_ends_the_attempt() {
    let target = PlacementTarget { absolute_x: 5, absolute_y: 6, desired: 3 };
    assert_eq!(read_pixel(PixelReply::NoResponse), Err(OracleError::Transport));
    assert_eq!(read_pixel(PixelReply::Response { color: None }), Err(OracleError::Decode));
    assert_eq!(
        on_pixel_read(target, Err(OracleError::Transport)),
        AttemptStep::Fail(AttemptFailure::Oracle(OracleError::Transport))
    );
    assert_eq!(
        on_pixel_read(target, Err(OracleError::Decode)),
        AttemptStep::Fail(AttemptFailure::Oracle(OracleError::Decode))
    );
}

#[test]
fn live_colour_beyond_a_byte_is_not_mistaken_for_the_wanted_one() {
    let target = PlacementTarget { absolute_x: 0, absolute_y: 0, desired: 3 };
    assert_eq!(on_pixel_read(target, Ok(259)), AttemptStep::Paint(target));
}
