use rusty_rays_core::errors::WriteError;
use rusty_rays_core::image_data::{
    encoding_outcome, flatten_pixels, raw_to_image_data, write_render_to_image_buffer, NormalizedColor,
};
use rusty_rays_core::errors::RenderError;
use rusty_rays_core::render::{
    block_percent, next_ray, progress_plan, render_end, render_thread_count, render_threads, total_pixels, ProgressPlan,
    RayStep, RenderEvent,
};
use rusty_rays_core::scene::Screen;

#[test]
fn thread_count_is_bounded_by_cores_and_at_least_one() {
    assert_eq!(render_thread_count(8, 4), 4);
    assert_eq!(render_thread_count(2, 4), 2);
    assert_eq!(render_thread_count(0, 4), 1);
    assert_eq!(render_threads(1), 1);
    assert!(render_threads(0) >= 1);
}

#[test]
fn progress_plans() {
    assert_eq!(progress_plan(100, Some(10)), Some(ProgressPlan { num_blocks: 10, block_size: 10 }));
    assert_eq!(progress_plan(5, Some(10)), Some(ProgressPlan { num_blocks: 10, block_size: 1 }));
    assert_eq!(progress_plan(250_000, Some(100)), Some(ProgressPlan { num_blocks: 100, block_size: 2500 }));
    assert_eq!(progress_plan(100, Some(0)), None);
    assert_eq!(progress_plan(100, None), None);
}

#[test]
fn progress_percentages() {
    let p = ProgressPlan { num_blocks: 3, block_size: 1 };
    assert_eq!(block_percent(&p, 1), Some(33));
    assert_eq!(block_percent(&p, 2), Some(66));
    assert_eq!(block_percent(&p, 3), Some(100));
    assert_eq!(block_percent(&p, 4), None);
}

#[test]
fn ray_indices_walk_the_screen_row_by_row() {
    let screen = Screen { width: 4, height: 3 };
    assert_eq!(total_pixels(screen), 12);
    let plan = progress_plan(12, Some(4));
    assert_eq!(next_ray(screen, &plan, 0), RayStep::Trace { i: 0, j: 0, report: true });
    assert_eq!(next_ray(screen, &plan, 5), RayStep::Trace { i: 1, j: 1, report: false });
    assert_eq!(next_ray(screen, &plan, 6), RayStep::Trace { i: 2, j: 1, report: true });
    assert_eq!(next_ray(screen, &plan, 11), RayStep::Trace { i: 3, j: 2, report: false });
    assert_eq!(next_ray(screen, &plan, 12), RayStep::Finished);
    assert_eq!(next_ray(screen, &None, 3), RayStep::Trace { i: 3, j: 0, report: false });
}

fn px(v: u8) -> NormalizedColor {
    NormalizedColor { r: v, g: v + 1, b: v + 2 }
}

#[test]
fn pixels_are_laid_out_row_after_row() {
    let rows = vec![vec![px(0), px(10)], vec![px(20), px(30)]];
    assert_eq!(flatten_pixels(&rows), vec![0, 1, 2, 10, 11, 12, 20, 21, 22, 30, 31, 32]);
    match raw_to_image_data(&rows) {
        Ok((w, h, data)) => {
            assert_eq!((w, h), (2, 2));
            assert_eq!(data.len(), 12);
        }
        Err(e) => panic!("unexpected error {:?}", e),
    }
}

#[test]
fn ragged_rows_do_not_fill_an_image() {
    let rows = vec![vec![px(0), px(10)], vec![px(20)]];
    match raw_to_image_data(&rows) {
        Ok(_) => panic!("expected an error"),
        Err(e) => {
            assert_eq!(e, WriteError("cannot write raw render data into image format".to_string()));
            assert_eq!(
                e.message(),
                "failed to write render data to file. Error: cannot write raw render data into image format"
            );
        }
    }
}

#[test]
fn images_encode_in_memory() {
    let rows = vec![vec![px(0), px(10)], vec![px(20), px(30)]];
    let bmp = write_render_to_image_buffer("bmp".to_string(), &rows).unwrap();
    assert_eq!(&bmp[0..2], b"BM");
    let png = write_render_to_image_buffer("PNG".to_string(), &rows).unwrap();
    assert_eq!(&png[0..4], b"\x89PNG");
    assert_eq!(
        write_render_to_image_buffer("txt".to_string(), &rows),
        Err(WriteError("unsupported image format: txt".to_string()))
    );
    assert_eq!(
        write_render_to_image_buffer("tga2".to_string(), &vec![]),
        Err(WriteError("unsupported image format: tga2".to_string()))
    );
    let ragged = vec![vec![px(0), px(10)], vec![px(20)]];
    assert_eq!(
        write_render_to_image_buffer("png".to_string(), &ragged),
        Err(WriteError("cannot write raw render data into image format".to_string()))
    );
    match write_render_to_image_buffer("jpg".to_string(), &rows) {
        Ok(_) => panic!("the jpeg encoder is not built"),
        Err(e) => assert!(e.0.starts_with("cannot encode image to \"jpg\". Error: "), "{}", e.0),
    }
}

#[test]
fn encoding_errors_name_the_format() {
    assert_eq!(encoding_outcome("png", Ok(vec![1, 2])), Ok(vec![1, 2]));
    assert_eq!(
        encoding_outcome("gif", Err("no encoder".to_string())),
        Err(WriteError("cannot encode image to \"gif\". Error: no encoder".to_string()))
    );
}

#[test]
fn events_that_end_a_render() {
    assert_eq!(render_end(false, false, 12), (vec![RenderEvent::Finished { millis: 12 }], None));
    assert_eq!(
        render_end(false, true, 7),
        (vec![RenderEvent::Canceled { millis: 7 }, RenderEvent::Finished { millis: 7 }], None)
    );
    assert_eq!(
        render_end(true, true, 7),
        (
            vec![RenderEvent::Error("render threads did not exit properly".to_string())],
            Some(RenderError("render threads did not exit properly".to_string()))
        )
    );
}
