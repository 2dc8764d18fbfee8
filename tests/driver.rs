use sdl3cube::{Driver, GpuCommand, Outcome};

const STARTUP: [GpuCommand; 20] = [
    GpuCommand::CreateWindow,
    GpuCommand::CreateDevice,
    GpuCommand::ReportBackend,
    GpuCommand::ClaimWindow,
    GpuCommand::CreateVertexShader,
    GpuCommand::CreateFragmentShader,
    GpuCommand::CreateVertexBuffer,
    GpuCommand::CreateIndexBuffer,
    GpuCommand::CreateTransferBuffer,
    GpuCommand::FillTransferBuffer,
    GpuCommand::AcquireCommandBuffer,
    GpuCommand::BeginCopyPass,
    GpuCommand::UploadVertices,
    GpuCommand::UploadIndices,
    GpuCommand::EndCopyPass,
    GpuCommand::SubmitAndAcquireFence,
    GpuCommand::WaitForFence,
    GpuCommand::ReleaseFence,
    GpuCommand::ReleaseTransferBuffer,
    GpuCommand::CreatePipeline,
];

const FRAME: [GpuCommand; 16] = [
    GpuCommand::PollInput,
    GpuCommand::Update,
    GpuCommand::AcquireCommandBuffer,
    GpuCommand::AcquireSwapchainTexture,
    GpuCommand::BeginRenderPass,
    GpuCommand::BindPipeline,
    GpuCommand::SetViewport,
    GpuCommand::BindVertexBuffer,
    GpuCommand::BindIndexBuffer,
    GpuCommand::PushWorldTransform,
    GpuCommand::PushModelTransform,
    GpuCommand::DrawIndexed,
    GpuCommand::EndRenderPass,
    GpuCommand::SubmitAndAcquireFence,
    GpuCommand::WaitForFence,
    GpuCommand::ReleaseFence,
];

// Runs the driver, failing the `fail_at`-th command (counting from zero) and
// asking to quit at the `quit_in_frame`-th frame; returns every command asked for.
fn run(fail_at: Option<usize>, quit_in_frame: usize) -> (Vec<GpuCommand>, bool) {
    let mut driver = Driver::new();
    let mut seen = Vec::new();
    let mut frames = 0;
    while let Some(command) = driver.next() {
        let outcome = if Some(seen.len()) == fail_at {
            Outcome::Failed
        } else if command == GpuCommand::PollInput {
            frames += 1;
            if frames == quit_in_frame {
                Outcome::QuitRequested
            } else {
                Outcome::Succeeded
            }
        } else {
            Outcome::Succeeded
        };
        seen.push(command);
        driver.complete(outcome);
        assert!(seen.len() < 10_000);
    }
    (seen, driver.failed())
}

#[test]
fn clean_run_starts_up_renders_until_quit_and_tears_down() {
    let (seen, failed) = run(None, 2);
    let mut expected = STARTUP.to_vec();
    expected.extend_from_slice(&FRAME);
    expected.extend_from_slice(&FRAME);
    expected.push(GpuCommand::Teardown);
    assert_eq!(seen, expected);
    assert!(!failed);
}

#[test]
fn quit_in_first_frame_still_finishes_that_frame() {
    let (seen, _) = run(None, 1);
    assert_eq!(seen.len(), 20 + 16 + 1);
    assert_eq!(seen[20 + 11], GpuCommand::DrawIndexed);
    assert_eq!(*seen.last().unwrap(), GpuCommand::Teardown);
}

#[test]
fn failure_before_any_fence_goes_straight_to_teardown() {
    let (seen, failed) = run(Some(3), 1);
    assert_eq!(
        seen,
        vec![
            GpuCommand::CreateWindow,
            GpuCommand::CreateDevice,
            GpuCommand::ReportBackend,
            GpuCommand::ClaimWindow,
            GpuCommand::Teardown,
        ]
    );
    assert!(failed);
}

#[test]
fn failed_upload_wait_releases_the_fence_first() {
    let (seen, failed) = run(Some(16), 1);
    assert_eq!(&seen[15..], &[
        GpuCommand::SubmitAndAcquireFence,
        GpuCommand::WaitForFence,
        GpuCommand::ReleaseFence,
        GpuCommand::Teardown,
    ]);
    assert!(failed);
    assert!(!seen.contains(&GpuCommand::DrawIndexed));
}

#[test]
fn failed_frame_submission_ends_the_run() {
    let (seen, failed) = run(Some(20 + 16 + 13), 5);
    assert_eq!(seen.len(), 20 + 16 + 14 + 1);
    assert_eq!(*seen.last().unwrap(), GpuCommand::Teardown);
    assert!(failed);
}

#[test]
fn failed_frame_wait_releases_the_fence_first() {
    let (seen, failed) = run(Some(20 + 14), 5);
    assert_eq!(&seen[20 + 13..], &[
        GpuCommand::SubmitAndAcquireFence,
        GpuCommand::WaitForFence,
        GpuCommand::ReleaseFence,
        GpuCommand::Teardown,
    ]);
    assert!(failed);
}
