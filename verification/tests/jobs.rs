use moss_tasks::error::{ErrorKind, UpscaleError};
use moss_tasks::job::{Command, Progress, UpscaleJob, UpscaleRequest};
use moss_tasks::orchestrator::{begin_upscale, cancel_upscale, finish_upscale};
use moss_tasks::registry::ProcessingState;
use moss_tasks::token::{CancelFlags, CancellationToken};
use std::path::Path;

fn request(input: &str, model: &str, output_dir: &str, scale: i32) -> UpscaleRequest {
    UpscaleRequest {
        input_path: input.to_string(),
        model_path: model.to_string(),
        output_dir: output_dir.to_string(),
        scale,
    }
}

fn done() -> Result<String, String> {
    Ok(String::new())
}

fn failed(detail: &str) -> Result<String, String> {
    Err(detail.to_string())
}

fn next(progress: Progress) -> UpscaleJob {
    match progress {
        Progress::Pending(job) => job,
        Progress::Finished(Ok(path)) => panic!("the job ended at {}", path),
        Progress::Finished(Err(error)) => panic!("the job failed: {}", error.message()),
    }
}

fn failure(progress: Progress) -> UpscaleError {
    match progress {
        Progress::Finished(Err(error)) => error,
        Progress::Finished(Ok(path)) => panic!("the job ended at {}", path),
        Progress::Pending(_) => panic!("the job goes on"),
    }
}

fn fresh_job(input: &str, model: &str, output_dir: &str, scale: i32) -> UpscaleJob {
    let mut flags = CancelFlags::new();
    let token = CancellationToken::new(&mut flags);
    UpscaleJob::new(request(input, model, output_dir, scale), token)
}

fn joined(base: &str, tail: &str) -> String {
    Path::new(base).join(tail).to_string_lossy().to_string()
}

#[test]
fn job_runs_its_steps_in_order() {
    let mut flags = CancelFlags::new();
    let _ = CancellationToken::new(&mut flags);
    let token = CancellationToken::new(&mut flags);
    let job = UpscaleJob::new(request("in/photo.JPG", "model.bin", "out", 4), token);
    assert_eq!(job.token(), token);

    assert!(matches!(job.command(), Command::ReadImage(path) if path == "in/photo.JPG"));
    let job = next(job.advance(done()));
    assert!(matches!(job.command(), Command::FileExists(path) if path == "model.bin"));
    let job = next(job.advance(done()));
    assert!(matches!(job.command(), Command::LoadModel(path) if path == "model.bin"));
    let job = next(job.advance(done()));
    assert!(matches!(job.command(), Command::RunPipeline(polled) if polled == token));
    let job = next(job.advance(done()));
    assert!(matches!(job.command(), Command::DirExists(path) if path == "out"));
    let job = next(job.advance(done()));
    let expected = joined("out", "photo_x4.jpg");
    assert!(matches!(job.command(), Command::WriteImage(path) if path == expected));
    match job.advance(done()) {
        Progress::Finished(Ok(path)) => assert_eq!(path, expected),
        _ => panic!("the job must end with the output path"),
    }
}

#[test]
fn job_creates_a_missing_output_directory() {
    let job = fresh_job("scan", "model.bin", "out/deep", 2);
    let job = next(job.advance(done()));
    let job = next(job.advance(done()));
    let job = next(job.advance(done()));
    let job = next(job.advance(done()));
    assert!(matches!(job.command(), Command::DirExists(path) if path == "out/deep"));
    let job = next(job.advance(failed("")));
    assert!(matches!(job.command(), Command::CreateDirs(path) if path == "out/deep"));
    let job = next(job.advance(done()));
    let expected = joined("out/deep", "scan_x2.png");
    assert!(matches!(job.command(), Command::WriteImage(path) if path == expected));
    match job.advance(done()) {
        Progress::Finished(Ok(path)) => assert_eq!(path, expected),
        _ => panic!("the job must end with the output path"),
    }
}

#[test]
fn job_searches_the_fallback_locations() {
    let job = fresh_job("a.png", "m.bin", "out", 2);
    let job = next(job.advance(done()));
    assert!(matches!(job.command(), Command::FileExists(path) if path == "m.bin"));
    let job = next(job.advance(failed("")));
    assert!(matches!(job.command(), Command::CurrentDir));
    let job = next(job.advance(Ok("cwd".to_string())));
    let first = joined(&joined("cwd", "models"), "m.bin");
    let second = joined(&joined("cwd", "../models"), "m.bin");
    assert!(matches!(job.command(), Command::FileExists(path) if path == first));
    let job = next(job.advance(failed("")));
    assert!(matches!(job.command(), Command::FileExists(path) if path == second));
    let job = next(job.advance(done()));
    assert!(matches!(job.command(), Command::LoadModel(path) if path == second));
}

#[test]
fn unreadable_input_ends_the_job() {
    let job = fresh_job("a.png", "m.bin", "out", 2);
    let error = failure(job.advance(failed("not an image")));
    assert_eq!(error.kind(), ErrorKind::InputUnreadable);
    assert_eq!(error.message(), "Failed to read input image: not an image");
}

#[test]
fn unresolved_model_ends_the_job_with_the_diagnostic() {
    let job = fresh_job("a.png", "x.bin", "out", 2);
    let job = next(job.advance(done()));
    let job = next(job.advance(failed("")));
    let job = next(job.advance(Ok("cwd".to_string())));
    let job = next(job.advance(failed("")));
    let error = failure(job.advance(failed("")));
    assert_eq!(error.kind(), ErrorKind::ModelNotFound);
    let first = joined(&joined("cwd", "models"), "x.bin");
    let second = joined(&joined("cwd", "../models"), "x.bin");
    assert_eq!(
        error.message(),
        format!("model file not found: x.bin (tried: {}, {})", first, second)
    );
}

#[test]
fn unknown_working_dir_ends_the_job() {
    let job = fresh_job("a.png", "x.bin", "out", 2);
    let job = next(job.advance(done()));
    let job = next(job.advance(failed("")));
    let error = failure(job.advance(failed("gone")));
    assert_eq!(error.kind(), ErrorKind::WorkingDirUnavailable);
    assert_eq!(error.message(), "resolve cwd failed: gone");
}

#[test]
fn model_load_failure_ends_the_job() {
    let job = fresh_job("a.png", "m.bin", "out", 2);
    let job = next(job.advance(done()));
    let job = next(job.advance(done()));
    let error = failure(job.advance(failed("bad magic")));
    assert_eq!(error.kind(), ErrorKind::ModelLoadFailed);
    assert_eq!(error.message(), "Failed to load model: bad magic");
}

#[test]
fn pipeline_failure_ends_the_job() {
    let job = fresh_job("a.png", "m.bin", "out", 2);
    let job = next(job.advance(done()));
    let job = next(job.advance(done()));
    let job = next(job.advance(done()));
    let error = failure(job.advance(failed("cancelled")));
    assert_eq!(error.kind(), ErrorKind::PipelineFailed);
    assert_eq!(error.message(), "Upscale failed: cancelled");
}

#[test]
fn directory_creation_failure_ends_the_job() {
    let job = fresh_job("a.png", "m.bin", "out", 2);
    let job = next(job.advance(done()));
    let job = next(job.advance(done()));
    let job = next(job.advance(done()));
    let job = next(job.advance(done()));
    let job = next(job.advance(failed("")));
    let error = failure(job.advance(failed("read-only file system")));
    assert_eq!(error.kind(), ErrorKind::OutputDirFailed);
    assert_eq!(error.message(), "Failed to create output dir: read-only file system");
}

#[test]
fn write_failure_ends_the_job() {
    let job = fresh_job("a.png", "m.bin", "out", 2);
    let job = next(job.advance(done()));
    let job = next(job.advance(done()));
    let job = next(job.advance(done()));
    let job = next(job.advance(done()));
    let job = next(job.advance(done()));
    let error = failure(job.advance(failed("disk full")));
    assert_eq!(error.kind(), ErrorKind::OutputWriteFailed);
    assert_eq!(error.message(), "Failed to save output: disk full");
}

#[test]
fn every_error_kind_has_its_message() {
    let detail = || "why".to_string();
    let message = |kind: ErrorKind| UpscaleError::new(kind, detail()).message();
    assert_eq!(message(ErrorKind::LockPoisoned), "lock poisonedwhy");
    assert_eq!(UpscaleError::bare(ErrorKind::LockPoisoned).message(), "lock poisoned");
    assert_eq!(UpscaleError::bare(ErrorKind::NoActiveTask).message(), "no active task");
    assert_eq!(message(ErrorKind::InputUnreadable), "Failed to read input image: why");
    assert_eq!(message(ErrorKind::WorkingDirUnavailable), "resolve cwd failed: why");
    assert_eq!(message(ErrorKind::ModelNotFound), "model file not found: why");
    assert_eq!(message(ErrorKind::ModelLoadFailed), "Failed to load model: why");
    assert_eq!(message(ErrorKind::PipelineFailed), "Upscale failed: why");
    assert_eq!(message(ErrorKind::OutputDirFailed), "Failed to create output dir: why");
    assert_eq!(message(ErrorKind::OutputWriteFailed), "Failed to save output: why");
    assert_eq!(message(ErrorKind::WorkerJoinFailed), "spawn_blocking join error: why");
    assert_eq!(ErrorKind::PipelineFailed.prefix_text(), "Upscale failed: ");
}

#[test]
fn slot_is_empty_after_a_successful_upscale() {
    let mut flags = CancelFlags::new();
    let mut state = ProcessingState::default();
    let job = begin_upscale(&mut state, &mut flags, request("a.png", "m.bin", "out", 2))
        .expect("the lock is sound");
    assert_eq!(state.current(), Some(job.token()));
    assert!(!job.token().is_cancelled(&flags));
    let reply = finish_upscale(&mut state, Ok("out/a_x2.png".to_string()));
    assert_eq!(reply, Ok("out/a_x2.png".to_string()));
    assert_eq!(state.current(), None);
}

#[test]
fn slot_is_empty_after_a_failed_upscale() {
    let mut flags = CancelFlags::new();
    let mut state = ProcessingState::default();
    let job = begin_upscale(&mut state, &mut flags, request("a.png", "m.bin", "out", 2))
        .expect("the lock is sound");
    let error = failure(job.advance(failed("truncated file")));
    let reply = finish_upscale(&mut state, Err(error));
    assert_eq!(reply, Err("Failed to read input image: truncated file".to_string()));
    assert_eq!(state.current(), None);
}

#[test]
fn slot_is_empty_after_the_worker_ended_abnormally() {
    let mut flags = CancelFlags::new();
    let mut state = ProcessingState::default();
    let _job = begin_upscale(&mut state, &mut flags, request("a.png", "m.bin", "out", 2))
        .expect("the lock is sound");
    let error = UpscaleError::new(ErrorKind::WorkerJoinFailed, "task panicked".to_string());
    let reply = finish_upscale(&mut state, Err(error));
    assert_eq!(reply, Err("spawn_blocking join error: task panicked".to_string()));
    assert_eq!(state.current(), None);
}

#[test]
fn upscale_with_a_poisoned_lock_is_refused() {
    let mut flags = CancelFlags::new();
    let mut state = ProcessingState::default();
    state.poison();
    let reply = begin_upscale(&mut state, &mut flags, request("a.png", "m.bin", "out", 2));
    assert_eq!(reply.err(), Some("lock poisoned".to_string()));
    assert_eq!(state.current(), None);
    assert_eq!(flags.len(), 1);
}

#[test]
fn cancel_during_a_run_sets_the_flag_the_pipeline_polls() {
    let mut flags = CancelFlags::new();
    let mut state = ProcessingState::default();
    let job = begin_upscale(&mut state, &mut flags, request("a.png", "m.bin", "out", 2))
        .expect("the lock is sound");
    let job = next(job.advance(done()));
    let job = next(job.advance(done()));
    let job = next(job.advance(done()));
    let polled = match job.command() {
        Command::RunPipeline(token) => token,
        _ => panic!("the pipeline is to run"),
    };
    assert!(!polled.is_cancelled(&flags));
    assert_eq!(cancel_upscale(&state, &mut flags), Ok(()));
    assert!(polled.is_cancelled(&flags));
    let error = failure(job.advance(failed("cancelled")));
    let reply = finish_upscale(&mut state, Err(error));
    assert_eq!(reply, Err("Upscale failed: cancelled".to_string()));
    assert_eq!(state.current(), None);
    assert_eq!(cancel_upscale(&state, &mut flags), Err("no active task".to_string()));
}

#[test]
fn second_request_takes_the_slot_over() {
    let mut flags = CancelFlags::new();
    let mut state = ProcessingState::default();
    let job_a = begin_upscale(&mut state, &mut flags, request("a.png", "m.bin", "out", 2))
        .expect("the lock is sound");
    let job_b = begin_upscale(&mut state, &mut flags, request("b.png", "m.bin", "out", 2))
        .expect("the lock is sound");
    let (token_a, token_b) = (job_a.token(), job_b.token());
    assert_ne!(token_a, token_b);
    assert_eq!(state.current(), Some(token_b));

    assert_eq!(cancel_upscale(&state, &mut flags), Ok(()));
    assert!(token_b.is_cancelled(&flags));
    assert!(!token_a.is_cancelled(&flags));

    let reply = finish_upscale(&mut state, Ok("out/a_x2.png".to_string()));
    assert_eq!(reply, Ok("out/a_x2.png".to_string()));
    assert_eq!(state.current(), None);
    assert_eq!(cancel_upscale(&state, &mut flags), Err("no active task".to_string()));
    assert!(!token_a.is_cancelled(&flags));

    let reply = finish_upscale(&mut state, Err(UpscaleError::new(
        ErrorKind::PipelineFailed,
        "cancelled".to_string(),
    )));
    assert_eq!(reply, Err("Upscale failed: cancelled".to_string()));
    assert_eq!(state.current(), None);
}

#[test]
fn finish_leaves_a_poisoned_slot_alone() {
    let mut flags = CancelFlags::new();
    let mut state = ProcessingState::default();
    let job = begin_upscale(&mut state, &mut flags, request("a.png", "m.bin", "out", 2))
        .expect("the lock is sound");
    state.poison();
    let reply = finish_upscale(&mut state, Ok("p".to_string()));
    assert_eq!(reply, Ok("p".to_string()));
    assert_eq!(state.current(), Some(job.token()));
}
