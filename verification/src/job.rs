//! The steps of one upscale request.
//!
//! A job decides; a driver acts. The job names the step to perform next as a
//! [`Command`]; the driver performs it, where it may block, and hands back how
//! it ended: `Ok` with the text the step produced, if any, or `Err` with the
//! detail of the failure. For a step that asks whether something exists `Ok`
//! means that it does. The job ends with the path of the written file or with
//! the first failure.
//!
//! The order of the steps: decode the input, find the model, load it, run the
//! pipeline, make sure the output directory exists, encode the result.

use crate::error::{ErrorKind, ErrorView, UpscaleError};
use crate::naming::{file_name_for, output_file_name};
use crate::paths::{extension_of, file_stem_of, join_path, joined_path};
use crate::resolver::{
    outcome_view, ModelSearch, Query, QueryView, SearchStep, SearchStepView, SearchView,
};
use crate::token::CancellationToken;
use vstd::prelude::*;

verus! {

/// What is asked for: the input image, the model, the directory for the
/// output, and the target scale with its fraction cut off, which goes into
/// the name of the output file.
#[derive(Debug)]
pub struct UpscaleRequest {
    pub input_path: String,
    pub model_path: String,
    pub output_dir: String,
    pub scale: i32,
}

/// The mathematical value of an [`UpscaleRequest`].
pub struct RequestView {
    pub input_path: Seq<char>,
    pub model_path: Seq<char>,
    pub output_dir: Seq<char>,
    pub scale: int,
}

impl RequestView {
    /// The path of the output file: its name, joined to the output directory.
    pub open spec fn output_location(self) -> Seq<char> {
        joined_path(
            self.output_dir,
            file_name_for(
                file_stem_of(self.input_path),
                extension_of(self.input_path),
                self.scale,
            ),
        )
    }
}

impl View for UpscaleRequest {
    type V = RequestView;

    open spec fn view(&self) -> RequestView {
        RequestView {
            input_path: self.input_path@,
            model_path: self.model_path@,
            output_dir: self.output_dir@,
            scale: self.scale as int,
        }
    }
}

/// A step for the driver to perform.
#[derive(Debug)]
pub enum Command {
    /// Decode the image at this path.
    ReadImage(String),
    /// Tell whether a file exists at this path.
    FileExists(String),
    /// Tell the working directory.
    CurrentDir,
    /// Load the model from this path.
    LoadModel(String),
    /// Run the pipeline on the decoded image with the loaded model; the
    /// pipeline polls the flag of this token.
    RunPipeline(CancellationToken),
    /// Tell whether the directory at this path exists.
    DirExists(String),
    /// Create the directory at this path, and its parents.
    CreateDirs(String),
    /// Encode the upscaled image and write it to this path.
    WriteImage(String),
}

/// The mathematical value of a [`Command`].
pub enum CommandView {
    ReadImage(Seq<char>),
    FileExists(Seq<char>),
    CurrentDir,
    LoadModel(Seq<char>),
    RunPipeline(CancellationToken),
    DirExists(Seq<char>),
    CreateDirs(Seq<char>),
    WriteImage(Seq<char>),
}

impl View for Command {
    type V = CommandView;

    open spec fn view(&self) -> CommandView {
        match self {
            Command::ReadImage(path) => CommandView::ReadImage(path@),
            Command::FileExists(path) => CommandView::FileExists(path@),
            Command::CurrentDir => CommandView::CurrentDir,
            Command::LoadModel(path) => CommandView::LoadModel(path@),
            Command::RunPipeline(token) => CommandView::RunPipeline(*token),
            Command::DirExists(path) => CommandView::DirExists(path@),
            Command::CreateDirs(path) => CommandView::CreateDirs(path@),
            Command::WriteImage(path) => CommandView::WriteImage(path@),
        }
    }
}

enum Stage {
    Decoding,
    Resolving(ModelSearch),
    Loading(String),
    Running,
    CheckingOutputDir(String),
    CreatingOutputDir(String),
    Encoding(String),
}

/// The step that a job is waiting for.
pub enum StageView {
    /// The input is being decoded.
    Decoding,
    /// The model is being searched for.
    Resolving(SearchView),
    /// The model at this path is being loaded.
    Loading(Seq<char>),
    /// The pipeline is running.
    Running,
    /// The output directory is being looked for; the output goes to this
    /// path.
    CheckingOutputDir(Seq<char>),
    /// The output directory is being created; the output goes to this path.
    CreatingOutputDir(Seq<char>),
    /// The output is being written to this path.
    Encoding(Seq<char>),
}

impl StageView {
    /// How many steps the job performs at most before it is over, the step
    /// it is waiting for included.
    pub open spec fn steps_left(self) -> nat {
        match self {
            StageView::Decoding => 10,
            StageView::Resolving(search) => 5 + search.questions_left(),
            StageView::Loading(_) => 5,
            StageView::Running => 4,
            StageView::CheckingOutputDir(_) => 3,
            StageView::CreatingOutputDir(_) => 2,
            StageView::Encoding(_) => 1,
        }
    }
}

impl View for Stage {
    type V = StageView;

    closed spec fn view(&self) -> StageView {
        match self {
            Stage::Decoding => StageView::Decoding,
            Stage::Resolving(search) => StageView::Resolving(search@),
            Stage::Loading(path) => StageView::Loading(path@),
            Stage::Running => StageView::Running,
            Stage::CheckingOutputDir(path) => StageView::CheckingOutputDir(path@),
            Stage::CreatingOutputDir(path) => StageView::CreatingOutputDir(path@),
            Stage::Encoding(path) => StageView::Encoding(path@),
        }
    }
}

/// One upscale request on its way through the steps.
pub struct UpscaleJob {
    request: UpscaleRequest,
    token: CancellationToken,
    stage: Stage,
}

/// The mathematical value of an [`UpscaleJob`].
pub struct JobView {
    pub request: RequestView,
    pub token: CancellationToken,
    pub stage: StageView,
}

impl View for UpscaleJob {
    type V = JobView;

    closed spec fn view(&self) -> JobView {
        JobView { request: self.request@, token: self.token, stage: self.stage@ }
    }
}

/// Where a job stands after a step.
pub enum Progress {
    /// Another step is to be performed.
    Pending(UpscaleJob),
    /// The job is over: the path of the written file, or the failure.
    Finished(Result<String, UpscaleError>),
}

/// The mathematical value of the end of a job.
pub open spec fn result_view(result: Result<String, UpscaleError>) -> Result<Seq<char>, ErrorView> {
    match result {
        Ok(path) => Ok(path@),
        Err(error) => Err(error@),
    }
}

/// The mathematical value of a [`Progress`].
pub enum ProgressView {
    Pending(JobView),
    Finished(Result<Seq<char>, ErrorView>),
}

impl View for Progress {
    type V = ProgressView;

    open spec fn view(&self) -> ProgressView {
        match self {
            Progress::Pending(job) => ProgressView::Pending(job@),
            Progress::Finished(result) => ProgressView::Finished(result_view(*result)),
        }
    }
}

/// The end of a job at the failure of a step.
pub open spec fn failed(kind: ErrorKind, detail: Seq<char>) -> ProgressView {
    ProgressView::Finished(Err(ErrorView { kind, detail }))
}

impl JobView {
    /// The job for `request` before any step: the input is to be decoded.
    pub open spec fn start(request: RequestView, token: CancellationToken) -> JobView {
        JobView { request, token, stage: StageView::Decoding }
    }

    /// The job at another stage.
    pub open spec fn at(self, stage: StageView) -> ProgressView {
        ProgressView::Pending(JobView { stage, ..self })
    }

    /// The step that the driver has to perform next.
    pub open spec fn command(self) -> CommandView {
        match self.stage {
            StageView::Decoding => CommandView::ReadImage(self.request.input_path),
            StageView::Resolving(search) => match search.query() {
                QueryView::Exists(path) => CommandView::FileExists(path),
                QueryView::WorkingDir => CommandView::CurrentDir,
            },
            StageView::Loading(path) => CommandView::LoadModel(path),
            StageView::Running => CommandView::RunPipeline(self.token),
            StageView::CheckingOutputDir(_) => CommandView::DirExists(self.request.output_dir),
            StageView::CreatingOutputDir(_) => CommandView::CreateDirs(self.request.output_dir),
            StageView::Encoding(path) => CommandView::WriteImage(path),
        }
    }

    /// Where the job stands once the step it named has ended with `outcome`.
    pub open spec fn advance(self, outcome: Result<Seq<char>, Seq<char>>) -> ProgressView {
        match self.stage {
            StageView::Decoding => match outcome {
                Ok(_) => self.at(StageView::Resolving(SearchView::start(self.request.model_path))),
                Err(detail) => failed(ErrorKind::InputUnreadable, detail),
            },
            StageView::Resolving(search) => match search.answer(outcome) {
                SearchStepView::Pending(search) => self.at(StageView::Resolving(search)),
                SearchStepView::Found(path) => self.at(StageView::Loading(path)),
                SearchStepView::Failed(error) => ProgressView::Finished(Err(error)),
            },
            StageView::Loading(_) => match outcome {
                Ok(_) => self.at(StageView::Running),
                Err(detail) => failed(ErrorKind::ModelLoadFailed, detail),
            },
            StageView::Running => match outcome {
                Ok(_) => self.at(StageView::CheckingOutputDir(self.request.output_location())),
                Err(detail) => failed(ErrorKind::PipelineFailed, detail),
            },
            StageView::CheckingOutputDir(path) => match outcome {
                Ok(_) => self.at(StageView::Encoding(path)),
                Err(_) => self.at(StageView::CreatingOutputDir(path)),
            },
            StageView::CreatingOutputDir(path) => match outcome {
                Ok(_) => self.at(StageView::Encoding(path)),
                Err(detail) => failed(ErrorKind::OutputDirFailed, detail),
            },
            StageView::Encoding(path) => match outcome {
                Ok(_) => ProgressView::Finished(Ok(path)),
                Err(detail) => failed(ErrorKind::OutputWriteFailed, detail),
            },
        }
    }
}

impl UpscaleJob {
    /// Starts the job for `request`, whose pipeline run will poll `token`.
    pub fn new(request: UpscaleRequest, token: CancellationToken) -> (job: UpscaleJob)
        ensures
            job@ == JobView::start(request@, token),
    {
        UpscaleJob { request, token, stage: Stage::Decoding }
    }

    /// The token that the pipeline run of this job polls.
    pub fn token(&self) -> (token: CancellationToken)
        ensures
            token == self@.token,
    {
        self.token
    }

    /// The step that the driver has to perform next.
    pub fn command(&self) -> (command: Command)
        ensures
            command@ == self@.command(),
    {
        match &self.stage {
            Stage::Decoding => Command::ReadImage(self.request.input_path.clone()),
            Stage::Resolving(search) => match search.query() {
                Query::Exists(path) => Command::FileExists(path),
                Query::WorkingDir => Command::CurrentDir,
            },
            Stage::Loading(path) => Command::LoadModel(path.clone()),
            Stage::Running => Command::RunPipeline(self.token),
            Stage::CheckingOutputDir(_) => Command::DirExists(self.request.output_dir.clone()),
            Stage::CreatingOutputDir(_) => Command::CreateDirs(self.request.output_dir.clone()),
            Stage::Encoding(path) => Command::WriteImage(path.clone()),
        }
    }

    /// Takes the outcome of the step that [`UpscaleJob::command`] named and
    /// moves on: to the next step, or to the end of the job.
    pub fn advance(self, outcome: Result<String, String>) -> (progress: Progress)
        ensures
            progress@ == self@.advance(outcome_view(outcome)),
    {
        let UpscaleJob { request, token, stage } = self;
        match stage {
            Stage::Decoding => match outcome {
                Ok(_) => {
                    let search = ModelSearch::new(request.model_path.clone());
                    Progress::Pending(UpscaleJob { request, token, stage: Stage::Resolving(search) })
                },
                Err(detail) => Progress::Finished(
                    Err(UpscaleError::new(ErrorKind::InputUnreadable, detail)),
                ),
            },
            Stage::Resolving(search) => match search.answer(outcome) {
                SearchStep::Pending(search) => Progress::Pending(
                    UpscaleJob { request, token, stage: Stage::Resolving(search) },
                ),
                SearchStep::Found(path) => Progress::Pending(
                    UpscaleJob { request, token, stage: Stage::Loading(path) },
                ),
                SearchStep::Failed(error) => Progress::Finished(Err(error)),
            },
            Stage::Loading(_) => match outcome {
                Ok(_) => Progress::Pending(UpscaleJob { request, token, stage: Stage::Running }),
                Err(detail) => Progress::Finished(
                    Err(UpscaleError::new(ErrorKind::ModelLoadFailed, detail)),
                ),
            },
            Stage::Running => match outcome {
                Ok(_) => {
                    let name = output_file_name(request.input_path.as_str(), request.scale);
                    let path = join_path(request.output_dir.as_str(), name.as_str());
                    Progress::Pending(
                        UpscaleJob { request, token, stage: Stage::CheckingOutputDir(path) },
                    )
                },
                Err(detail) => Progress::Finished(
                    Err(UpscaleError::new(ErrorKind::PipelineFailed, detail)),
                ),
            },
            Stage::CheckingOutputDir(path) => match outcome {
                Ok(_) => Progress::Pending(
                    UpscaleJob { request, token, stage: Stage::Encoding(path) },
                ),
                Err(_) => Progress::Pending(
                    UpscaleJob { request, token, stage: Stage::CreatingOutputDir(path) },
                ),
            },
            Stage::CreatingOutputDir(path) => match outcome {
                Ok(_) => Progress::Pending(
                    UpscaleJob { request, token, stage: Stage::Encoding(path) },
                ),
                Err(detail) => Progress::Finished(
                    Err(UpscaleError::new(ErrorKind::OutputDirFailed, detail)),
                ),
            },
            Stage::Encoding(path) => match outcome {
                Ok(_) => Progress::Finished(Ok(path)),
                Err(detail) => Progress::Finished(
                    Err(UpscaleError::new(ErrorKind::OutputWriteFailed, detail)),
                ),
            },
        }
    }
}

/// Every step brings a job nearer to its end, and the job keeps its request
/// and its token: a driver that performs step after step is done after ten
/// steps at most.
pub proof fn lemma_job_comes_to_an_end(job: JobView, outcome: Result<Seq<char>, Seq<char>>)
    ensures
        job.advance(outcome) matches ProgressView::Pending(next) ==> next.stage.steps_left()
            < job.stage.steps_left() && next.request == job.request && next.token == job.token,
{
}

/// A job ends with the failure of the first step that fails: where the
/// input cannot be decoded nothing else is tried, and the message carries the
/// detail that the step reported.
pub proof fn lemma_failed_step_ends_the_job(job: JobView, detail: Seq<char>)
    ensures
        job.stage is Decoding ==> job.advance(Err(detail)) == failed(
            ErrorKind::InputUnreadable,
            detail,
        ),
        job.stage is Loading ==> job.advance(Err(detail)) == failed(
            ErrorKind::ModelLoadFailed,
            detail,
        ),
        job.stage is Running ==> job.advance(Err(detail)) == failed(
            ErrorKind::PipelineFailed,
            detail,
        ),
        job.stage is CreatingOutputDir ==> job.advance(Err(detail)) == failed(
            ErrorKind::OutputDirFailed,
            detail,
        ),
        job.stage is Encoding ==> job.advance(Err(detail)) == failed(
            ErrorKind::OutputWriteFailed,
            detail,
        ),
{
}

} // verus!
