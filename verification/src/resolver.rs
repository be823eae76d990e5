//! The search for the file of a model.
//!
//! A model is named by an identifier, which may be a path or a bare file
//! name. The identifier itself is tried first; then `models/<identifier>` and
//! `../models/<identifier>` under the working directory, in that order. The
//! first location that exists wins. The search asks one question at a time
//! and never asks one whose answer it does not need.

use crate::error::{ErrorKind, ErrorView, UpscaleError};
use crate::paths::{join_path, joined_path};
use vstd::prelude::*;
use vstd::string::StringExecFns;

verus! {

/// The mathematical value of the way a step of the driver ended: the text it
/// produced, or the detail of its failure.
pub open spec fn outcome_view(outcome: Result<String, String>) -> Result<Seq<char>, Seq<char>> {
    match outcome {
        Ok(text) => Ok(text@),
        Err(detail) => Err(detail@),
    }
}

/// Where `identifier` is looked for in the directory `folder` under
/// `working_dir`.
pub open spec fn fallback_location(
    working_dir: Seq<char>,
    folder: Seq<char>,
    identifier: Seq<char>,
) -> Seq<char> {
    joined_path(joined_path(working_dir, folder), identifier)
}

/// The detail of the failure of a search: the identifier and the two
/// fallback locations that were tried.
pub open spec fn not_found_detail(
    identifier: Seq<char>,
    first: Seq<char>,
    second: Seq<char>,
) -> Seq<char> {
    identifier + " (tried: "@ + first + ", "@ + second + ")"@
}

/// Whether `needle` occurs in `text` as a run of adjacent characters.
pub open spec fn occurs_in(needle: Seq<char>, text: Seq<char>) -> bool {
    exists|at: int|
        0 <= at && at + needle.len() <= text.len() && #[trigger] text.subrange(
            at,
            at + needle.len(),
        ) == needle
}

/// Which answer the search is waiting for.
#[derive(Clone, Copy, Debug, PartialEq, Eq, Structural)]
pub enum SearchStage {
    /// Whether the identifier itself names a file.
    Direct,
    /// What the working directory is.
    WorkingDir,
    /// Whether the first fallback location, under `models`, exists.
    ModelsDir,
    /// Whether the second fallback location, under `../models`, exists.
    ParentModelsDir,
}

/// A search in progress.
pub struct ModelSearch {
    identifier: String,
    stage: SearchStage,
    first: String,
    second: String,
}

/// The mathematical value of a [`ModelSearch`]. The two fallback locations
/// are empty until the working directory is known.
pub struct SearchView {
    pub identifier: Seq<char>,
    pub stage: SearchStage,
    pub first: Seq<char>,
    pub second: Seq<char>,
}

/// What the driver has to find out for the search.
#[derive(Debug)]
pub enum Query {
    /// Whether a file exists at this path: `Ok` if it does, `Err` if not.
    Exists(String),
    /// The working directory: `Ok` with its path, or `Err` with the reason
    /// why it cannot be had.
    WorkingDir,
}

/// The mathematical value of a [`Query`].
pub enum QueryView {
    Exists(Seq<char>),
    WorkingDir,
}

/// Where a search stands after an answer.
pub enum SearchStep {
    /// Another question is open.
    Pending(ModelSearch),
    /// The model is at this path.
    Found(String),
    /// The search is over without a model.
    Failed(UpscaleError),
}

/// The mathematical value of a [`SearchStep`].
pub enum SearchStepView {
    Pending(SearchView),
    Found(Seq<char>),
    Failed(ErrorView),
}

impl View for ModelSearch {
    type V = SearchView;

    closed spec fn view(&self) -> SearchView {
        SearchView {
            identifier: self.identifier@,
            stage: self.stage,
            first: self.first@,
            second: self.second@,
        }
    }
}

impl View for Query {
    type V = QueryView;

    open spec fn view(&self) -> QueryView {
        match self {
            Query::Exists(path) => QueryView::Exists(path@),
            Query::WorkingDir => QueryView::WorkingDir,
        }
    }
}

impl View for SearchStep {
    type V = SearchStepView;

    open spec fn view(&self) -> SearchStepView {
        match self {
            SearchStep::Pending(search) => SearchStepView::Pending(search@),
            SearchStep::Found(path) => SearchStepView::Found(path@),
            SearchStep::Failed(error) => SearchStepView::Failed(error@),
        }
    }
}

impl SearchView {
    /// The search for `identifier` before any answer.
    pub open spec fn start(identifier: Seq<char>) -> SearchView {
        SearchView {
            identifier,
            stage: SearchStage::Direct,
            first: Seq::empty(),
            second: Seq::empty(),
        }
    }

    /// How many questions the search asks at most before it is over, the
    /// open one included.
    pub open spec fn questions_left(self) -> nat {
        match self.stage {
            SearchStage::Direct => 4,
            SearchStage::WorkingDir => 3,
            SearchStage::ModelsDir => 2,
            SearchStage::ParentModelsDir => 1,
        }
    }

    /// The question that is open.
    pub open spec fn query(self) -> QueryView {
        match self.stage {
            SearchStage::Direct => QueryView::Exists(self.identifier),
            SearchStage::WorkingDir => QueryView::WorkingDir,
            SearchStage::ModelsDir => QueryView::Exists(self.first),
            SearchStage::ParentModelsDir => QueryView::Exists(self.second),
        }
    }

    /// Where the search stands once the open question is answered.
    pub open spec fn answer(self, outcome: Result<Seq<char>, Seq<char>>) -> SearchStepView {
        match self.stage {
            SearchStage::Direct => match outcome {
                Ok(_) => SearchStepView::Found(self.identifier),
                Err(_) => SearchStepView::Pending(
                    SearchView { stage: SearchStage::WorkingDir, ..self },
                ),
            },
            SearchStage::WorkingDir => match outcome {
                Ok(working_dir) => SearchStepView::Pending(
                    SearchView {
                        stage: SearchStage::ModelsDir,
                        first: fallback_location(working_dir, "models"@, self.identifier),
                        second: fallback_location(working_dir, "../models"@, self.identifier),
                        ..self
                    },
                ),
                Err(detail) => SearchStepView::Failed(
                    ErrorView { kind: ErrorKind::WorkingDirUnavailable, detail },
                ),
            },
            SearchStage::ModelsDir => match outcome {
                Ok(_) => SearchStepView::Found(self.first),
                Err(_) => SearchStepView::Pending(
                    SearchView { stage: SearchStage::ParentModelsDir, ..self },
                ),
            },
            SearchStage::ParentModelsDir => match outcome {
                Ok(_) => SearchStepView::Found(self.second),
                Err(_) => SearchStepView::Failed(
                    ErrorView {
                        kind: ErrorKind::ModelNotFound,
                        detail: not_found_detail(self.identifier, self.first, self.second),
                    },
                ),
            },
        }
    }
}

impl ModelSearch {
    /// Starts the search for the model named `identifier`.
    pub fn new(identifier: String) -> (search: ModelSearch)
        ensures
            search@ == SearchView::start(identifier@),
    {
        ModelSearch {
            identifier,
            stage: SearchStage::Direct,
            first: String::new(),
            second: String::new(),
        }
    }

    /// The question that the driver has to answer next.
    pub fn query(&self) -> (query: Query)
        ensures
            query@ == self@.query(),
    {
        match self.stage {
            SearchStage::Direct => Query::Exists(self.identifier.clone()),
            SearchStage::WorkingDir => Query::WorkingDir,
            SearchStage::ModelsDir => Query::Exists(self.first.clone()),
            SearchStage::ParentModelsDir => Query::Exists(self.second.clone()),
        }
    }

    /// Takes the answer to the open question: for a file, `Ok` if it exists
    /// and `Err` if it does not; for the working directory, its path or the
    /// reason why it cannot be had.
    pub fn answer(self, outcome: Result<String, String>) -> (step: SearchStep)
        ensures
            step@ == self@.answer(outcome_view(outcome)),
    {
        match self.stage {
            SearchStage::Direct => match outcome {
                Ok(_) => SearchStep::Found(self.identifier),
                Err(_) => SearchStep::Pending(
                    ModelSearch {
                        identifier: self.identifier,
                        stage: SearchStage::WorkingDir,
                        first: self.first,
                        second: self.second,
                    },
                ),
            },
            SearchStage::WorkingDir => match outcome {
                Ok(working_dir) => {
                    let models = join_path(working_dir.as_str(), "models");
                    let first = join_path(models.as_str(), self.identifier.as_str());
                    let parent_models = join_path(working_dir.as_str(), "../models");
                    let second = join_path(parent_models.as_str(), self.identifier.as_str());
                    SearchStep::Pending(
                        ModelSearch {
                            identifier: self.identifier,
                            stage: SearchStage::ModelsDir,
                            first,
                            second,
                        },
                    )
                },
                Err(detail) => SearchStep::Failed(
                    UpscaleError::new(ErrorKind::WorkingDirUnavailable, detail),
                ),
            },
            SearchStage::ModelsDir => match outcome {
                Ok(_) => SearchStep::Found(self.first),
                Err(_) => SearchStep::Pending(
                    ModelSearch {
                        identifier: self.identifier,
                        stage: SearchStage::ParentModelsDir,
                        first: self.first,
                        second: self.second,
                    },
                ),
            },
            SearchStage::ParentModelsDir => match outcome {
                Ok(_) => SearchStep::Found(self.second),
                Err(_) => {
                    let mut detail = self.identifier;
                    detail.append(" (tried: ");
                    detail.append(self.first.as_str());
                    detail.append(", ");
                    detail.append(self.second.as_str());
                    detail.append(")");
                    SearchStep::Failed(UpscaleError::new(ErrorKind::ModelNotFound, detail))
                },
            },
        }
    }
}

/// The middle of three texts put together occurs in the whole.
proof fn lemma_occurs_in_the_middle(before: Seq<char>, needle: Seq<char>, after: Seq<char>)
    ensures
        occurs_in(needle, before + needle + after),
{
    let text = before + needle + after;
    let at = before.len() as int;
    assert(text.subrange(at, at + needle.len()) =~= needle);
}

/// Every answer brings the search nearer to its end and leaves the
/// identifier as it is: a search is over after four answers at most.
pub proof fn lemma_search_comes_to_an_end(search: SearchView, outcome: Result<Seq<char>, Seq<char>>)
    ensures
        search.answer(outcome) matches SearchStepView::Pending(next) ==> next.questions_left()
            < search.questions_left() && next.identifier == search.identifier,
{
}

/// An identifier that names an existing file is the result of the search,
/// and the search is over with that first answer: the working directory and
/// the fallback locations are never asked about.
pub proof fn lemma_direct_hit_ends_the_search(identifier: Seq<char>, text: Seq<char>)
    ensures
        SearchView::start(identifier).query() == QueryView::Exists(identifier),
        SearchView::start(identifier).answer(Ok(text)) == SearchStepView::Found(identifier),
{
}

/// The locations are tried in their order, and the first that exists is the
/// result: the first fallback location if the identifier names no file, the
/// second only if the first does not exist either.
pub proof fn lemma_first_existing_location_wins(
    identifier: Seq<char>,
    working_dir: Seq<char>,
    absent: Seq<char>,
    present: Seq<char>,
)
    ensures
        ({
            let first = fallback_location(working_dir, "models"@, identifier);
            let second = fallback_location(working_dir, "../models"@, identifier);
            let asked_dir = SearchView::start(identifier).answer(Err(absent));
            &&& asked_dir matches SearchStepView::Pending(search)
            &&& search.query() == QueryView::WorkingDir
            &&& search.answer(Ok(working_dir)) matches SearchStepView::Pending(search)
            &&& search.query() == QueryView::Exists(first)
            &&& search.answer(Ok(present)) == SearchStepView::Found(first)
            &&& search.answer(Err(absent)) matches SearchStepView::Pending(search)
            &&& search.query() == QueryView::Exists(second)
            &&& search.answer(Ok(present)) == SearchStepView::Found(second)
        }),
{
}

/// Where the model exists at none of the three locations, the search fails,
/// and the message of the failure names the identifier and both fallback
/// locations that were tried.
pub proof fn lemma_failure_names_what_was_tried(
    identifier: Seq<char>,
    working_dir: Seq<char>,
    absent: Seq<char>,
)
    ensures
        ({
            let first = fallback_location(working_dir, "models"@, identifier);
            let second = fallback_location(working_dir, "../models"@, identifier);
            &&& SearchView::start(identifier).answer(Err(absent)) matches SearchStepView::Pending(
                search,
            )
            &&& search.answer(Ok(working_dir)) matches SearchStepView::Pending(search)
            &&& search.answer(Err(absent)) matches SearchStepView::Pending(search)
            &&& search.answer(Err(absent)) matches SearchStepView::Failed(error)
            &&& error.kind == ErrorKind::ModelNotFound
            &&& error.detail == not_found_detail(identifier, first, second)
            &&& occurs_in(identifier, error.message())
            &&& occurs_in(first, error.message())
            &&& occurs_in(second, error.message())
        }),
{
    let first = fallback_location(working_dir, "models"@, identifier);
    let second = fallback_location(working_dir, "../models"@, identifier);
    let error = ErrorView {
        kind: ErrorKind::ModelNotFound,
        detail: not_found_detail(identifier, first, second),
    };
    let prefix = ErrorKind::ModelNotFound.prefix();
    let message = error.message();
    lemma_occurs_in_the_middle(prefix, identifier, " (tried: "@ + first + ", "@ + second + ")"@);
    assert(message =~= prefix + identifier + (" (tried: "@ + first + ", "@ + second + ")"@));
    lemma_occurs_in_the_middle(prefix + identifier + " (tried: "@, first, ", "@ + second + ")"@);
    assert(message =~= prefix + identifier + " (tried: "@ + first + (", "@ + second + ")"@));
    lemma_occurs_in_the_middle(prefix + identifier + " (tried: "@ + first + ", "@, second, ")"@);
    assert(message =~= prefix + identifier + " (tried: "@ + first + ", "@ + second + ")"@);
}

} // verus!
