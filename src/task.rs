//! Tasks, their results, and running one task on a worker's engine.
use crate::engine::{text_view, unit_view, Engine, EngineCall, EngineHandle};
use crate::error::TesserocrError;
use crate::image::{layout_of, normalize, normalized, ImageError, Layout, PixBuffer};
use vstd::prelude::*;

verus! {

/// The engine variable that holds the characters recognition must not produce.
pub const BLACKLIST_KEY: &'static str = "tessedit_char_blacklist";

/// One unit of recognition work.
#[derive(Debug)]
pub struct Task {
    pub id: u32,
    /// The raw pixels with the width and height; `None` asks for no work.
    pub image: Option<(Vec<u8>, u32, u32)>,
    /// Characters that the engine must never report for this image.
    pub blacklist: Option<String>,
}

/// A message on the task channel: a task, or `None` to stop the worker that
/// receives it.
pub type Message = Option<Task>;

/// Why a task failed.
#[derive(Debug)]
pub enum TaskError {
    /// The engine refused a configuration variable.
    Config(TesserocrError),
    /// The image buffer was refused before it reached the engine.
    Image(crate::image::ImageError),
    /// The engine failed to take the image or to produce text.
    Engine(TesserocrError),
    /// The task stopped abnormally; the worker goes on.
    Aborted(String),
}

/// The outcome of one task, tagged with the task's id.
#[derive(Debug)]
pub struct TaskResult {
    pub id: u32,
    /// `Ok(None)` for a task without an image.
    pub outcome: Result<Option<String>, TaskError>,
}

/// What the engine is asked to do for one image.
#[derive(Debug)]
pub struct Job {
    pub pix: PixBuffer,
    pub blacklist: Option<String>,
}

/// The model of an optional string.
pub open spec fn opt_view(s: Option<&str>) -> Option<Seq<char>> {
    match s {
        Some(v) => Some(v@),
        None => None,
    }
}

/// Prepares the engine's job for `image`: `None` when there is no image, the
/// image error when its buffer is refused, else the normalized image with the
/// blacklist.
pub fn prepare(image: Option<(Vec<u8>, u32, u32)>, blacklist: Option<&str>) -> (r: Option<
    Result<Job, ImageError>,
>)
    ensures
        image is None <==> r is None,
        image matches Some((buf, w, h)) ==> match layout_of(w, h, buf@.len()) {
            Err(e) => r == Some(Err::<Job, ImageError>(e)),
            Ok(layout) => r matches Some(Ok(job)) && job.pix.width == w && job.pix.height == h
                && job.pix.layout == layout && job.pix.data@ == normalized(buf@, layout) && match (
                job.blacklist,
                opt_view(blacklist),
            ) {
                (Some(b), Some(v)) => b@ == v,
                (None, None) => true,
                _ => false,
            },
        },
{
    match image {
        None => None,
        Some((buf, width, height)) => match normalize(buf.as_slice(), width, height) {
            Err(e) => Some(Err(e)),
            Ok(pix) => {
                let blacklist = match blacklist {
                    Some(b) => Some(b.to_string()),
                    None => None,
                };
                Some(Ok(Job { pix, blacklist }))
            },
        },
    }
}

/// The model of an owned optional string.
pub open spec fn opt_string_view(s: Option<String>) -> Option<Seq<char>> {
    match s {
        Some(v) => Some(v@),
        None => None,
    }
}

/// The model of an optional configuration answer.
pub open spec fn opt_unit_view(r: Option<Result<(), TesserocrError>>) -> Option<Result<(), Seq<char>>> {
    match r {
        Some(c) => Some(unit_view(c)),
        None => None,
    }
}

/// The model of an optional recognition answer.
pub open spec fn opt_text_view(r: Option<Result<String, TesserocrError>>) -> Option<
    Result<Seq<char>, Seq<char>>,
> {
    match r {
        Some(t) => Some(text_view(t)),
        None => None,
    }
}

/// What a task's result is, given the engine's answer to the blacklist (if
/// one was set) and to recognition (if it was run): a refused blacklist is a
/// configuration failure, else the recognized text or the engine's failure.
pub open spec fn outcome_matches(
    r: Result<String, TaskError>,
    config: Option<Result<(), Seq<char>>>,
    recognized: Option<Result<Seq<char>, Seq<char>>>,
) -> bool {
    match config {
        Some(Err(m)) => r matches Err(TaskError::Config(e)) && e.0@ == m,
        _ => match recognized {
            Some(Ok(t)) => r matches Ok(s) && s@ == t,
            Some(Err(m)) => r matches Err(TaskError::Engine(e)) && e.0@ == m,
            None => r matches Err(TaskError::Aborted(_)),
        },
    }
}

/// Turns the engine's answers into the task's result; see `outcome_matches`.
pub fn task_outcome(
    config: Option<Result<(), TesserocrError>>,
    recognized: Option<Result<String, TesserocrError>>,
) -> (r: Result<String, TaskError>)
    ensures
        outcome_matches(r, opt_unit_view(config), opt_text_view(recognized)),
{
    if let Some(Err(e)) = config {
        return Err(TaskError::Config(e));
    }
    match recognized {
        Some(Ok(text)) => Ok(text),
        Some(Err(e)) => Err(TaskError::Engine(e)),
        None => Err(TaskError::Aborted("recognition was not run".to_string())),
    }
}

/// Whether the call is a recognition of the given image.
pub open spec fn recognizes(c: EngineCall, w: u32, h: u32, layout: Layout, data: Seq<u8>) -> bool {
    c matches EngineCall::Recognize { width, height, layout: l, data: d, .. } && width == w
        && height == h && l == layout && d == data
}

/// The calls that recognition of an image makes: the blacklist, if there is
/// one, under `BLACKLIST_KEY`, then, unless the engine refused it, the
/// recognition of the normalized image.
pub open spec fn recognition_calls(
    w: u32,
    h: u32,
    layout: Layout,
    data: Seq<u8>,
    blacklist: Option<Seq<char>>,
    calls: Seq<EngineCall>,
) -> bool {
    match blacklist {
        None => calls.len() == 1 && recognizes(calls[0], w, h, layout, data),
        Some(b) => calls.len() >= 1 && match calls[0] {
            EngineCall::Configure { key, value, accepted } => key == BLACKLIST_KEY@ && value == b && if accepted is Ok {
                calls.len() == 2 && recognizes(calls[1], w, h, layout, data)
            } else {
                calls.len() == 1
            },
            _ => false,
        },
    }
}

/// The engine's answer to the blacklist, when the calls start by setting it.
pub open spec fn configured(calls: Seq<EngineCall>) -> Option<Result<(), Seq<char>>> {
    if calls.len() > 0 {
        match calls[0] {
            EngineCall::Configure { accepted, .. } => Some(accepted),
            _ => None,
        }
    } else {
        None
    }
}

/// The engine's answer to recognition, when the calls end by running it.
pub open spec fn recognized(calls: Seq<EngineCall>) -> Option<Result<Seq<char>, Seq<char>>> {
    if calls.len() > 0 {
        match calls.last() {
            EngineCall::Recognize { text, .. } => Some(text),
            _ => None,
        }
    } else {
        None
    }
}

/// What recognizing `image` does: no call and no result without an image, no
/// call and the image error for a refused buffer, else the calls of
/// `recognition_calls`, appended to those made before, and the result that
/// `outcome_matches` gives for the engine's answers.
pub open spec fn ocr_post(
    before: Seq<EngineCall>,
    after: Seq<EngineCall>,
    image: Option<(Vec<u8>, u32, u32)>,
    blacklist: Option<Seq<char>>,
    r: Option<Result<String, TaskError>>,
) -> bool {
    match image {
        None => r is None && after == before,
        Some((buf, w, h)) => match layout_of(w, h, buf@.len()) {
            Err(e) => r matches Some(Err(TaskError::Image(e2))) && e2 == e && after == before,
            Ok(layout) => {
                let new = after.subrange(before.len() as int, after.len() as int);
                &&& before.len() <= after.len()
                &&& after.subrange(0, before.len() as int) == before
                &&& recognition_calls(w, h, layout, normalized(buf@, layout), blacklist, new)
                &&& r matches Some(o) && outcome_matches(o, configured(new), recognized(new))
            },
        },
    }
}

/// Runs recognition on `image`, if there is one, after setting the blacklist,
/// if there is one. A buffer that is not 1, 3 or 4 bytes per pixel fails with
/// an image error before the engine is touched.
pub fn ocr<E: Engine>(
    engine: &mut EngineHandle<E>,
    image: Option<(Vec<u8>, u32, u32)>,
    blacklist: Option<&str>,
) -> (r: Option<Result<String, TaskError>>)
    ensures
        ocr_post(old(engine).calls(), final(engine).calls(), image, opt_view(blacklist), r),
{
    let ghost before = engine.calls();
    let job = match prepare(image, blacklist) {
        None => return None,
        Some(Err(e)) => return Some(Err(TaskError::Image(e))),
        Some(Ok(job)) => job,
    };
    let config = match &job.blacklist {
        Some(chars) => Some(engine.set_variable(BLACKLIST_KEY, chars.as_str())),
        None => None,
    };
    let ghost mid = engine.calls();
    let refused = match &config {
        Some(Err(_)) => true,
        _ => false,
    };
    let recognized = if refused {
        None
    } else {
        Some(engine.recognize(&job.pix))
    };
    let ghost after = engine.calls();
    proof {
        let new = after.subrange(before.len() as int, after.len() as int);
        assert(after.subrange(0, before.len() as int) =~= before);
        if config is Some {
            if refused {
                assert(new =~= seq![mid.last()]);
            } else {
                assert(new =~= seq![mid.last(), after.last()]);
            }
        } else {
            assert(new =~= seq![after.last()]);
        }
    }
    Some(task_outcome(config, recognized))
}

/// The result of `ocr` that a task result stands for.
pub open spec fn as_ocr_result(o: Result<Option<String>, TaskError>) -> Option<Result<String, TaskError>> {
    match o {
        Ok(None) => None,
        Ok(Some(s)) => Some(Ok(s)),
        Err(e) => Some(Err(e)),
    }
}

/// Runs one task and tags the outcome with its id.
pub fn run_task<E: Engine>(engine: &mut EngineHandle<E>, task: Task) -> (r: TaskResult)
    ensures
        r.id == task.id,
        ocr_post(
            old(engine).calls(),
            final(engine).calls(),
            task.image,
            opt_string_view(task.blacklist),
            as_ocr_result(r.outcome),
        ),
{
    let Task { id, image, blacklist } = task;
    let chars: Option<&str> = match &blacklist {
        Some(b) => Some(b.as_str()),
        None => None,
    };
    let outcome = match ocr(engine, image, chars) {
        None => Ok(None),
        Some(Ok(text)) => Ok(Some(text)),
        Some(Err(e)) => Err(e),
    };
    TaskResult { id, outcome }
}

} // verus!
