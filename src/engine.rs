//! A worker's recognition engine, held in a handle that records every call
//! made on it together with the engine's answer.
use crate::error::TesserocrError;
use crate::image::{Layout, PixBuffer};
use vstd::prelude::*;

verus! {

/// A recognition engine owned by one worker thread.
pub trait Engine {
    /// Sets a configuration variable.
    fn set_variable(&mut self, key: &str, value: &str) -> Result<(), TesserocrError>;

    /// Recognizes the text of a normalized image.
    fn recognize(&mut self, pix: &PixBuffer) -> Result<String, TesserocrError>;
}

/// One call made on an engine, with the engine's answer (errors by message).
pub enum EngineCall {
    Configure { key: Seq<char>, value: Seq<char>, accepted: Result<(), Seq<char>> },
    Recognize {
        width: u32,
        height: u32,
        layout: Layout,
        data: Seq<u8>,
        text: Result<Seq<char>, Seq<char>>,
    },
}

/// The model of a configuration answer.
pub open spec fn unit_view(r: Result<(), TesserocrError>) -> Result<(), Seq<char>> {
    match r {
        Ok(()) => Ok(()),
        Err(e) => Err(e.0@),
    }
}

/// The model of a recognition answer.
pub open spec fn text_view(r: Result<String, TesserocrError>) -> Result<Seq<char>, Seq<char>> {
    match r {
        Ok(t) => Ok(t@),
        Err(e) => Err(e.0@),
    }
}

/// An engine with the record of the calls made on it, oldest first.
pub struct EngineHandle<E: Engine> {
    engine: E,
    calls: Ghost<Seq<EngineCall>>,
}

impl<E: Engine> EngineHandle<E> {
    /// The calls made on the engine through this handle, oldest first.
    pub closed spec fn calls(&self) -> Seq<EngineCall> {
        self.calls@
    }

    /// Takes ownership of an engine; no call is recorded yet.
    pub fn new(engine: E) -> (r: EngineHandle<E>)
        ensures
            r.calls() == Seq::<EngineCall>::empty(),
    {
        EngineHandle { engine, calls: Ghost(Seq::empty()) }
    }

    /// The engine.
    pub fn engine(&self) -> &E {
        &self.engine
    }

    /// Gives the engine back.
    pub fn into_engine(self) -> E {
        self.engine
    }

    /// Sets a configuration variable on the engine, and records the call.
    pub fn set_variable(&mut self, key: &str, value: &str) -> (r: Result<(), TesserocrError>)
        ensures
            final(self).calls() == old(self).calls().push(
                EngineCall::Configure { key: key@, value: value@, accepted: unit_view(r) },
            ),
    {
        let r = self.engine.set_variable(key, value);
        self.calls = Ghost(
            self.calls@.push(EngineCall::Configure { key: key@, value: value@, accepted: unit_view(r) }),
        );
        r
    }

    /// Runs recognition on a normalized image, and records the call.
    pub fn recognize(&mut self, pix: &PixBuffer) -> (r: Result<String, TesserocrError>)
        ensures
            final(self).calls() == old(self).calls().push(
                EngineCall::Recognize {
                    width: pix.width,
                    height: pix.height,
                    layout: pix.layout,
                    data: pix.data@,
                    text: text_view(r),
                },
            ),
    {
        let r = self.engine.recognize(pix);
        self.calls = Ghost(
            self.calls@.push(
                EngineCall::Recognize {
                    width: pix.width,
                    height: pix.height,
                    layout: pix.layout,
                    data: pix.data@,
                    text: text_view(r),
                },
            ),
        );
        r
    }
}

} // verus!
