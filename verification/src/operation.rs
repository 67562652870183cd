//! A named transformation that is handed a file, applied to it, and
//! asked for the result, in that order.

use vstd::prelude::*;

use crate::error::WavError;
use crate::wav::{Wav, WavView};

verus! {

/// The transformations that an operation can be bound to.
#[derive(Clone, Copy, Debug, PartialEq, Eq, Structural)]
pub enum Performance {
    /// Drop every second frame, so that the sound plays twice as fast
    /// and higher.
    DoubleSpeed,
}

impl Performance {
    /// Whether the transformation can be applied to `wav`.
    pub open spec fn applies_to(self, wav: WavView) -> bool {
        match self {
            Performance::DoubleSpeed => wav.can_double_speed(),
        }
    }

    /// What the transformation makes of `wav`.
    pub open spec fn apply(self, wav: WavView) -> WavView
        recommends
            self.applies_to(wav),
    {
        match self {
            Performance::DoubleSpeed => wav.double_speed(),
        }
    }
}

/// How far an operation has come.
pub enum Stage {
    /// No file was handed over yet.
    Unattached,
    /// A file was handed over and waits for the transformation.
    Attached(WavView),
    /// The transformation was applied, and this is the result.
    Performed(WavView),
}

/// What an [`Operation`] stands for.
pub struct OperationView {
    pub name: Seq<char>,
    pub description: Seq<char>,
    pub performance: Performance,
    pub stage: Stage,
}

impl OperationView {
    /// The file held, if one is held, carries its required tags and is
    /// PCM.
    pub open spec fn wf(self) -> bool {
        match self.stage {
            Stage::Unattached => true,
            Stage::Attached(wav) | Stage::Performed(wav) => wav.wf(),
        }
    }

    /// The operation after it was handed `bytes`: it holds the file that
    /// they spell, untransformed. Bytes that spell no file leave it as it
    /// was.
    pub open spec fn after_set_wav(self, bytes: Seq<u8>) -> OperationView {
        match WavView::decoding(bytes) {
            Some(wav) => OperationView { stage: Stage::Attached(wav), ..self },
            None => self,
        }
    }

    /// How a request to apply the transformation ends: it is out of
    /// order while no file is held, and it is refused for a file that the
    /// transformation does not apply to.
    pub open spec fn perform_result(self) -> Result<(), WavError> {
        match self.stage {
            Stage::Unattached => Err(WavError::PreconditionViolated),
            Stage::Attached(wav) | Stage::Performed(wav) => if self.performance.applies_to(wav) {
                Ok(())
            } else {
                Err(WavError::MalformedInput)
            },
        }
    }

    /// The operation after a request to apply the transformation: where
    /// the request succeeds, the file held is transformed once more;
    /// where it fails, nothing changes.
    pub open spec fn after_perform(self) -> OperationView {
        match self.stage {
            Stage::Unattached => self,
            Stage::Attached(wav) | Stage::Performed(wav) => if self.performance.applies_to(wav) {
                OperationView { stage: Stage::Performed(self.performance.apply(wav)), ..self }
            } else {
                self
            },
        }
    }

    /// The bytes that the operation gives out: those of the transformed
    /// file, and none before the transformation was applied.
    pub open spec fn contents(self) -> Result<Seq<u8>, WavError> {
        match self.stage {
            Stage::Performed(wav) => Ok(wav.encoding()),
            _ => Err(WavError::PreconditionViolated),
        }
    }
}

/// A transformation under a name, with the file that it works on.
#[derive(Clone, Debug)]
pub struct Operation<'a> {
    name: &'a str,
    description: &'a str,
    performance: Performance,
    wav: Option<Wav>,
    performed: bool,
}

impl<'a> View for Operation<'a> {
    type V = OperationView;

    closed spec fn view(&self) -> OperationView {
        OperationView {
            name: self.name@,
            description: self.description@,
            performance: self.performance,
            stage: match self.wav {
                None => Stage::Unattached,
                Some(wav) => if self.performed {
                    Stage::Performed(wav@)
                } else {
                    Stage::Attached(wav@)
                },
            },
        }
    }
}

impl<'a> Operation<'a> {
    /// Binds a transformation to a name and a description. No file is
    /// held yet.
    pub fn new(name: &'a str, description: &'a str, performance: Performance) -> (op: Operation<'a>)
        ensures
            op@ == (OperationView {
                name: name@,
                description: description@,
                performance,
                stage: Stage::Unattached,
            }),
            op@.wf(),
    {
        Operation { name, description, performance, wav: None, performed: false }
    }

    /// The name.
    pub fn name(&self) -> (name: &str)
        ensures
            name@ == self@.name,
    {
        self.name
    }

    /// The description.
    pub fn description(&self) -> (description: &str)
        ensures
            description@ == self@.description,
    {
        self.description
    }

    /// Hands the operation the bytes of a file, which are decoded. A
    /// file that was held before is let go.
    pub fn set_wav(&mut self, buf: &[u8]) -> (r: Result<(), WavError>)
        ensures
            final(self)@ == old(self)@.after_set_wav(buf@),
            WavView::decoding(buf@) is Some ==> r is Ok,
            WavView::decoding(buf@) is None ==> r == Err::<(), WavError>(WavError::MalformedInput),
            old(self)@.wf() ==> final(self)@.wf(),
    {
        match Wav::new(buf) {
            Ok(wav) => {
                self.wav = Some(wav);
                self.performed = false;
                Ok(())
            },
            Err(e) => Err(e),
        }
    }

    /// Applies the transformation to the file held.
    pub fn perform(&mut self) -> (r: Result<(), WavError>)
        ensures
            r == old(self)@.perform_result(),
            final(self)@ == old(self)@.after_perform(),
            old(self)@.wf() ==> final(self)@.wf(),
    {
        match self.performance {
            Performance::DoubleSpeed => {
                match self.wav.take() {
                    None => Err(WavError::PreconditionViolated),
                    Some(mut wav) => {
                        if wav.can_double_speed() {
                            wav.double_speed();
                            self.wav = Some(wav);
                            self.performed = true;
                            Ok(())
                        } else {
                            self.wav = Some(wav);
                            Err(WavError::MalformedInput)
                        }
                    },
                }
            },
        }
    }

    /// Encodes the transformed file.
    pub fn contents(&self) -> (r: Result<Vec<u8>, WavError>)
        ensures
            match self@.contents() {
                Ok(bytes) => r matches Ok(out) && out@ == bytes,
                Err(e) => r matches Err(f) && f == e,
            },
    {
        if !self.performed {
            return Err(WavError::PreconditionViolated);
        }
        match &self.wav {
            None => Err(WavError::PreconditionViolated),
            Some(wav) => Ok(wav.write_contents()),
        }
    }
}

/// How the program was asked to run.
pub enum Mode<'a> {
    /// One named operation on one file.
    Simple(&'a Operation<'a>),
    /// A dialogue with the user.
    Complex,
}

} // verus!
