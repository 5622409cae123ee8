use vstd::prelude::*;

verus! {

/// What the completion service's stream hands the consumer, in arrival order.
pub enum StreamEvent {
    /// A piece of generated text.
    Fragment(String),
    /// The service signalled that the response is complete.
    Done,
    /// The transport or the protocol failed.
    Error(String),
}

/// Why a generation produced no usable response.
pub enum GenerationError {
    /// The service or the connection to it reported an error.
    Upstream(String),
    /// The stream ended without the service signalling completion.
    Truncated,
}

/// Where a stream stands.
pub enum StreamState {
    Open,
    Completed,
    Failed(String),
}

/// Rebuilds a streamed response by concatenating its fragments in delivery
/// order, and remembers how the stream ended.
pub struct StreamAssembler {
    pub text: String,
    pub state: StreamState,
}

impl StreamAssembler {
    pub fn new() -> (r: StreamAssembler)
        ensures
            r.text@ == Seq::<char>::empty(),
            r.state is Open,
    {
        StreamAssembler { text: String::new(), state: StreamState::Open }
    }

    /// Takes the next event of the stream. Returns whether the consumer should
    /// keep reading. Once the stream has ended, later events change nothing.
    pub fn accept(&mut self, event: StreamEvent) -> (keep_reading: bool)
        ensures
            !(old(self).state is Open) ==> *final(self) == *old(self) && !keep_reading,
            old(self).state is Open ==> match event {
                StreamEvent::Fragment(f) => final(self).text@ == old(self).text@ + f@
                    && final(self).state is Open && keep_reading,
                StreamEvent::Done => final(self).text == old(self).text
                    && final(self).state is Completed && !keep_reading,
                StreamEvent::Error(e) => final(self).text == old(self).text
                    && final(self).state == StreamState::Failed(e) && !keep_reading,
            },
    {
        match self.state {
            StreamState::Open => {},
            _ => {
                return false;
            },
        }
        match event {
            StreamEvent::Fragment(f) => {
                self.text.append(f.as_str());
                true
            },
            StreamEvent::Done => {
                self.state = StreamState::Completed;
                false
            },
            StreamEvent::Error(e) => {
                self.state = StreamState::Failed(e);
                false
            },
        }
    }

    /// The response, if the stream completed cleanly. A stream still open when
    /// the channel closed was truncated; partial text is never a response.
    pub fn finish(self) -> (r: Result<String, GenerationError>)
        ensures
            match self.state {
                StreamState::Completed => r == Ok::<String, GenerationError>(self.text),
                StreamState::Open => r is Err && r->Err_0 is Truncated,
                StreamState::Failed(e) => r is Err && r->Err_0 == GenerationError::Upstream(e),
            },
    {
        match self.state {
            StreamState::Completed => Ok(self.text),
            StreamState::Open => Err(GenerationError::Truncated),
            StreamState::Failed(e) => Err(GenerationError::Upstream(e)),
        }
    }
}

} // verus!
