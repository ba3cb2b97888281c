use vstd::prelude::*;

verus! {

/// Why one request/response exchange failed.
#[derive(Debug)]
pub enum HttpError {
    /// The connection could not be opened: the host and the cause.
    ConnectionFailed(String),
    /// The request could not be written: the cause.
    WriteFailed(String),
    /// Reading failed for a reason other than the deadline: the cause.
    ReadFailed(String),
    /// The response bytes are not UTF-8.
    InvalidEncoding,
}

/// The outcome of one read on the response stream.
pub enum ReadEvent {
    /// Bytes arrived (an empty chunk counts as the peer closing).
    Data(Vec<u8>),
    /// The peer closed the connection.
    Closed,
    /// The read deadline elapsed.
    TimedOut,
    /// Any other read error, with its cause.
    Failed(String),
}

/// The text that `String::from_utf8` decodes from `b`, if `b` is UTF-8.
pub uninterp spec fn utf8_text(b: Seq<u8>) -> Option<Seq<char>>;

/// Relies on `String::from_utf8`: decodes exactly when the bytes are valid
/// UTF-8, and the empty byte sequence decodes to the empty string.
#[verifier::external_body]
fn decode_utf8(b: Vec<u8>) -> (r: Option<String>)
    ensures
        r.is_some() == utf8_text(b@).is_some(),
        r.is_some() ==> utf8_text(b@) == Some(r.unwrap()@),
        b@.len() == 0 ==> r.is_some() && r.unwrap()@.len() == 0,
{
    String::from_utf8(b).ok()
}

/// `r` is the decoding of the bytes `b` as a finished response.
pub open spec fn decoded_as(r: Result<String, HttpError>, b: Seq<u8>) -> bool {
    match utf8_text(b) {
        Some(t) => r matches Ok(s) && s@ == t,
        None => r matches Err(HttpError::InvalidEncoding),
    }
}

/// Accumulates a response until the peer closes or the deadline elapses.
pub struct ResponseReader {
    received: Vec<u8>,
    finished: bool,
}

impl ResponseReader {
    pub closed spec fn received(&self) -> Seq<u8> {
        self.received@
    }

    pub closed spec fn finished(&self) -> bool {
        self.finished
    }

    pub fn new() -> (r: ResponseReader)
        ensures
            r.received() == Seq::<u8>::empty(),
            !r.finished(),
    {
        ResponseReader { received: Vec::new(), finished: false }
    }

    /// Number of bytes received so far.
    pub fn received_len(&self) -> (r: usize)
        ensures
            r == self.received().len(),
    {
        self.received.len()
    }

    /// Takes the outcome of one read. Returns `None` while more is to be read,
    /// else the result of the exchange: a closed connection and an elapsed
    /// deadline both end the response with what was received.
    pub fn on_read(&mut self, ev: ReadEvent) -> (r: Option<Result<String, HttpError>>)
        requires
            !old(self).finished(),
        ensures
            match ev {
                ReadEvent::Data(chunk) => if chunk@.len() > 0 {
                    &&& r is None
                    &&& !final(self).finished()
                    &&& final(self).received() == old(self).received() + chunk@
                } else {
                    &&& r matches Some(res) && decoded_as(res, old(self).received())
                    &&& final(self).finished()
                },
                ReadEvent::Closed | ReadEvent::TimedOut => {
                    &&& r matches Some(res) && decoded_as(res, old(self).received())
                    &&& final(self).finished()
                },
                ReadEvent::Failed(cause) => {
                    &&& r matches Some(Err(HttpError::ReadFailed(c))) && c == cause
                    &&& final(self).finished()
                },
            },
    {
        match ev {
            ReadEvent::Data(mut chunk) => {
                if chunk.len() > 0 {
                    self.received.append(&mut chunk);
                    None
                } else {
                    Some(self.finish())
                }
            },
            ReadEvent::Closed | ReadEvent::TimedOut => Some(self.finish()),
            ReadEvent::Failed(cause) => {
                self.finished = true;
                Some(Err(HttpError::ReadFailed(cause)))
            },
        }
    }

    fn finish(&mut self) -> (r: Result<String, HttpError>)
        ensures
            decoded_as(r, old(self).received()),
            final(self).finished(),
    {
        self.finished = true;
        let mut bytes: Vec<u8> = Vec::new();
        std::mem::swap(&mut bytes, &mut self.received);
        match decode_utf8(bytes) {
            Some(s) => Ok(s),
            None => Err(HttpError::InvalidEncoding),
        }
    }
}

} // verus!
