//! The streaming download of an update's artifact, as a state machine: the
//! host reports what the transport did, one signal at a time, and is told
//! which progress event to deliver.

use vstd::prelude::*;

use crate::error::{NetworkFailure, NetworkFailureView, UpdateError, UpdateErrorView};
use crate::location::Url;
use crate::status::{is_success, success_status};
use crate::updater::Update;

verus! {

/// What a download reports to whoever watches it.
#[derive(Clone, Copy, Debug, PartialEq, Eq)]
pub enum DownloadEvent {
    /// The response arrived; the body follows. Carries the announced length
    /// of the body, where the server announced one.
    Started { content_length: Option<u64> },
    /// One chunk of the body arrived. Carries the length of that chunk alone.
    Progress { chunk_length: usize },
    /// The body is complete.
    Finished,
}

/// What the transport reports of the one request for the artifact.
#[derive(Debug)]
pub enum Signal {
    /// The response head: its status and the value of its `Content-Length`
    /// header, if it has one.
    Response { status: u16, content_length: Option<Vec<u8>> },
    /// The next chunk of the body.
    Chunk(Vec<u8>),
    /// The end of the body.
    End,
    /// A failure of the transport, with its message.
    Failure(String),
}

/// What a signal holds.
pub enum SignalView {
    Response { status: u16, content_length: Option<Seq<u8>> },
    Chunk(Seq<u8>),
    End,
    Failure(Seq<char>),
}

impl View for Signal {
    type V = SignalView;

    open spec fn view(&self) -> SignalView {
        match self {
            Signal::Response { status, content_length } => SignalView::Response {
                status: *status,
                content_length: match content_length {
                    Some(value) => Some(value@),
                    None => None,
                },
            },
            Signal::Chunk(bytes) => SignalView::Chunk(bytes@),
            Signal::End => SignalView::End,
            Signal::Failure(message) => SignalView::Failure(message@),
        }
    }
}

/// Whether a byte is an ASCII decimal digit.
pub open spec fn is_digit(byte: u8) -> bool {
    0x30 <= byte <= 0x39
}

/// The number that a run of decimal digits writes.
pub open spec fn digits_value(digits: Seq<u8>) -> nat
    decreases digits.len(),
{
    if digits.len() == 0 {
        0
    } else {
        digits_value(digits.drop_last()) * 10 + (digits.last() - 0x30) as nat
    }
}

/// The digits of a header value: the value without the `+` that may lead it.
pub open spec fn unsigned_digits(value: Seq<u8>) -> Seq<u8> {
    if value.len() > 0 && value[0] == 0x2b {
        value.subrange(1, value.len() as int)
    } else {
        value
    }
}

/// The length that a `Content-Length` header value announces: the value must
/// be one or more decimal digits, which a `+` may precede, and the number must
/// fit in 64 bits. Any other value announces nothing.
pub open spec fn content_length_of(value: Seq<u8>) -> Option<u64> {
    let digits = unsigned_digits(value);
    if digits.len() > 0 && (forall|i: int| 0 <= i < digits.len() ==> is_digit(#[trigger] digits[i]))
        && digits_value(digits) <= u64::MAX {
        Some(digits_value(digits) as u64)
    } else {
        None
    }
}

proof fn lemma_digits_grow(digits: Seq<u8>, upto: int)
    requires
        0 <= upto <= digits.len(),
        forall|i: int| 0 <= i < digits.len() ==> is_digit(#[trigger] digits[i]),
    ensures
        digits_value(digits.take(upto)) <= digits_value(digits),
    decreases digits.len() - upto,
{
    if upto == digits.len() {
        assert(digits.take(upto) =~= digits);
    } else {
        assert(digits.take(upto + 1).drop_last() =~= digits.take(upto));
        assert(is_digit(digits[upto]));
        lemma_digits_grow(digits, upto + 1);
    }
}

/// Reads the value of a `Content-Length` header.
pub fn parse_content_length(value: &[u8]) -> (length: Option<u64>)
    ensures
        length == content_length_of(value@),
{
    let start: usize = if value.len() > 0 && value[0] == 0x2b {
        1
    } else {
        0
    };
    let ghost digits = unsigned_digits(value@);
    assert(digits =~= value@.subrange(start as int, value@.len() as int));
    if start == value.len() {
        return None;
    }
    let mut total: u64 = 0;
    let mut i: usize = start;
    assert(digits.take(0) =~= Seq::empty());
    while i < value.len()
        invariant
            start <= i <= value@.len(),
            digits == value@.subrange(start as int, value@.len() as int),
            digits == unsigned_digits(value@),
            forall|k: int| 0 <= k < i - start ==> is_digit(#[trigger] digits[k]),
            total == digits_value(digits.take(i - start)),
        decreases value@.len() - i,
    {
        let byte = value[i];
        assert(byte == digits[i - start]);
        if byte < 0x30 || byte > 0x39 {
            assert(!is_digit(digits[i - start]));
            return None;
        }
        let digit = (byte - 0x30) as u64;
        proof {
            assert(digits.take(i - start + 1).drop_last() =~= digits.take(i - start));
            assert(digits.take(i - start + 1).last() == byte);
        }
        if total > (u64::MAX - digit) / 10 {
            proof {
                assert(digits_value(digits.take(i - start + 1)) > u64::MAX);
                if forall|k: int| 0 <= k < digits.len() ==> is_digit(#[trigger] digits[k]) {
                    lemma_digits_grow(digits, i - start + 1);
                }
            }
            return None;
        }
        total = total * 10 + digit;
        i += 1;
    }
    assert(digits.take(i - start) =~= digits);
    Some(total)
}

/// How far a download has come.
#[derive(Clone, Copy, Debug, PartialEq, Eq)]
pub enum Phase {
    /// The request is out; no response has arrived.
    AwaitingResponse,
    /// The response was accepted; the body is arriving.
    Streaming,
    /// The body is complete.
    Finished,
    /// The download failed. What had arrived of the body is gone.
    Failed,
}

/// One download of an update's artifact.
#[derive(Debug)]
pub struct Download {
    url: Url,
    phase: Phase,
    buffer: Vec<u8>,
}

/// The state of a download.
pub struct DownloadView {
    /// Where the artifact is fetched from.
    pub url: Seq<char>,
    pub phase: Phase,
    /// The bytes of the body that have arrived.
    pub buffer: Seq<u8>,
}

impl View for Download {
    type V = DownloadView;

    closed spec fn view(&self) -> DownloadView {
        DownloadView { url: self.url@, phase: self.phase, buffer: self.buffer@ }
    }
}

/// A download is out of order once it has ended, in success or in failure:
/// the transport has nothing more to say of it.
pub open spec fn out_of_order() -> UpdateErrorView {
    UpdateErrorView::Network(NetworkFailureView::OutOfOrder)
}

impl DownloadView {
    /// The download of the artifact at `url`, before any response.
    pub open spec fn start(url: Seq<char>) -> DownloadView {
        DownloadView { url, phase: Phase::AwaitingResponse, buffer: Seq::empty() }
    }

    /// This download, failed: what had arrived is discarded.
    pub open spec fn fail(self) -> DownloadView {
        DownloadView { url: self.url, phase: Phase::Failed, buffer: Seq::empty() }
    }

    /// The download after one signal, and the event to deliver for it or the
    /// error that ends the download. An error delivers no event.
    pub open spec fn step(self, signal: SignalView) -> (
        DownloadView,
        Result<DownloadEvent, UpdateErrorView>,
    ) {
        match self.phase {
            Phase::AwaitingResponse => match signal {
                SignalView::Response { status, content_length } => if success_status(status) {
                    (
                        DownloadView {
                            url: self.url,
                            phase: Phase::Streaming,
                            buffer: Seq::empty(),
                        },
                        Ok(
                            DownloadEvent::Started {
                                content_length: match content_length {
                                    Some(value) => content_length_of(value),
                                    None => None,
                                },
                            },
                        ),
                    )
                } else {
                    (
                        self.fail(),
                        Err(UpdateErrorView::Network(NetworkFailureView::Status(status))),
                    )
                },
                SignalView::Failure(message) => (
                    self.fail(),
                    Err(UpdateErrorView::Network(NetworkFailureView::Transport(message))),
                ),
                _ => (self.fail(), Err(out_of_order())),
            },
            Phase::Streaming => match signal {
                SignalView::Chunk(bytes) => (
                    DownloadView {
                        url: self.url,
                        phase: Phase::Streaming,
                        buffer: self.buffer + bytes,
                    },
                    Ok(DownloadEvent::Progress { chunk_length: bytes.len() as usize }),
                ),
                SignalView::End => (
                    DownloadView { url: self.url, phase: Phase::Finished, buffer: self.buffer },
                    Ok(DownloadEvent::Finished),
                ),
                SignalView::Failure(message) => (
                    self.fail(),
                    Err(UpdateErrorView::Network(NetworkFailureView::Transport(message))),
                ),
                SignalView::Response { .. } => (self.fail(), Err(out_of_order())),
            },
            Phase::Finished => (self, Err(out_of_order())),
            Phase::Failed => (self, Err(out_of_order())),
        }
    }

    /// The bytes that a download releases for installation: all of the body
    /// once it is complete, and nothing before that or after a failure.
    pub open spec fn artifact(self) -> Result<Seq<u8>, UpdateErrorView> {
        if self.phase == Phase::Finished {
            Ok(self.buffer)
        } else {
            Err(out_of_order())
        }
    }
}

impl Update {
    /// Begins the download of this update's artifact. The host sends the one
    /// request to the download's URL and reports what comes of it.
    pub fn download(&self) -> (download: Download)
        ensures
            download@ == DownloadView::start(self@.download_url),
    {
        Download {
            url: self.download_url().clone(),
            phase: Phase::AwaitingResponse,
            buffer: Vec::new(),
        }
    }
}

impl Download {
    /// Where the artifact is fetched from.
    pub fn url(&self) -> (url: &Url)
        ensures
            url@ == self@.url,
    {
        &self.url
    }

    /// How far the download has come.
    pub fn phase(&self) -> (phase: Phase)
        ensures
            phase == self@.phase,
    {
        self.phase
    }

    /// How many bytes of the body have arrived.
    pub fn received(&self) -> (count: usize)
        ensures
            count == self@.buffer.len(),
    {
        self.buffer.len()
    }

    fn fail(&mut self)
        ensures
            final(self)@ == old(self)@.fail(),
    {
        self.phase = Phase::Failed;
        self.buffer = Vec::new();
    }

    /// Takes one signal of the transport and says which event to deliver for
    /// it. An error ends the download and delivers nothing.
    pub fn step(&mut self, signal: &Signal) -> (outcome: Result<DownloadEvent, UpdateError>)
        ensures
            final(self)@ == old(self)@.step(signal@).0,
            match outcome {
                Ok(event) => old(self)@.step(signal@).1 == Ok::<DownloadEvent, UpdateErrorView>(
                    event,
                ),
                Err(e) => old(self)@.step(signal@).1 == Err::<DownloadEvent, UpdateErrorView>(e@),
            },
    {
        match self.phase {
            Phase::AwaitingResponse => match signal {
                Signal::Response { status, content_length } => {
                    if is_success(*status) {
                        let announced = match content_length {
                            Some(value) => parse_content_length(value.as_slice()),
                            None => None,
                        };
                        self.phase = Phase::Streaming;
                        self.buffer = Vec::new();
                        Ok(DownloadEvent::Started { content_length: announced })
                    } else {
                        self.fail();
                        Err(UpdateError::Network(NetworkFailure::Status(*status)))
                    }
                },
                Signal::Failure(message) => {
                    self.fail();
                    Err(UpdateError::Network(NetworkFailure::Transport(message.clone())))
                },
                Signal::Chunk(_) => {
                    self.fail();
                    Err(UpdateError::Network(NetworkFailure::OutOfOrder))
                },
                Signal::End => {
                    self.fail();
                    Err(UpdateError::Network(NetworkFailure::OutOfOrder))
                },
            },
            Phase::Streaming => match signal {
                Signal::Chunk(bytes) => {
                    let chunk_length = bytes.len();
                    self.buffer.extend_from_slice(bytes.as_slice());
                    assert(self.buffer@ =~= old(self)@.buffer + bytes@);
                    Ok(DownloadEvent::Progress { chunk_length })
                },
                Signal::End => {
                    self.phase = Phase::Finished;
                    Ok(DownloadEvent::Finished)
                },
                Signal::Failure(message) => {
                    self.fail();
                    Err(UpdateError::Network(NetworkFailure::Transport(message.clone())))
                },
                Signal::Response { .. } => {
                    self.fail();
                    Err(UpdateError::Network(NetworkFailure::OutOfOrder))
                },
            },
            Phase::Finished => Err(UpdateError::Network(NetworkFailure::OutOfOrder)),
            Phase::Failed => Err(UpdateError::Network(NetworkFailure::OutOfOrder)),
        }
    }

    /// Releases the artifact for installation. Only a complete download has
    /// one: a download that failed, or has not ended, gives an error.
    pub fn into_bytes(self) -> (artifact: Result<Vec<u8>, UpdateError>)
        ensures
            match artifact {
                Ok(bytes) => self@.artifact() == Ok::<Seq<u8>, UpdateErrorView>(bytes@),
                Err(e) => self@.artifact() == Err::<Seq<u8>, UpdateErrorView>(e@),
            },
    {
        match self.phase {
            Phase::Finished => Ok(self.buffer),
            _ => Err(UpdateError::Network(NetworkFailure::OutOfOrder)),
        }
    }
}

} // verus!
