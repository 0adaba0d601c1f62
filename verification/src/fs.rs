//! Single-shot asynchronous file loads.
//!
//! Opening a file only records what to fetch. The host performs the request
//! and reports how it ended; the file keeps that outcome in a completion
//! slot which the caller polls and then reads.

use crate::text::{can_lead, decode, lemma_stray_lead_is_invalid};
use vstd::prelude::*;
use vstd::string::StringExecFns;
use vstd::utf8::{decode_utf8, valid_utf8};

verus! {

/// The response status that counts as success.
pub const STATUS_OK: u16 = 200;

/// The completion slot of one load.
#[derive(Debug, PartialEq, Eq)]
pub enum CompletionState {
    /// The host has not reported yet.
    Pending,
    /// The load succeeded; the payload is what has not been read out yet.
    Ready(Vec<u8>),
    /// The load failed; the payload says why.
    Failed(String),
}

/// How the host's request ended.
#[derive(Debug, PartialEq, Eq)]
pub enum Response {
    /// The request ran to completion with this status and body.
    Loaded { status: u16, body: Option<Vec<u8>> },
    /// The request itself failed.
    Errored,
}

/// Why a read did not return data.
#[derive(Debug, PartialEq, Eq)]
pub enum FileError {
    /// The load failed; the payload is the stored message.
    NetworkFailure(String),
    /// The loaded bytes are not well-formed UTF-8.
    DecodeFailure,
    /// The file was read before its load completed.
    UseBeforeReady,
}

/// Entry point for opening files.
pub struct FileSystem {}

/// A file whose content arrives asynchronously.
#[derive(Debug)]
pub struct File {
    path: String,
    state: CompletionState,
}

/// The request the host is to perform for a file.
#[derive(Debug, PartialEq, Eq)]
pub struct Request {
    pub method: &'static str,
    pub url: String,
    /// Whether the request runs without blocking the caller.
    pub asynchronous: bool,
    /// Whether the body is to be taken as raw bytes.
    pub binary: bool,
}

/// Mathematical value of a [`CompletionState`].
pub enum StateView {
    Pending,
    Ready(Seq<u8>),
    Failed(Seq<char>),
}

/// Mathematical value of a [`Response`].
pub enum ResponseView {
    Loaded { status: u16, body: Option<Seq<u8>> },
    Errored,
}

/// Mathematical value of a [`FileError`].
pub enum FileErrorView {
    NetworkFailure(Seq<char>),
    DecodeFailure,
    UseBeforeReady,
}

/// Mathematical value of a [`File`].
pub struct FileView {
    pub path: Seq<char>,
    pub state: StateView,
}

/// One thing that can happen to a file after it was opened.
pub enum FileOp {
    /// The caller asks whether the result is determinable.
    Poll,
    /// The caller reads the bytes.
    ReadBinary,
    /// The caller reads the text.
    ReadText,
    /// The host reports how the request ended.
    Complete(ResponseView),
}

impl View for CompletionState {
    type V = StateView;

    open spec fn view(&self) -> StateView {
        match self {
            CompletionState::Pending => StateView::Pending,
            CompletionState::Ready(bytes) => StateView::Ready(bytes@),
            CompletionState::Failed(message) => StateView::Failed(message@),
        }
    }
}

impl View for Response {
    type V = ResponseView;

    open spec fn view(&self) -> ResponseView {
        match self {
            Response::Loaded { status, body } => ResponseView::Loaded {
                status: *status,
                body: match body {
                    Some(bytes) => Some(bytes@),
                    None => None,
                },
            },
            Response::Errored => ResponseView::Errored,
        }
    }
}

impl View for FileError {
    type V = FileErrorView;

    open spec fn view(&self) -> FileErrorView {
        match self {
            FileError::NetworkFailure(message) => FileErrorView::NetworkFailure(message@),
            FileError::DecodeFailure => FileErrorView::DecodeFailure,
            FileError::UseBeforeReady => FileErrorView::UseBeforeReady,
        }
    }
}

impl View for File {
    type V = FileView;

    closed spec fn view(&self) -> FileView {
        FileView { path: self.path@, state: self.state@ }
    }
}

/// The message stored for a load that failed for `reason`.
pub open spec fn failure_message(reason: Seq<char>) -> Seq<char> {
    "Fail to read file from web "@ + reason
}

/// The reason given where the request completed without usable data.
pub open spec fn bad_response_reason() -> Seq<char> {
    "Fail to get array buffer from network.."@
}

/// The reason given where the request itself failed.
pub open spec fn request_error_reason() -> Seq<char> {
    "Fail to read from network.."@
}

/// Whether a response carries data: success status and a body that is
/// present and not empty.
pub open spec fn carries_data(response: ResponseView) -> bool {
    response matches ResponseView::Loaded { status, body: Some(bytes) } && status == STATUS_OK
        && bytes.len() > 0
}

/// The state a pending load takes on a response.
pub open spec fn settle(response: ResponseView) -> StateView {
    match response {
        ResponseView::Loaded { body: Some(bytes), .. } if carries_data(response) => {
            StateView::Ready(bytes)
        },
        ResponseView::Loaded { .. } => StateView::Failed(failure_message(bad_response_reason())),
        ResponseView::Errored => StateView::Failed(failure_message(request_error_reason())),
    }
}

/// The state after the host reports `response`: a pending load settles, a
/// settled one ignores the report.
pub open spec fn deliver(state: StateView, response: ResponseView) -> StateView {
    if state is Pending {
        settle(response)
    } else {
        state
    }
}

/// What reading the bytes returns in `state`.
pub open spec fn binary_result(state: StateView) -> Result<Seq<u8>, FileErrorView> {
    match state {
        StateView::Pending => Err(FileErrorView::UseBeforeReady),
        StateView::Ready(bytes) => Ok(bytes),
        StateView::Failed(message) => Err(FileErrorView::NetworkFailure(message)),
    }
}

/// The state after reading the bytes: a successful read moves them out and
/// leaves an empty buffer behind.
pub open spec fn after_binary(state: StateView) -> StateView {
    match state {
        StateView::Ready(_) => StateView::Ready(Seq::empty()),
        _ => state,
    }
}

/// What reading the text returns in `state`. Reading text leaves the state
/// as it is.
pub open spec fn text_result(state: StateView) -> Result<Seq<char>, FileErrorView> {
    match state {
        StateView::Pending => Err(FileErrorView::UseBeforeReady),
        StateView::Ready(bytes) => if valid_utf8(bytes) {
            Ok(decode_utf8(bytes))
        } else {
            Err(FileErrorView::DecodeFailure)
        },
        StateView::Failed(message) => Err(FileErrorView::NetworkFailure(message)),
    }
}

/// The state after one operation.
pub open spec fn apply(state: StateView, op: FileOp) -> StateView {
    match op {
        FileOp::Poll => state,
        FileOp::ReadBinary => after_binary(state),
        FileOp::ReadText => state,
        FileOp::Complete(response) => deliver(state, response),
    }
}

/// The state after a run of operations, first to last.
pub open spec fn apply_all(state: StateView, ops: Seq<FileOp>) -> StateView
    decreases ops.len(),
{
    if ops.len() == 0 {
        state
    } else {
        apply(apply_all(state, ops.drop_last()), ops.last())
    }
}

impl Response {
    /// Whether this response carries data.
    pub fn carries_data(&self) -> (ok: bool)
        ensures
            ok == carries_data(self@),
    {
        match self {
            Response::Loaded { status, body: Some(bytes) } => *status == STATUS_OK && bytes.len()
                > 0,
            _ => false,
        }
    }
}

impl CompletionState {
    /// The failed state of a load that failed for `reason`.
    pub fn failed(reason: &str) -> (state: CompletionState)
        ensures
            state@ == StateView::Failed(failure_message(reason@)),
    {
        let mut message: String = "Fail to read file from web ".to_owned();
        message.append(reason);
        CompletionState::Failed(message)
    }

    /// The state a pending load takes on `response`.
    pub fn settle(response: Response) -> (state: CompletionState)
        ensures
            state@ == settle(response@),
    {
        let usable: bool = response.carries_data();
        match response {
            Response::Loaded { body: Some(bytes), .. } if usable => CompletionState::Ready(bytes),
            Response::Loaded { .. } => CompletionState::failed(
                "Fail to get array buffer from network..",
            ),
            Response::Errored => CompletionState::failed("Fail to read from network.."),
        }
    }

    /// Whether the state has left `Pending`.
    pub fn is_settled(&self) -> (settled: bool)
        ensures
            settled == !(self@ is Pending),
    {
        match self {
            CompletionState::Pending => false,
            CompletionState::Ready(_) => true,
            CompletionState::Failed(_) => true,
        }
    }
}

impl FileSystem {
    /// Opens `s` for reading. The returned file is pending: the host is to
    /// perform [`File::request`] and to report its end through
    /// [`File::complete`].
    pub fn open(s: &str) -> (file: File)
        ensures
            file@ == (FileView { path: s@, state: StateView::Pending }),
    {
        File { path: s.to_owned(), state: CompletionState::Pending }
    }
}

impl File {
    /// The path this file was opened with.
    pub fn path(&self) -> (path: &str)
        ensures
            path@ == self@.path,
    {
        self.path.as_str()
    }

    /// The request that loads this file: a non-blocking GET of the path,
    /// its body taken as raw bytes.
    pub fn request(&self) -> (request: Request)
        ensures
            request.method@ == "GET"@,
            request.url@ == self@.path,
            request.asynchronous,
            request.binary,
    {
        Request { method: "GET", url: self.path.clone(), asynchronous: true, binary: true }
    }

    /// The completion slot.
    pub fn state(&self) -> (state: &CompletionState)
        ensures
            state@ == self@.state,
    {
        &self.state
    }

    /// Records how the host's request ended. Only the first report counts:
    /// the result says whether this one did.
    pub fn complete(&mut self, response: Response) -> (accepted: bool)
        ensures
            accepted == (old(self)@.state is Pending),
            final(self)@.state == deliver(old(self)@.state, response@),
            final(self)@.path == old(self)@.path,
    {
        if self.state.is_settled() {
            false
        } else {
            self.state = CompletionState::settle(response);
            true
        }
    }

    /// Whether the result is determinable: true once the load has ended,
    /// in success or in failure.
    pub fn is_ready(&self) -> (ready: bool)
        ensures
            ready == !(self@.state is Pending),
    {
        self.state.is_settled()
    }

    /// Moves the loaded bytes out. A read after a successful read returns
    /// an empty buffer.
    pub fn read_binary(&mut self) -> (res: Result<Vec<u8>, FileError>)
        ensures
            match res {
                Ok(bytes) => binary_result(old(self)@.state) == Ok::<Seq<u8>, FileErrorView>(
                    bytes@,
                ),
                Err(e) => binary_result(old(self)@.state) == Err::<Seq<u8>, FileErrorView>(e@),
            },
            final(self)@.state == after_binary(old(self)@.state),
            final(self)@.path == old(self)@.path,
    {
        match &mut self.state {
            CompletionState::Pending => Err(FileError::UseBeforeReady),
            CompletionState::Failed(message) => Err(FileError::NetworkFailure(message.clone())),
            CompletionState::Ready(buffer) => {
                let mut bytes: Vec<u8> = Vec::new();
                bytes.append(buffer);
                Ok(bytes)
            },
        }
    }

    /// Decodes the loaded bytes as UTF-8 text. The bytes stay in place.
    pub fn read_text(&mut self) -> (res: Result<String, FileError>)
        ensures
            match res {
                Ok(text) => text_result(old(self)@.state) == Ok::<Seq<char>, FileErrorView>(
                    text@,
                ),
                Err(e) => text_result(old(self)@.state) == Err::<Seq<char>, FileErrorView>(e@),
            },
            final(self)@ == old(self)@,
    {
        match &self.state {
            CompletionState::Pending => Err(FileError::UseBeforeReady),
            CompletionState::Failed(message) => Err(FileError::NetworkFailure(message.clone())),
            CompletionState::Ready(buffer) => match decode(buffer.as_slice()) {
                Some(text) => Ok(text),
                None => Err(FileError::DecodeFailure),
            },
        }
    }
}

/// Whether one of `ops` is a report of the host.
pub open spec fn has_completion(ops: Seq<FileOp>) -> bool {
    exists|i: int| 0 <= i < ops.len() && #[trigger] ops[i] is Complete
}

/// A file opened and then put through any run of polls, reads and reports is
/// ready exactly if the host has reported by then: every poll before the
/// first report sees a pending load, every poll from it on a settled one.
pub proof fn lemma_ready_iff_completed(ops: Seq<FileOp>)
    ensures
        !(apply_all(StateView::Pending, ops) is Pending) <==> has_completion(ops),
    decreases ops.len(),
{
    if ops.len() > 0 {
        let front = ops.drop_last();
        lemma_ready_iff_completed(front);
        if has_completion(front) {
            let i = choose|i: int| 0 <= i < front.len() && #[trigger] front[i] is Complete;
            assert(ops[i] is Complete);
        }
        if ops.last() is Complete {
            assert(ops[ops.len() - 1] is Complete);
        }
        if has_completion(ops) && !(ops.last() is Complete) {
            let i = choose|i: int| 0 <= i < ops.len() && #[trigger] ops[i] is Complete;
            assert(front[i] is Complete);
        }
    }
}

/// A settled load never changes its kind again: a failure stays the same
/// failure and a success stays a success, whatever happens to the file.
pub proof fn lemma_settled_is_final(state: StateView, op: FileOp)
    requires
        !(state is Pending),
    ensures
        state is Failed ==> apply(state, op) == state,
        state is Ready ==> apply(state, op) is Ready,
        !(op is ReadBinary) ==> apply(state, op) == state,
{
}

/// A pending load stays pending until the host reports, and the report
/// settles it.
pub proof fn lemma_pending_until_completed(op: FileOp)
    ensures
        apply(StateView::Pending, op) is Pending <==> !(op is Complete),
{
}

/// A load that ends with success status and a non-empty body hands out
/// exactly that body on the first binary read and an empty buffer on the
/// next.
pub proof fn lemma_load_then_read(bytes: Seq<u8>)
    requires
        bytes.len() > 0,
    ensures
        ({
            let loaded = deliver(
                StateView::Pending,
                ResponseView::Loaded { status: STATUS_OK, body: Some(bytes) },
            );
            &&& loaded == StateView::Ready(bytes)
            &&& binary_result(loaded) == Ok::<Seq<u8>, FileErrorView>(bytes)
            &&& binary_result(after_binary(loaded)) == Ok::<Seq<u8>, FileErrorView>(
                Seq::empty(),
            )
        }),
{
}

/// A load that does not carry data fails, and on a failed load both reads
/// return the same failure, the stored message, and change nothing.
pub proof fn lemma_failed_reads_agree(response: ResponseView)
    requires
        !carries_data(response),
    ensures
        ({
            let failed = deliver(StateView::Pending, response);
            &&& failed matches StateView::Failed(message)
            &&& binary_result(failed) == Err::<Seq<u8>, FileErrorView>(
                FileErrorView::NetworkFailure(message),
            )
            &&& text_result(failed) == Err::<Seq<char>, FileErrorView>(
                FileErrorView::NetworkFailure(message),
            )
            &&& after_binary(failed) == failed
        }),
{
}

/// Reading text never hands out what is not text: on loaded bytes that are
/// not well-formed UTF-8, such as bytes that begin with a byte no
/// character's encoding begins with, it returns a decode failure, and the
/// bytes can still be read as they are.
pub proof fn lemma_undecodable_text_is_refused(bytes: Seq<u8>)
    requires
        !valid_utf8(bytes) || (bytes.len() > 0 && !can_lead(bytes[0])),
    ensures
        text_result(StateView::Ready(bytes)) == Err::<Seq<char>, FileErrorView>(
            FileErrorView::DecodeFailure,
        ),
        binary_result(StateView::Ready(bytes)) == Ok::<Seq<u8>, FileErrorView>(bytes),
{
    if bytes.len() > 0 && !can_lead(bytes[0]) {
        lemma_stray_lead_is_invalid(bytes);
    }
}

} // verus!
