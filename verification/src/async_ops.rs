//! Life cycle of one overlapped (asynchronous) native operation.
//!
//! An [`AsyncOperation`] owns the model of one overlapped request: a result
//! buffer whose storage is allocated once and only ever rewritten in place, a
//! status word, a transferred-byte count and an optional completion-event
//! handle. The native layer issues the request, later reports whether the
//! blocking or non-blocking result call succeeded and with which
//! operating-system code; the methods here turn each such report into the
//! caller's typed outcome and the operation's next state.
//!
//! Two native sentinel codes are special-cased, and only these two: the
//! "operation pending" code, which an issuing call returns to mean "accepted,
//! in progress", and the "operation incomplete" code, which the non-blocking
//! result call returns to mean "not yet done". Every other failure code is a
//! hard error.

use vstd::prelude::*;

use crate::codec::MAX_CODEC_LEN;
use crate::codec::extract_string_from_buffer;
use crate::codec::ascii_bytes;
use crate::codec::chars_of_bytes;
use crate::codec::gbk_decode_of;
use crate::codec::has_nul;
use crate::codec::nul_prefix;
use crate::error::CtApiError;

verus! {

/// Status word of an overlapped request whose outcome is not yet known.
pub const STATUS_PENDING: u32 = 0x103;

/// Status word of an overlapped request that was never started.
pub const STATUS_NOT_STARTED: u32 = 0;

/// Status word recorded when a wait reported a hard failure. A marker of
/// this model, chosen apart from every other status word here: the
/// operating system reuses the pending sentinel's value as an ordinary
/// error code, so storing a reported code directly could make a failed
/// operation read as still pending.
pub const STATUS_FAILED: u32 = 0xFFFF_FFFF;

/// Operating-system code that an issuing call reports to mean "request
/// accepted, outcome arrives later"; the initiator treats it as success.
pub const ERROR_IO_PENDING: u32 = 997;

/// Operating-system code that the non-blocking result call reports to mean
/// "asked for the result, but it is not ready"; the native layer reuses the
/// pending code for it.
pub const ERROR_IO_INCOMPLETE: u32 = 997;

/// Buffer size used when the caller names none.
pub const DEFAULT_BUFFER_SIZE: usize = 256;

/// Mathematical state of an asynchronous operation.
#[verifier::ext_equal]
pub struct OpState {
    /// Status word of the control block.
    pub status: u32,
    /// Byte count reported by the last completed transfer.
    pub transferred: u32,
    /// Contents of the result buffer.
    pub buffer: Seq<u8>,
    /// Completion-event handle, zero when none is attached.
    pub event: u64,
}

/// State of a freshly created operation: not started, nothing transferred,
/// a zeroed buffer of the requested size, and the given event handle.
pub open spec fn fresh_op(size: nat, event: u64) -> OpState {
    OpState { status: STATUS_NOT_STARTED, transferred: 0, buffer: Seq::new(size, |i: int| 0u8), event }
}

/// State after a reset: not started, nothing transferred, the buffer zeroed
/// at its old size, and the event handle kept.
pub open spec fn reset_op(s: OpState) -> OpState {
    OpState {
        status: STATUS_NOT_STARTED,
        transferred: 0,
        buffer: Seq::new(s.buffer.len(), |i: int| 0u8),
        event: s.event,
    }
}

/// The operation has a request outstanding.
pub open spec fn is_pending(s: OpState) -> bool {
    s.status == STATUS_PENDING
}

/// Number of buffer bytes covered by a reported transfer: the reported
/// count, capped at the buffer length.
pub open spec fn filled_len(buffer: Seq<u8>, bytes: u32) -> int {
    if bytes as int <= buffer.len() {
        bytes as int
    } else {
        buffer.len() as int
    }
}

/// The region of the buffer covered by a reported transfer.
pub open spec fn filled_region(buffer: Seq<u8>, bytes: u32) -> Seq<u8> {
    buffer.take(filled_len(buffer, bytes))
}

/// Outcome of decoding a completed transfer: the text before the first zero
/// terminator of the filled region, or a decoding error when that region
/// holds no terminator.
pub open spec fn decode_outcome(buffer: Seq<u8>, bytes: u32) -> Result<Seq<char>, CtApiError> {
    let filled = filled_region(buffer, bytes);
    if has_nul(filled) {
        Ok(gbk_decode_of(nul_prefix(filled)))
    } else {
        Err(CtApiError::Decoding)
    }
}

/// Outcome of a blocking wait, given the native layer's report: a system
/// error carrying the reported code when the result call failed, else the
/// decoded buffer text.
pub open spec fn wait_outcome(ok: bool, code: u32, buffer: Seq<u8>, bytes: u32) -> Result<
    Seq<char>,
    CtApiError,
> {
    if ok {
        decode_outcome(buffer, bytes)
    } else {
        Err(CtApiError::System { code })
    }
}

/// Law: a retrieval decision always resolves. Whatever the native layer
/// reports after a wait — in particular after a cancel request, whose race
/// with completion the native layer settles — the outcome is either decoded
/// text or an error, never a still-pending marker: text exactly when the
/// call succeeded and the filled region holds a terminator.
pub proof fn lemma_wait_resolves(ok: bool, code: u32, buffer: Seq<u8>, bytes: u32)
    ensures
        wait_outcome(ok, code, buffer, bytes) is Ok || wait_outcome(ok, code, buffer, bytes) is Err,
        wait_outcome(ok, code, buffer, bytes) is Ok <==> ok && has_nul(filled_region(buffer, bytes)),
        !ok ==> wait_outcome(ok, code, buffer, bytes) == Err::<Seq<char>, CtApiError>(
            CtApiError::System { code },
        ),
{
}

/// Law: a freshly created operation is not pending, whatever its buffer
/// size and event handle; the initial status word differs from the pending
/// sentinel.
pub proof fn lemma_fresh_not_pending(size: nat, event: u64)
    ensures
        !is_pending(fresh_op(size, event)),
        fresh_op(size, event).status == STATUS_NOT_STARTED,
{
}

/// Law: resetting a freshly created operation gives that same state back —
/// a buffer of the same size, still fully zeroed, with the control block
/// not started and the event handle kept.
pub proof fn lemma_create_then_reset(size: nat, event: u64)
    ensures
        reset_op(fresh_op(size, event)) =~= fresh_op(size, event),
        reset_op(fresh_op(size, event)).buffer.len() == size,
        forall|i: int| 0 <= i < size ==> reset_op(fresh_op(size, event)).buffer[i] == 0,
        reset_op(fresh_op(size, event)).status == STATUS_NOT_STARTED,
{
}

/// Model of one overlapped native request: the control block's status and
/// byte count, the owned result buffer, and the optional completion-event
/// handle.
///
/// The buffer is allocated at creation and only ever rewritten in place —
/// never reallocated, grown or shrunk — mirroring the native constraint that
/// the storage a pending request writes into must not move.
#[derive(Debug)]
pub struct AsyncOperation {
    status: u32,
    transferred: u32,
    buffer: Vec<u8>,
    event_handle: u64,
}

impl View for AsyncOperation {
    type V = OpState;

    closed spec fn view(&self) -> OpState {
        OpState {
            status: self.status,
            transferred: self.transferred,
            buffer: self.buffer@,
            event: self.event_handle,
        }
    }
}

impl AsyncOperation {
    /// A new operation with the default buffer size and no event handle.
    pub fn new() -> (r: Self)
        ensures
            r@ =~= fresh_op(DEFAULT_BUFFER_SIZE as nat, 0),
    {
        Self::with_buffer_size(DEFAULT_BUFFER_SIZE)
    }

    /// A new operation with a buffer of the given size and no event handle.
    pub fn with_buffer_size(buffer_size: usize) -> (r: Self)
        ensures
            r@ =~= fresh_op(buffer_size as nat, 0),
    {
        let mut buffer: Vec<u8> = Vec::new();
        let mut k: usize = 0;
        while k < buffer_size
            invariant
                k <= buffer_size,
                buffer@ =~= Seq::new(k as nat, |i: int| 0u8),
            decreases buffer_size - k,
        {
            buffer.push(0);
            k += 1;
        }
        Self { status: STATUS_NOT_STARTED, transferred: 0, buffer, event_handle: 0 }
    }

    /// An operation over the completion event a native call created for it:
    /// a fresh operation holding the event exactly when the handle is
    /// non-zero, else a system error with the operating-system code reported
    /// beside the null handle — creation fails only when event creation
    /// failed.
    pub fn with_event(buffer_size: usize, event: u64, os_error: u32) -> (r: Result<
        Self,
        CtApiError,
    >)
        ensures
            event != 0 ==> (r matches Ok(op) && op@ =~= fresh_op(buffer_size as nat, event)),
            event == 0 ==> (r matches Err(e) && e == (CtApiError::System { code: os_error })),
    {
        if event == 0 {
            return Err(CtApiError::System { code: os_error });
        }
        let mut op = Self::with_buffer_size(buffer_size);
        op.event_handle = event;
        Ok(op)
    }

    /// The attached completion-event handle, zero when none.
    pub fn event_handle(&self) -> (r: u64)
        ensures
            r == self@.event,
    {
        self.event_handle
    }

    /// Size of the result buffer.
    pub fn buffer_len(&self) -> (r: usize)
        ensures
            r == self@.buffer.len(),
    {
        self.buffer.len()
    }

    /// One byte of the result buffer.
    pub fn byte_at(&self, i: usize) -> (r: u8)
        requires
            i < self@.buffer.len(),
        ensures
            r == self@.buffer[i as int],
    {
        self.buffer[i]
    }

    /// Current status word of the control block.
    pub fn status(&self) -> (r: u32)
        ensures
            r == self@.status,
    {
        self.status
    }

    /// Whether the operation has completed, judged from the local status
    /// word alone: true exactly when it differs from the pending sentinel.
    /// This is an approximate check; the authoritative answer comes from the
    /// native result call fed into [`Self::get_result`] or
    /// [`Self::try_get_result`].
    pub fn is_complete(&self) -> (r: bool)
        ensures
            r == !is_pending(self@),
    {
        self.status != STATUS_PENDING
    }

    /// Records the outcome of issuing a native call against this operation,
    /// normalizing the pending sentinel into acceptance: the request is
    /// underway when the call succeeded or failed with exactly the pending
    /// code, and any other failure code is a hard error that leaves the
    /// operation unchanged.
    pub fn initiate(&mut self, native_ok: bool, os_error: u32) -> (r: Result<(), CtApiError>)
        requires
            !is_pending(old(self)@),
        ensures
            native_ok || os_error == ERROR_IO_PENDING ==> r is Ok && final(self)@ =~= (OpState {
                status: STATUS_PENDING,
                ..old(self)@
            }),
            !(native_ok || os_error == ERROR_IO_PENDING) ==> (r matches Err(e) && e
                == (CtApiError::System { code: os_error }) && final(self)@ =~= old(self)@),
    {
        if native_ok || os_error == ERROR_IO_PENDING {
            self.status = STATUS_PENDING;
            Ok(())
        } else {
            Err(CtApiError::System { code: os_error })
        }
    }

    /// Copies bytes the native layer produced into the front of the result
    /// buffer, leaving the rest and the buffer's size unchanged.
    pub fn load_bytes(&mut self, data: &[u8])
        ensures
            final(self)@.buffer.len() == old(self)@.buffer.len(),
            forall|i: int|
                0 <= i < old(self)@.buffer.len() ==> final(self)@.buffer[i] == if i < data@.len() {
                    data@[i]
                } else {
                    old(self)@.buffer[i]
                },
            final(self)@.status == old(self)@.status,
            final(self)@.transferred == old(self)@.transferred,
            final(self)@.event == old(self)@.event,
    {
        let n = if data.len() < self.buffer.len() {
            data.len()
        } else {
            self.buffer.len()
        };
        let mut k: usize = 0;
        while k < n
            invariant
                n <= data@.len(),
                n <= self.buffer@.len(),
                k <= n,
                self.buffer@.len() == old(self)@.buffer.len(),
                forall|i: int|
                    0 <= i < self.buffer@.len() ==> self.buffer@[i] == if i < k {
                        data@[i]
                    } else {
                        old(self)@.buffer[i]
                    },
                self.status == old(self)@.status,
                self.transferred == old(self)@.transferred,
                self.event_handle == old(self)@.event,
            decreases n - k,
        {
            let b = data[k];
            self.buffer.set(k, b);
            k += 1;
        }
    }

    /// Outcome of the blocking wait, given the native result call's report:
    /// on success, the text before the first zero terminator of the filled
    /// region of the buffer; on failure, a system error with the reported
    /// code. Records the completion in the status word either way.
    pub fn get_result(&mut self, native_ok: bool, os_error: u32, bytes_transferred: u32) -> (r:
        Result<String, CtApiError>)
        requires
            old(self)@.buffer.len() < MAX_CODEC_LEN,
        ensures
            r is Ok <==> wait_outcome(native_ok, os_error, old(self)@.buffer, bytes_transferred)
                is Ok,
            r matches Ok(s) ==> (wait_outcome(
                native_ok,
                os_error,
                old(self)@.buffer,
                bytes_transferred,
            ) matches Ok(cs) && s@ == cs),
            r matches Err(e) ==> (wait_outcome(
                native_ok,
                os_error,
                old(self)@.buffer,
                bytes_transferred,
            ) matches Err(e2) && e == e2),
            r matches Ok(s) ==> (ascii_bytes(
                nul_prefix(filled_region(old(self)@.buffer, bytes_transferred)),
            ) ==> s@ == chars_of_bytes(
                nul_prefix(filled_region(old(self)@.buffer, bytes_transferred)),
            )),
            final(self)@.buffer == old(self)@.buffer,
            final(self)@.event == old(self)@.event,
            native_ok ==> final(self)@.status == STATUS_NOT_STARTED && final(self)@.transferred
                == bytes_transferred,
            !native_ok ==> final(self)@.status == STATUS_FAILED && final(self)@.transferred == old(
                self,
            )@.transferred,
    {
        if !native_ok {
            self.status = STATUS_FAILED;
            return Err(CtApiError::System { code: os_error });
        }
        self.status = STATUS_NOT_STARTED;
        self.transferred = bytes_transferred;
        let result_len = if (bytes_transferred as usize) < self.buffer.len() {
            bytes_transferred as usize
        } else {
            self.buffer.len()
        };
        let mut filled: Vec<u8> = Vec::new();
        let mut k: usize = 0;
        while k < result_len
            invariant
                result_len <= self.buffer@.len(),
                k <= result_len,
                filled@ == self.buffer@.take(k as int),
            decreases result_len - k,
        {
            let b = self.buffer[k];
            filled.push(b);
            k += 1;
            proof {
                assert(filled@ =~= self.buffer@.take(k as int));
            }
        }
        proof {
            assert(filled@ =~= filled_region(self.buffer@, bytes_transferred));
        }
        extract_string_from_buffer(filled.as_slice())
    }

    /// Outcome of the non-blocking poll, given the native result call's
    /// report: `None` exactly when the call failed with the incomplete
    /// sentinel, in which case the operation is unchanged and still
    /// underway; otherwise the same outcome as the blocking wait.
    pub fn try_get_result(&mut self, native_ok: bool, os_error: u32, bytes_transferred: u32) -> (r:
        Option<Result<String, CtApiError>>)
        requires
            old(self)@.buffer.len() < MAX_CODEC_LEN,
        ensures
            r is None <==> !native_ok && os_error == ERROR_IO_INCOMPLETE,
            r is None ==> final(self)@ =~= old(self)@,
            r matches Some(out) ==> (out is Ok <==> wait_outcome(
                native_ok,
                os_error,
                old(self)@.buffer,
                bytes_transferred,
            ) is Ok),
            r matches Some(out) ==> (out matches Ok(s) ==> (wait_outcome(
                native_ok,
                os_error,
                old(self)@.buffer,
                bytes_transferred,
            ) matches Ok(cs) && s@ == cs)),
            r matches Some(out) ==> (out matches Err(e) ==> (wait_outcome(
                native_ok,
                os_error,
                old(self)@.buffer,
                bytes_transferred,
            ) matches Err(e2) && e == e2)),
            r matches Some(out) ==> (out matches Ok(s) ==> (ascii_bytes(
                nul_prefix(filled_region(old(self)@.buffer, bytes_transferred)),
            ) ==> s@ == chars_of_bytes(
                nul_prefix(filled_region(old(self)@.buffer, bytes_transferred)),
            ))),
            final(self)@.buffer == old(self)@.buffer,
            final(self)@.event == old(self)@.event,
            native_ok ==> final(self)@.status == STATUS_NOT_STARTED && final(self)@.transferred
                == bytes_transferred,
            r is Some && !native_ok ==> final(self)@.status == STATUS_FAILED
                && final(self)@.transferred == old(self)@.transferred,
    {
        if !native_ok && os_error == ERROR_IO_INCOMPLETE {
            return None;
        }
        Some(self.get_result(native_ok, os_error, bytes_transferred))
    }

    /// Outcome of the native cancel request: success reports that the
    /// request was accepted, any failure code is a hard error. Cancellation
    /// is advisory — the operation may still complete with data — so the
    /// operation's state is left untouched and a final outcome must still be
    /// retrieved.
    pub fn cancel(&self, native_ok: bool, os_error: u32) -> (r: Result<bool, CtApiError>)
        ensures
            native_ok ==> r == Ok::<bool, CtApiError>(true),
            !native_ok ==> (r matches Err(e) && e == (CtApiError::System { code: os_error })),
    {
        if native_ok {
            Ok(true)
        } else {
            Err(CtApiError::System { code: os_error })
        }
    }

    /// Restores the operation for reuse: the control block returns to the
    /// not-started state, the buffer is zeroed in place at its old size, and
    /// the event handle is kept. Must not be called while a request is
    /// outstanding.
    pub fn reset(&mut self)
        requires
            !is_pending(old(self)@),
        ensures
            final(self)@ =~= reset_op(old(self)@),
    {
        self.status = STATUS_NOT_STARTED;
        self.transferred = 0;
        let n = self.buffer.len();
        let mut k: usize = 0;
        while k < n
            invariant
                n == self.buffer@.len(),
                k <= n,
                forall|i: int| 0 <= i < k ==> self.buffer@[i] == 0,
                self.status == STATUS_NOT_STARTED,
                self.transferred == 0,
                self.event_handle == old(self)@.event,
            decreases n - k,
        {
            self.buffer.set(k, 0);
            k += 1;
        }
        proof {
            assert(self.buffer@ =~= Seq::new(old(self)@.buffer.len(), |i: int| 0u8));
        }
    }
}

impl Default for AsyncOperation {
    /// A new operation with the default buffer size and no event handle.
    fn default() -> (r: Self)
        ensures
            r@ =~= fresh_op(DEFAULT_BUFFER_SIZE as nat, 0),
    {
        Self::new()
    }
}

} // verus!
