//! The decode-request protocol: the request and result records that travel
//! between the interactive side and the background worker, and the work one
//! request amounts to.
//!
//! The worker owns a pipeline and processes requests strictly in order. A
//! driver runs the loop: it receives a request, calls `run_request`, stamps
//! the wall time onto the result, and sends the result back. Everything the
//! worker computes — slicing the shared buffer to the decode window, running
//! the pipeline, packaging the outcome — stands here with a contract.

use vstd::prelude::*;

verus! {

use vstd::string::StringExecFns;
use crate::audio::SampleBuffer;
use crate::error::VoyagerError;
use crate::pipeline::DecodingPipeline;
use crate::pipeline::PipelineResult;
use crate::sstv::DecoderParams;
use crate::sstv::spec_decode;
use crate::sstv::spec_row_size;

/// A request to decode a window of a shared buffer in the background.
///
/// Constructing one costs O(1): the buffer travels by handle, never by copy.
pub struct DecodeRequest {
    /// Monotonic id for matching results to requests.
    pub id: u64,
    /// Shared handle to the channel's samples.
    pub samples: SampleBuffer,
    /// Sample index where the decode window starts.
    pub start_offset: usize,
    /// Decoder parameters for this request.
    pub params: DecoderParams,
    /// Sample rate in Hz.
    pub sample_rate: u32,
}

/// The outcome of one background decode.
///
/// Exactly one of `result` and `error` is populated.
#[derive(Debug, Clone, PartialEq, Eq)]
pub struct DecodeResult {
    /// The id of the request this result answers.
    pub id: u64,
    /// The decoded raster, when decoding succeeded.
    pub result: Option<PipelineResult>,
    /// Wall time of the decode in milliseconds, stamped by the driver;
    /// `run_request` leaves it zero.
    pub decode_duration_ms: u64,
    /// A short message, when decoding failed.
    pub error: Option<String>,
}

/// How many samples the decode window of a request covers.
pub open spec fn spec_window_len(decode_window_ms: u32, sample_rate: u32) -> int {
    decode_window_ms * sample_rate / 1000
}

/// The slice of the shared buffer that a request decodes: the window starting
/// at `start_offset`, clamped to the end of the buffer; empty when the offset
/// lies past the end.
pub open spec fn spec_request_window(req: DecodeRequest) -> Seq<i32> {
    let samples = req.samples.samples();
    let window = spec_window_len(req.params.decode_window_ms, req.sample_rate);
    if req.start_offset < samples.len() {
        samples.subrange(
            req.start_offset as int,
            vstd::math::min(req.start_offset + window, samples.len() as int),
        )
    } else {
        Seq::empty()
    }
}

/// Whether a request's window decodes to a non-empty raster.
pub open spec fn spec_request_succeeds(req: DecodeRequest) -> bool {
    spec_decode(spec_request_window(req), req.params, req.sample_rate) matches Ok(s) && s.len() > 0
}

/// Performs the work of one request: slices the shared buffer to the decode
/// window and runs the pipeline.
///
/// The result carries the request's id. Exactly one of `result` and `error`
/// is populated: the raster of the window's decode when it is non-empty, a
/// message otherwise. The duration field is left zero for the driver to
/// stamp.
pub fn run_request(pipeline: &DecodingPipeline, request: &DecodeRequest) -> (r: DecodeResult)
    ensures
        r.id == request.id,
        r.decode_duration_ms == 0,
        (r.result is Some) <==> spec_request_succeeds(*request),
        (r.error is Some) <==> !spec_request_succeeds(*request),
        r.result matches Some(res) ==> {
            &&& spec_decode(spec_request_window(*request), request.params, request.sample_rate)
                matches Ok(s)
            &&& res.pixels@ == s
            &&& res.wf()
            &&& res.mode == request.params.mode
            &&& res.height == s.len() as int / spec_row_size(request.params.mode)
        },
{
    let len: usize = request.samples.len();
    proof {
        vstd::arithmetic::mul::lemma_mul_upper_bound(
            request.params.decode_window_ms as int,
            u32::MAX as int,
            request.sample_rate as int,
            u32::MAX as int,
        );
    }
    let window64: u64 = (request.params.decode_window_ms as u64) * (request.sample_rate as u64)
        / 1000;
    let all: &[i32] = request.samples.as_slice();
    let window_slice: &[i32] = if request.start_offset < len {
        let avail: usize = len - request.start_offset;
        let take: usize = if window64 < (avail as u64) {
            window64 as usize
        } else {
            avail
        };
        vstd::slice::slice_subrange(all, request.start_offset, request.start_offset + take)
    } else {
        vstd::slice::slice_subrange(all, 0, 0)
    };
    proof {
        assert(window_slice@ =~= spec_request_window(*request));
    }
    match pipeline.process(window_slice, &request.params, request.sample_rate) {
        Ok(res) => DecodeResult {
            id: request.id,
            result: Some(res),
            decode_duration_ms: 0,
            error: None,
        },
        Err(e) => DecodeResult {
            id: request.id,
            result: None,
            decode_duration_ms: 0,
            error: Some(String::from_str(e.describe())),
        },
    }
}

/// Prepares a decode request at a playback position, applying the
/// interactive side's checks: the buffer must be non-empty, the position in
/// bounds, and at least a tenth of a second of audio must remain.
///
/// Returns the request exactly when all three hold; the samples travel as a
/// shared handle, so this is O(1).
pub fn prepare_request(
    id: u64,
    samples: SampleBuffer,
    position: usize,
    params: &DecoderParams,
    sample_rate: u32,
) -> (r: Option<DecodeRequest>)
    ensures
        (r is Some) <==> samples.samples().len() > 0 && position < samples.samples().len()
            && samples.samples().len() - position >= sample_rate as int / 10,
        r matches Some(req) ==> {
            &&& req.id == id
            &&& req.samples.samples() == samples.samples()
            &&& req.start_offset == position
            &&& req.params == *params
            &&& req.sample_rate == sample_rate
        },
{
    let len: usize = samples.len();
    if len == 0 {
        return None;
    }
    if position >= len {
        return None;
    }
    let min_window: u32 = sample_rate / 10;
    if len - position < (min_window as usize) {
        return None;
    }
    Some(DecodeRequest { id, samples, start_offset: position, params: *params, sample_rate })
}

/// The live-playback redecode policy: a fresh decode is issued only when the
/// position has moved at least half a second of audio since the last one,
/// so rapid position updates do not flood the worker.
pub fn should_redecode(position: usize, last_decode_position: usize, sample_rate: u32) -> (r:
    bool)
    ensures
        r == (vstd::math::abs(position - last_decode_position) >= sample_rate as int / 2),
{
    let change: usize = if position >= last_decode_position {
        position - last_decode_position
    } else {
        last_decode_position - position
    };
    change >= ((sample_rate / 2) as usize)
}

} // verus!
