//! The simulator side of the message exchange: the start-up handshake and
//! the answer to each bus access of the firmware process.
use vstd::prelude::*;

use crate::ipc_protocol::{Request, Response, CMD_READ, CMD_READY, CMD_WRITE, RESP_DATA, RESP_ERROR};
use crate::regions::mmio_handler::MmioHandler;
use crate::simulator::{first_covering, Simulator};

verus! {

/// A data response: the access was carried out.
pub open spec fn data_response(seq: u16, value: u64) -> Response {
    Response { resp_type: RESP_DATA, seq, _reserved: [0u8, 0u8, 0u8, 0u8, 0u8], value }
}

/// An error response: no peripheral at the address, or an unknown command.
pub open spec fn error_response(seq: u16) -> Response {
    Response { resp_type: RESP_ERROR, seq, _reserved: [0u8, 0u8, 0u8, 0u8, 0u8], value: 0 }
}

/// Progress of the start-up handshake.
#[derive(Clone, Copy, Debug, PartialEq, Eq, Structural)]
pub enum Handshake {
    /// The firmware process has not announced itself yet; its signal
    /// handler may not be installed, so nothing may be sent to it.
    AwaitingReady,
    /// READY was received: every request is answered.
    Serving,
}

/// The phase after a request, and whether the request is to be answered.
pub open spec fn handshake_step(phase: Handshake, cmd: u8) -> (Handshake, bool) {
    match phase {
        Handshake::AwaitingReady => if cmd == CMD_READY {
            (Handshake::Serving, false)
        } else {
            (Handshake::AwaitingReady, false)
        },
        Handshake::Serving => (Handshake::Serving, true),
    }
}

impl Handshake {
    /// Takes a request from the firmware process: before READY every
    /// request is dropped, READY itself starts the serving phase without
    /// an answer, and from then on every request is answered.
    pub fn on_request(self, req: &Request) -> (r: (Handshake, bool))
        ensures
            r == handshake_step(self, req.cmd),
    {
        match self {
            Handshake::AwaitingReady => if req.cmd == CMD_READY {
                (Handshake::Serving, false)
            } else {
                (Handshake::AwaitingReady, false)
            },
            Handshake::Serving => (Handshake::Serving, true),
        }
    }
}

/// What the simulator does with a request.
#[derive(Clone, Copy, Debug)]
pub enum ServeOutcome {
    /// Send this response.
    Respond(Response),
    /// The peripheral at the address does not serve the access: a fault of
    /// the simulated firmware.
    Fault,
}

/// The outcome of a request on a bus whose handlers are `hs`: an error
/// response when no handler holds the address or the command is neither
/// read nor write; for a served read the handler's register value, for a
/// served write a data response with value 0; a fault when the handler
/// refuses the access.  The response carries the request's sequence number.
pub open spec fn serve_outcome<H: MmioHandler>(hs: Seq<H>, req: Request) -> ServeOutcome {
    let addr = req.address as usize;
    match first_covering(hs, addr, 0) {
        None => ServeOutcome::Respond(error_response(req.seq)),
        Some(i) => if req.cmd == CMD_READ {
            if hs[i].read_ok(addr) {
                ServeOutcome::Respond(data_response(req.seq, hs[i].read_value(addr) as u64))
            } else {
                ServeOutcome::Fault
            }
        } else if req.cmd == CMD_WRITE {
            if hs[i].write_ok(addr, req.value) {
                ServeOutcome::Respond(data_response(req.seq, 0))
            } else {
                ServeOutcome::Fault
            }
        } else {
            ServeOutcome::Respond(error_response(req.seq))
        },
    }
}

/// Whether `next` are the handlers after the request: a served read or
/// write changes the handler that holds the address as its `read_done` or
/// `written` says, every other request leaves the handlers as they are.
pub open spec fn served_handlers<H: MmioHandler>(hs: Seq<H>, req: Request, next: Seq<H>) -> bool {
    let addr = req.address as usize;
    match first_covering(hs, addr, 0) {
        Some(i) => if req.cmd == CMD_READ && hs[i].read_ok(addr) {
            &&& next.len() == hs.len()
            &&& hs[i].read_done(addr, &next[i])
            &&& forall|j: int| 0 <= j < hs.len() && j != i ==> #[trigger] next[j] == hs[j]
        } else if req.cmd == CMD_WRITE && hs[i].write_ok(addr, req.value) {
            &&& next.len() == hs.len()
            &&& hs[i].written(addr, req.value, &next[i])
            &&& forall|j: int| 0 <= j < hs.len() && j != i ==> #[trigger] next[j] == hs[j]
        } else {
            next == hs
        },
        None => next == hs,
    }
}

proof fn lemma_first_covering_bounds<H: MmioHandler>(hs: Seq<H>, address: usize, k: int)
    ensures
        first_covering(hs, address, k) matches Some(i) ==> k <= i < hs.len() && hs[i].covers(
            address,
        ),
    decreases hs.len() - k,
{
    if 0 <= k < hs.len() && !hs[k].covers(address) {
        lemma_first_covering_bounds(hs, address, k + 1);
    }
}

/// Answers one request of the firmware process.
pub fn serve_request<H: MmioHandler>(sim: &mut Simulator<H>, req: &Request) -> (out: ServeOutcome)
    ensures
        out == serve_outcome(old(sim).handlers@, *req),
        served_handlers(old(sim).handlers@, *req, final(sim).handlers@),
{
    let addr = req.address as usize;
    let seq = req.seq;
    let error = Response { resp_type: RESP_ERROR, seq, _reserved: [0;5], value: 0 };
    proof {
        assert(error._reserved =~= error_response(seq)._reserved);
        lemma_first_covering_bounds(old(sim).handlers@, addr, 0);
    }
    match sim.lookup_handler(addr) {
        None => ServeOutcome::Respond(error),
        Some(handler) => {
            proof {
                let hs = old(sim).handlers@;
                let i = first_covering(hs, addr, 0)->0;
                assert(hs.update(i, hs[i]) =~= hs);
            }
            if req.cmd == CMD_READ {
                if handler.can_read(addr) {
                    let value = handler.read(addr) as u64;
                    let resp = Response { resp_type: RESP_DATA, seq, _reserved: [0;5], value };
                    proof {
                        assert(resp._reserved =~= data_response(seq, value)._reserved);
                    }
                    ServeOutcome::Respond(resp)
                } else {
                    ServeOutcome::Fault
                }
            } else if req.cmd == CMD_WRITE {
                if handler.can_write(addr, req.value) {
                    handler.write(addr, req.value);
                    let resp = Response { resp_type: RESP_DATA, seq, _reserved: [0;5], value: 0 };
                    proof {
                        assert(resp._reserved =~= data_response(seq, 0)._reserved);
                    }
                    ServeOutcome::Respond(resp)
                } else {
                    ServeOutcome::Fault
                }
            } else {
                ServeOutcome::Respond(error)
            }
        },
    }
}

/// Every answer carries the sequence number of the request it answers, and
/// only a request that reaches a peripheral can fault.
pub proof fn law_answer_matches_request<H: MmioHandler>(hs: Seq<H>, req: Request)
    ensures
        serve_outcome(hs, req) matches ServeOutcome::Respond(resp) ==> resp.seq == req.seq,
        serve_outcome(hs, req) is Fault ==> first_covering(hs, req.address as usize, 0) is Some
            && (req.cmd == CMD_READ || req.cmd == CMD_WRITE),
{
}

/// No request is answered before READY, and once READY arrived every
/// request is.
pub proof fn law_nothing_answered_before_ready(cmd: u8)
    ensures
        !handshake_step(Handshake::AwaitingReady, cmd).1,
        handshake_step(Handshake::AwaitingReady, cmd).0 == (if cmd == CMD_READY {
            Handshake::Serving
        } else {
            Handshake::AwaitingReady
        }),
        handshake_step(Handshake::Serving, cmd) == (Handshake::Serving, true),
{
}

} // verus!
