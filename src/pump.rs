//! The client's network pump: what to do with each line read from the
//! server and each line queued for it.
use vstd::prelude::*;

use crate::text::{strip_newline, with_newline, without_newline};

verus! {

/// What the pump's task observed.
#[derive(Clone, Debug)]
pub enum PumpEvent {
    /// A line read from the server, with its newline; empty at end of stream.
    LineRead(String),
    /// Reading from the server failed.
    ReadFailed,
    /// A line queued for the server, without its newline.
    Outgoing(String),
    /// The queue of outgoing lines has no sender left.
    QueueClosed,
    /// Writing to the server failed.
    WriteFailed,
}

/// What the pump does next.
#[derive(Clone, Debug)]
pub enum PumpAction {
    /// Hand this line to the dispatcher as a received message.
    Deliver(String),
    /// Write this text to the server.
    Write(String),
    /// End the pump: the session is over.
    Stop,
}

/// An action, with its text as characters.
pub enum PumpActionView {
    Deliver(Seq<char>),
    Write(Seq<char>),
    Stop,
}

impl View for PumpAction {
    type V = PumpActionView;

    open spec fn view(&self) -> PumpActionView {
        match self {
            PumpAction::Deliver(t) => PumpActionView::Deliver(t@),
            PumpAction::Write(t) => PumpActionView::Write(t@),
            PumpAction::Stop => PumpActionView::Stop,
        }
    }
}

/// The action for each event: a line read is delivered without its newline,
/// a queued line is written with one, and the end of the stream, a closed
/// queue or an I/O error stops the pump.
pub open spec fn pump_next(e: PumpEvent) -> PumpActionView {
    match e {
        PumpEvent::LineRead(l) => if l@.len() == 0 {
            PumpActionView::Stop
        } else {
            PumpActionView::Deliver(without_newline(l@))
        },
        PumpEvent::Outgoing(m) => PumpActionView::Write(m@ + seq!['\n']),
        _ => PumpActionView::Stop,
    }
}

/// Decides what the pump does with one event.
pub fn pump_step(event: PumpEvent) -> (r: PumpAction)
    ensures
        r@ == pump_next(event),
{
    match event {
        PumpEvent::LineRead(line) => {
            if line.as_str().unicode_len() == 0 {
                PumpAction::Stop
            } else {
                PumpAction::Deliver(strip_newline(line.as_str()))
            }
        },
        PumpEvent::Outgoing(msg) => PumpAction::Write(with_newline(msg.as_str())),
        _ => PumpAction::Stop,
    }
}

} // verus!
