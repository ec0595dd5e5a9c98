//! The reader of the transport: what to do with each thing that the inbound
//! stream yields, and which events a series of frames publishes.

use crate::decoder::{decode, decode_spec, LcuData, LcuDataView};
use vstd::prelude::*;

verus! {

/// Events that the broadcast channel keeps for a subscriber that falls behind.
pub const CHANNEL_CAPACITY: usize = 100;

/// What the inbound stream yields.
#[derive(Clone, Copy, Debug)]
pub enum Inbound<'a> {
    /// A frame with this text arrived.
    Frame(&'a str),
    /// Reading failed.
    Failed,
    /// The stream ended without an error.
    Closed,
}

/// What the reader does next.
#[derive(Clone, Debug, PartialEq)]
pub enum ReaderAction {
    /// Publish the event to every current subscriber and read on.
    Publish(LcuData),
    /// The frame carries no event: read on.
    Skip,
    /// The frame is malformed: drop it and read on.
    Discard,
    /// The connection has ended: raise the stop signal and stop reading.
    Stop,
}

/// What a [`ReaderAction`] holds.
pub enum ReaderActionView {
    Publish(LcuDataView),
    Skip,
    Discard,
    Stop,
}

impl View for ReaderAction {
    type V = ReaderActionView;

    open spec fn view(&self) -> ReaderActionView {
        match self {
            ReaderAction::Publish(event) => ReaderActionView::Publish(event@),
            ReaderAction::Skip => ReaderActionView::Skip,
            ReaderAction::Discard => ReaderActionView::Discard,
            ReaderAction::Stop => ReaderActionView::Stop,
        }
    }
}

/// The action for a frame: publish the event it decodes to, skip a frame
/// without an event, discard a malformed one.
pub open spec fn frame_action(frame: Seq<char>) -> ReaderActionView {
    match decode_spec(frame) {
        Ok(Some(event)) => ReaderActionView::Publish(event),
        Ok(None) => ReaderActionView::Skip,
        Err(_) => ReaderActionView::Discard,
    }
}

/// The action for whatever the stream yields: a frame is decoded, a failure
/// or the end of the stream stops the reader.
pub open spec fn inbound_action(input: Inbound<'_>) -> ReaderActionView {
    match input {
        Inbound::Frame(text) => frame_action(text@),
        Inbound::Failed => ReaderActionView::Stop,
        Inbound::Closed => ReaderActionView::Stop,
    }
}

/// The events that a series of frames publishes, in the order of the frames.
pub open spec fn published(frames: Seq<Seq<char>>) -> Seq<LcuDataView>
    decreases frames.len(),
{
    if frames.len() == 0 {
        Seq::empty()
    } else {
        match decode_spec(frames.last()) {
            Ok(Some(event)) => published(frames.drop_last()).push(event),
            _ => published(frames.drop_last()),
        }
    }
}

/// Decides what the reader does with one thing that the stream yielded.
pub fn on_inbound(input: Inbound<'_>) -> (r: ReaderAction)
    ensures
        r@ == inbound_action(input),
{
    match input {
        Inbound::Frame(text) => match decode(text) {
            Ok(Some(event)) => ReaderAction::Publish(event),
            Ok(None) => ReaderAction::Skip,
            Err(_) => ReaderAction::Discard,
        },
        Inbound::Failed => ReaderAction::Stop,
        Inbound::Closed => ReaderAction::Stop,
    }
}

/// Order preservation: the events of frames that arrive one series after
/// another are the events of the first series followed by those of the
/// second, so events are published in the order in which their frames arrived.
pub proof fn lemma_published_in_arrival_order(first: Seq<Seq<char>>, second: Seq<Seq<char>>)
    ensures
        published(first + second) == published(first) + published(second),
    decreases second.len(),
{
    if second.len() == 0 {
        assert(first + second =~= first);
        assert(published(first) + published(second) =~= published(first));
    } else {
        lemma_published_in_arrival_order(first, second.drop_last());
        assert((first + second).drop_last() =~= first + second.drop_last());
        assert((first + second).last() == second.last());
        assert(published(first + second) =~= published(first) + published(second));
    }
}

/// A frame that decodes to an event adds exactly that event behind those
/// published before it; any other frame adds nothing.
pub proof fn lemma_published_step(frames: Seq<Seq<char>>, frame: Seq<char>)
    ensures
        published(frames.push(frame)) == (match frame_action(frame) {
            ReaderActionView::Publish(event) => published(frames).push(event),
            _ => published(frames),
        }),
{
    assert(frames.push(frame).drop_last() =~= frames);
}

} // verus!
