//! The stream multiplexer: one ordered delivery of the lines that two
//! readers take from the output streams of the tool. The readers run
//! side by side and block on their own stream only; each hands its lines
//! over here as they come, and says when its stream has ended. The
//! delivery ends when both streams have ended and every line is out.

use vstd::prelude::*;
use std::collections::VecDeque;
use crate::event::StreamTag;

verus! {

/// What the consumer gets when it asks for the next line.
#[derive(Debug, PartialEq, Eq)]
pub enum Delivery {
    /// A line, with the stream it came from.
    Line(StreamTag, String),
    /// No line is waiting, and a stream is still open: the tool is silent.
    Idle,
    /// Both streams have ended and every line was delivered.
    EndOfStream,
}

/// A delivery as plain data.
pub enum DeliveryView {
    Line(StreamTag, Seq<char>),
    Idle,
    EndOfStream,
}

impl View for Delivery {
    type V = DeliveryView;

    open spec fn view(&self) -> DeliveryView {
        match *self {
            Delivery::Line(stream, line) => DeliveryView::Line(stream, line@),
            Delivery::Idle => DeliveryView::Idle,
            Delivery::EndOfStream => DeliveryView::EndOfStream,
        }
    }
}

/// The multiplexer as plain data: the lines that wait, oldest first, and
/// which streams are still open.
#[verifier::ext_equal]
pub struct MuxView {
    pub pending: Seq<(StreamTag, Seq<char>)>,
    pub stdout_open: bool,
    pub stderr_open: bool,
}

impl MuxView {
    /// Whether `stream` is still open.
    pub open spec fn is_open(self, stream: StreamTag) -> bool {
        match stream {
            StreamTag::Stdout => self.stdout_open,
            StreamTag::Stderr => self.stderr_open,
        }
    }

    /// After the reader of `stream` handed over `line`: the line waits
    /// behind all others. A stream that has ended hands over nothing.
    pub open spec fn pushed(self, stream: StreamTag, line: Seq<char>) -> MuxView {
        if self.is_open(stream) {
            MuxView { pending: self.pending.push((stream, line)), ..self }
        } else {
            self
        }
    }

    /// After `stream` has ended.
    pub open spec fn finished(self, stream: StreamTag) -> MuxView {
        match stream {
            StreamTag::Stdout => MuxView { stdout_open: false, ..self },
            StreamTag::Stderr => MuxView { stderr_open: false, ..self },
        }
    }

    /// What the consumer gets next: the oldest line that waits; where none
    /// waits, the end of the delivery once both streams have ended.
    pub open spec fn delivery(self) -> DeliveryView {
        if self.pending.len() > 0 {
            DeliveryView::Line(self.pending[0].0, self.pending[0].1)
        } else if self.stdout_open || self.stderr_open {
            DeliveryView::Idle
        } else {
            DeliveryView::EndOfStream
        }
    }

    /// After the consumer took what `delivery` gives.
    pub open spec fn taken(self) -> MuxView {
        if self.pending.len() > 0 {
            MuxView { pending: self.pending.drop_first(), ..self }
        } else {
            self
        }
    }
}

/// The lines of `stream` among `pending`, in order.
pub open spec fn lines_of(stream: StreamTag, pending: Seq<(StreamTag, Seq<char>)>) -> Seq<Seq<char>>
    decreases pending.len(),
{
    if pending.len() == 0 {
        seq![]
    } else if pending.last().0 == stream {
        lines_of(stream, pending.drop_last()).push(pending.last().1)
    } else {
        lines_of(stream, pending.drop_last())
    }
}

/// The lines of a stream among two lists, one after the other.
pub proof fn lemma_lines_of_concat(
    stream: StreamTag,
    first: Seq<(StreamTag, Seq<char>)>,
    second: Seq<(StreamTag, Seq<char>)>,
)
    ensures
        lines_of(stream, first + second) == lines_of(stream, first) + lines_of(stream, second),
    decreases second.len(),
{
    if second.len() == 0 {
        assert(first + second =~= first);
        assert(lines_of(stream, first) + lines_of(stream, second) =~= lines_of(stream, first));
    } else {
        assert((first + second).drop_last() =~= first + second.drop_last());
        lemma_lines_of_concat(stream, first, second.drop_last());
        assert(lines_of(stream, first + second) =~= lines_of(stream, first) + lines_of(
            stream,
            second,
        ));
    }
}

/// Each stream keeps its order: a line that is handed over waits behind
/// the earlier lines of its stream and leaves the other stream's lines
/// alone, and the line that is delivered is the oldest of its stream.
pub proof fn lemma_streams_keep_order(mux: MuxView, stream: StreamTag, line: Seq<char>)
    ensures
        mux.is_open(stream) ==> lines_of(stream, mux.pushed(stream, line).pending) == lines_of(
            stream,
            mux.pending,
        ).push(line),
        forall|other: StreamTag|
            other != stream ==> lines_of(other, mux.pushed(stream, line).pending) == lines_of(
                other,
                mux.pending,
            ),
        forall|of: StreamTag, first: Seq<char>|
            mux.delivery() == DeliveryView::Line(of, first) ==> lines_of(of, mux.pending) == seq![
                first,
            ] + lines_of(of, mux.taken().pending),
        forall|of: StreamTag, first: Seq<char>, other: StreamTag|
            mux.delivery() == DeliveryView::Line(of, first) && other != of ==> lines_of(
                other,
                mux.pending,
            ) == lines_of(other, mux.taken().pending),
{
    if mux.is_open(stream) {
        assert(mux.pending.push((stream, line)).drop_last() =~= mux.pending);
    }
    if mux.pending.len() > 0 {
        let head = seq![mux.pending[0]];
        let rest = mux.pending.drop_first();
        assert(mux.pending =~= head + rest);
        assert(head.drop_last() =~= Seq::<(StreamTag, Seq<char>)>::empty());
        assert forall|of: StreamTag| true implies #[trigger] lines_of(of, mux.pending) == lines_of(
            of,
            head,
        ) + lines_of(of, rest) by {
            lemma_lines_of_concat(of, head, rest);
        }
        assert forall|of: StreamTag| of != mux.pending[0].0 implies #[trigger] lines_of(of, head)
            =~= Seq::<Seq<char>>::empty() by {
            reveal_with_fuel(lines_of, 2);
        }
        assert(lines_of(mux.pending[0].0, head) =~= seq![mux.pending[0].1]) by {
            reveal_with_fuel(lines_of, 2);
        }
        assert forall|of: StreamTag| of != mux.pending[0].0 implies lines_of(of, mux.pending)
            == #[trigger] lines_of(of, rest) by {
            assert(lines_of(of, head) + lines_of(of, rest) =~= lines_of(of, rest));
        }
    }
}

/// The delivery ends only when both streams have ended and no line waits;
/// as long as a line waits, it is delivered, whatever the streams do.
pub proof fn lemma_end_of_stream(mux: MuxView)
    ensures
        mux.delivery() is EndOfStream <==> (mux.pending.len() == 0 && !mux.stdout_open
            && !mux.stderr_open),
        mux.delivery() is Idle <==> (mux.pending.len() == 0 && (mux.stdout_open
            || mux.stderr_open)),
        mux.delivery() is Line <==> mux.pending.len() > 0,
{
}

/// The multiplexer.
pub struct Multiplexer {
    pending: VecDeque<(StreamTag, String)>,
    stdout_open: bool,
    stderr_open: bool,
}

impl View for Multiplexer {
    type V = MuxView;

    closed spec fn view(&self) -> MuxView {
        MuxView {
            pending: self.pending@.map_values(|p: (StreamTag, String)| (p.0, p.1@)),
            stdout_open: self.stdout_open,
            stderr_open: self.stderr_open,
        }
    }
}

impl Multiplexer {
    /// A multiplexer with both streams open and no line waiting.
    pub fn new() -> (mux: Multiplexer)
        ensures
            mux@ == (MuxView { pending: seq![], stdout_open: true, stderr_open: true }),
    {
        let mux = Multiplexer { pending: VecDeque::new(), stdout_open: true, stderr_open: true };
        assert(mux@.pending =~= Seq::<(StreamTag, Seq<char>)>::empty());
        mux
    }

    /// Whether `stream` is still open.
    pub fn is_open(&self, stream: StreamTag) -> (open: bool)
        ensures
            open == self@.is_open(stream),
    {
        match stream {
            StreamTag::Stdout => self.stdout_open,
            StreamTag::Stderr => self.stderr_open,
        }
    }

    /// The number of lines that wait.
    pub fn waiting(&self) -> (count: usize)
        ensures
            count == self@.pending.len(),
    {
        self.pending.len()
    }

    /// The reader of `stream` hands over a line. Says whether it was taken.
    pub fn push(&mut self, stream: StreamTag, line: String) -> (taken: bool)
        ensures
            final(self)@ == old(self)@.pushed(stream, line@),
            taken == old(self)@.is_open(stream),
    {
        if self.is_open(stream) {
            self.pending.push_back((stream, line));
            assert(final(self)@.pending =~= old(self)@.pending.push((stream, line@)));
            true
        } else {
            false
        }
    }

    /// The reader of `stream` has reached the end of its stream.
    pub fn finish(&mut self, stream: StreamTag)
        ensures
            final(self)@ == old(self)@.finished(stream),
    {
        match stream {
            StreamTag::Stdout => {
                self.stdout_open = false;
            },
            StreamTag::Stderr => {
                self.stderr_open = false;
            },
        }
    }

    /// The next delivery for the consumer.
    pub fn next(&mut self) -> (delivery: Delivery)
        ensures
            delivery@ == old(self)@.delivery(),
            final(self)@ == old(self)@.taken(),
    {
        match self.pending.pop_front() {
            Some(front) => {
                assert(final(self)@.pending =~= old(self)@.pending.drop_first());
                Delivery::Line(front.0, front.1)
            },
            None => {
                if self.stdout_open || self.stderr_open {
                    Delivery::Idle
                } else {
                    Delivery::EndOfStream
                }
            },
        }
    }
}

} // verus!
