use vstd::prelude::*;

verus! {

/// Which output pipe of a child process a line came from.
#[derive(Clone, Copy, PartialEq, Eq, Structural, Debug)]
pub enum StreamKind {
    Stdout,
    Stderr,
}

pub open spec fn event_name_of(kind: StreamKind) -> Seq<char> {
    match kind {
        StreamKind::Stdout => "terminal:stdout"@,
        StreamKind::Stderr => "terminal:stderr"@,
    }
}

impl StreamKind {
    /// The name of the sink event that carries lines of this stream.
    pub fn event_name(&self) -> (r: String)
        ensures
            r@ == event_name_of(*self),
    {
        match self {
            StreamKind::Stdout => "terminal:stdout".to_string(),
            StreamKind::Stderr => "terminal:stderr".to_string(),
        }
    }
}

/// One line of text handed to the sink, tagged with the stream it came from.
pub struct SinkEvent {
    pub kind: StreamKind,
    pub text: String,
}

/// What the decoder makes of a byte sequence.
pub uninterp spec fn lossy_text(b: Seq<u8>) -> Seq<char>;

/// Relies on `String::from_utf8_lossy`: the text depends on the bytes alone,
/// and no bytes give no text.
#[verifier::external_body]
pub(crate) fn decode_lossy(b: &[u8]) -> (r: String)
    ensures
        r@ == lossy_text(b@),
        b@.len() == 0 ==> r@.len() == 0,
{
    String::from_utf8_lossy(b).into_owned()
}

/// A raw read without its line terminator: a final `\n`, and a `\r` just
/// before it, are dropped.
pub open spec fn without_line_end(raw: Seq<u8>) -> Seq<u8> {
    if raw.len() > 0 && raw.last() == 10u8 {
        let body = raw.drop_last();
        if body.len() > 0 && body.last() == 13u8 {
            body.drop_last()
        } else {
            body
        }
    } else {
        raw
    }
}

/// The text that a raw read delivers to the sink.
pub open spec fn line_text_of(raw: Seq<u8>) -> Seq<char> {
    lossy_text(without_line_end(raw))
}

/// The bytes of a read without its line terminator.
pub fn strip_line_end(raw: &[u8]) -> (r: Vec<u8>)
    ensures
        r@ == without_line_end(raw@),
{
    let mut end: usize = raw.len();
    if end > 0 && raw[end - 1] == 10u8 {
        end = end - 1;
        if end > 0 && raw[end - 1] == 13u8 {
            end = end - 1;
        }
    }
    let mut out: Vec<u8> = Vec::new();
    let mut i: usize = 0;
    while i < end
        invariant
            end <= raw@.len(),
            i <= end,
            out@ == raw@.subrange(0, i as int),
        decreases end - i,
    {
        out.push(raw[i]);
        i = i + 1;
        assert(out@ =~= raw@.subrange(0, i as int));
    }
    proof {
        if raw@.len() > 0 && raw@.last() == 10u8 {
            let body = raw@.drop_last();
            if body.len() > 0 && body.last() == 13u8 {
                assert(out@ =~= body.drop_last());
            } else {
                assert(out@ =~= body);
            }
        } else {
            assert(out@ =~= raw@);
        }
    }
    out
}

/// The text of one raw read, decoded leniently: bytes that are not UTF-8
/// become replacement characters instead of stopping the stream.
pub fn line_text(raw: &[u8]) -> (r: String)
    ensures
        r@ == line_text_of(raw@),
{
    let body = strip_line_end(raw);
    decode_lossy(body.as_slice())
}

/// The outcome of one read on a pipe.
pub enum ReadOutcome {
    /// A line, as read, with its terminator if it had one.
    Line(Vec<u8>),
    EndOfStream,
    Failed,
}

pub ghost enum ReadView {
    Line(Seq<u8>),
    EndOfStream,
    Failed,
}

impl View for ReadOutcome {
    type V = ReadView;

    open spec fn view(&self) -> ReadView {
        match self {
            ReadOutcome::Line(b) => ReadView::Line(b@),
            ReadOutcome::EndOfStream => ReadView::EndOfStream,
            ReadOutcome::Failed => ReadView::Failed,
        }
    }
}

/// Forwards the lines of one pipe to the sink until the pipe ends.
pub struct LineStreamer {
    pub kind: StreamKind,
    pub open: bool,
}

/// The text the streamer forwards for one read while `open`; none once the
/// pipe has ended or failed.
pub open spec fn forwarded(open: bool, read: ReadView) -> Option<Seq<char>> {
    match read {
        ReadView::Line(b) => if open { Some(line_text_of(b)) } else { None },
        _ => None,
    }
}

pub open spec fn open_after(open: bool, read: ReadView) -> bool {
    open && read is Line
}

/// The texts forwarded over a whole run of reads, in read order.
pub open spec fn forwarded_all(open: bool, reads: Seq<ReadView>) -> Seq<Seq<char>>
    decreases reads.len(),
{
    if reads.len() == 0 {
        Seq::empty()
    } else {
        let head = match forwarded(open, reads[0]) {
            Some(t) => seq![t],
            None => Seq::empty(),
        };
        head + forwarded_all(open_after(open, reads[0]), reads.drop_first())
    }
}

impl LineStreamer {
    pub fn new(kind: StreamKind) -> (r: LineStreamer)
        ensures
            r.kind == kind,
            r.open,
    {
        LineStreamer { kind, open: true }
    }

    /// Takes the outcome of one read. A line read while the pipe is open is
    /// forwarded; the end of the stream or a read failure closes the streamer
    /// quietly, and it forwards nothing after that.
    pub fn on_read(&mut self, read: ReadOutcome) -> (r: Option<SinkEvent>)
        ensures
            final(self).kind == old(self).kind,
            final(self).open == open_after(old(self).open, read@),
            match forwarded(old(self).open, read@) {
                Some(t) => r matches Some(e) && e.kind == old(self).kind && e.text@ == t,
                None => r is None,
            },
    {
        match read {
            ReadOutcome::Line(b) => {
                if self.open {
                    Some(SinkEvent { kind: self.kind, text: line_text(b.as_slice()) })
                } else {
                    None
                }
            },
            _ => {
                self.open = false;
                None
            },
        }
    }
}

/// A pipe that yields `n` lines and then ends makes the streamer forward
/// exactly `n` texts, one per line, in the order they were read.
pub proof fn lemma_streamer_complete(lines: Seq<Seq<u8>>)
    ensures
        forwarded_all(true, lines.map_values(|b: Seq<u8>| ReadView::Line(b)).push(ReadView::EndOfStream))
            == lines.map_values(|b: Seq<u8>| line_text_of(b)),
    decreases lines.len(),
{
    let reads = lines.map_values(|b: Seq<u8>| ReadView::Line(b)).push(ReadView::EndOfStream);
    if lines.len() == 0 {
        assert(reads.drop_first() =~= Seq::<ReadView>::empty());
        assert(forwarded_all(false, Seq::<ReadView>::empty()) == Seq::<Seq<char>>::empty());
        assert(lines.map_values(|b: Seq<u8>| line_text_of(b)) =~= Seq::<Seq<char>>::empty());
    } else {
        let rest = lines.drop_first();
        lemma_streamer_complete(rest);
        assert(reads.drop_first() =~= rest.map_values(|b: Seq<u8>| ReadView::Line(b)).push(
            ReadView::EndOfStream,
        ));
        assert(lines.map_values(|b: Seq<u8>| line_text_of(b)) =~= seq![line_text_of(lines[0])]
            + rest.map_values(|b: Seq<u8>| line_text_of(b)));
    }
}

} // verus!
