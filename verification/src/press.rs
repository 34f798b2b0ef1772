//! Pressing a source asset into a playable record: the typestate parser
//! over the container, and the press pipeline.

use vstd::prelude::*;

use crate::chart::RuntimeChart;
use crate::container::{scan_stream, scan_tags, swf_decompress, decompress_container};
use crate::index::index_seq;
use crate::note::RuntimeNote;
use crate::record::{sort_notes, Record};

verus! {

/// Why pressing a source asset failed.
#[derive(Clone, Copy, PartialEq, Eq, Debug, Structural)]
pub enum PressError {
    /// The byte buffer is not a valid compressed container; fatal to the
    /// whole ingestion.
    Format,
    /// The assembled chart holds no notes after all tags were processed;
    /// fatal to the whole ingestion.
    EmptyChart,
}

/// What extraction yields for a byte buffer: the accumulated audio bytes
/// and the extracted chart, or nothing for a buffer that is not a valid
/// compressed container.
pub open spec fn spec_extracted(b: Seq<u8>) -> Option<(Seq<u8>, Seq<RuntimeNote>)> {
    match swf_decompress(b) {
        None => None,
        Some((version, data)) => Some(
            scan_tags(data, 0, Seq::<u8>::empty(), Seq::<RuntimeNote>::empty()),
        ),
    }
}

/// Pressing the same byte buffer twice yields identical audio bytes and
/// note sequences: extraction is a function of the input bytes alone.
pub proof fn lemma_press_deterministic(b1: Seq<u8>, b2: Seq<u8>)
    requires
        b1 == b2,
    ensures
        spec_extracted(b1) == spec_extracted(b2),
{
}

/// The asset still holds its compressed bytes.
pub struct Compressed {
    raw_swf: Vec<u8>,
}

/// The asset is decompressed; its tag stream is ready to walk.
pub struct ReadyToParse {
    version: u8,
    data: Vec<u8>,
}

/// The tag stream is being walked; audio bytes and chart accumulate.
pub struct Parsing {
    version: u8,
    data: Vec<u8>,
    mp3: Vec<u8>,
    chart: Vec<RuntimeNote>,
}

/// The walk is done: the audio bytes and the extracted chart.
pub struct Parsed {
    pub mp3: Vec<u8>,
    pub chart: RuntimeChart,
}

/// Whether the parser still has work to do.
#[derive(Clone, Copy, PartialEq, Eq, Debug, Structural)]
pub enum ParsingState {
    Parsing,
    Finished,
}

/// Marker for the parser's states.
pub trait SwfParserState {}

impl SwfParserState for Compressed {}

impl SwfParserState for ReadyToParse {}

impl SwfParserState for Parsing {}

impl SwfParserState for Parsed {}

/// The typestate parser over a container asset: `Compressed -decompress->
/// ReadyToParse -parse-> Parsing -finish-> Parsed`.
pub struct SwfParser<S: SwfParserState> {
    state: S,
}

impl SwfParser<Compressed> {
    /// The compressed bytes this parser holds.
    pub closed spec fn spec_bytes(self) -> Seq<u8> {
        self.state.raw_swf@
    }

    /// Wraps a byte buffer for pressing.
    pub fn new(swf_file: Vec<u8>) -> (r: Self)
        ensures
            r.spec_bytes() == swf_file@,
    {
        SwfParser { state: Compressed { raw_swf: swf_file } }
    }

    /// Decompresses the container. Fails with `PressError::Format` if, and
    /// only if, the buffer is not a valid compressed container.
    pub fn decompress(self) -> (r: Result<SwfParser<ReadyToParse>, PressError>)
        ensures
            r is Ok <==> swf_decompress(self.spec_bytes()) is Some,
            r matches Ok(p) ==> swf_decompress(self.spec_bytes()) == Some(
                (p.spec_version(), p.spec_data()),
            ),
            r matches Err(e) ==> e == PressError::Format,
    {
        match decompress_container(&self.state.raw_swf) {
            Some((version, data)) => Ok(SwfParser { state: ReadyToParse { version, data } }),
            None => Err(PressError::Format),
        }
    }
}

impl SwfParser<ReadyToParse> {
    /// The container version.
    pub closed spec fn spec_version(self) -> u8 {
        self.state.version
    }

    /// The decompressed tag stream.
    pub closed spec fn spec_data(self) -> Seq<u8> {
        self.state.data@
    }

    /// Starts the walk over the tag stream, with empty audio and chart.
    pub fn parse(self) -> (r: SwfParser<Parsing>)
        ensures
            r.spec_version() == self.spec_version(),
            r.spec_data() == self.spec_data(),
            r.spec_mp3() == Seq::<u8>::empty(),
            r.spec_chart() == Seq::<RuntimeNote>::empty(),
    {
        let r = SwfParser {
            state: Parsing {
                version: self.state.version,
                data: self.state.data,
                mp3: Vec::new(),
                chart: Vec::new(),
            },
        };
        proof {
            assert(r.spec_mp3() =~= Seq::<u8>::empty());
            assert(r.spec_chart() =~= Seq::<RuntimeNote>::empty());
        }
        r
    }
}

impl SwfParser<Parsing> {
    /// The container version.
    pub closed spec fn spec_version(self) -> u8 {
        self.state.version
    }

    /// The decompressed tag stream.
    pub closed spec fn spec_data(self) -> Seq<u8> {
        self.state.data@
    }

    /// The audio bytes accumulated so far.
    pub closed spec fn spec_mp3(self) -> Seq<u8> {
        self.state.mp3@
    }

    /// The chart extracted so far.
    pub closed spec fn spec_chart(self) -> Seq<RuntimeNote> {
        self.state.chart@
    }

    /// Walks the whole tag stream, appending audio bytes and replacing the
    /// chart with each successfully extracted action tag; see
    /// [`scan_tags`]. One call reaches the end of the stream.
    pub fn tick(&mut self) -> (r: ParsingState)
        ensures
            final(self).spec_version() == old(self).spec_version(),
            final(self).spec_data() == old(self).spec_data(),
            (final(self).spec_mp3(), final(self).spec_chart()) == scan_tags(
                old(self).spec_data(),
                0,
                old(self).spec_mp3(),
                old(self).spec_chart(),
            ),
            r == ParsingState::Finished,
    {
        scan_stream(&self.state.data, &mut self.state.mp3, &mut self.state.chart);
        ParsingState::Finished
    }

    /// Ends the walk, wrapping what was extracted.
    pub fn finish(self) -> (r: SwfParser<Parsed>)
        ensures
            r.spec_mp3() == self.spec_mp3(),
            r.spec_chart() == self.spec_chart(),
    {
        SwfParser {
            state: Parsed { mp3: self.state.mp3, chart: RuntimeChart::new(self.state.chart) },
        }
    }
}

impl SwfParser<Parsed> {
    /// The accumulated audio bytes.
    pub closed spec fn spec_mp3(self) -> Seq<u8> {
        self.state.mp3@
    }

    /// The extracted chart.
    pub closed spec fn spec_chart(self) -> Seq<RuntimeNote> {
        self.state.chart.notes@
    }

    /// Hands out the audio bytes and the chart.
    pub fn consume(self) -> (r: Parsed)
        ensures
            r.mp3@ == self.spec_mp3(),
            r.chart.notes@ == self.spec_chart(),
    {
        self.state
    }
}

/// The kinds of chart source this press understands.
#[derive(Clone, Copy, PartialEq, Eq, Debug, Structural)]
pub enum SourceType {
    SWF,
    BIN,
    SM,
}

/// A press loaded with a container asset.
pub struct SwfChart {
    pub parser: SwfParser<Compressed>,
}

/// Marker for the kinds of source a press can hold.
pub trait PressType {}

impl PressType for SwfChart {}

/// A press holding one source, ready to be pressed into a record.
pub struct Press<S: PressType> {
    pub s: S,
}

/// Builds presses from the supported source kinds.
#[derive(Clone, Debug)]
pub struct RecordPressBuilder {}

impl RecordPressBuilder {
    /// Loads a container asset into a press.
    pub fn from_swf(swf: Vec<u8>) -> (r: Press<SwfChart>)
        ensures
            r.s.parser.spec_bytes() == swf@,
    {
        Press { s: SwfChart { parser: SwfParser::new(swf) } }
    }

    /// The binary chart source kind; the press reads container assets only.
    pub fn from_bin() {
    }

    /// The stepfile chart source kind; the press reads container assets only.
    pub fn from_sm() {
    }
}

impl Press<SwfChart> {
    /// Presses the source through the extraction pipeline into a playable
    /// record: decompression, one walk of the tag stream, and assembly of
    /// the chart into an interval-indexed record. Fails with
    /// `PressError::Format` if, and only if, the bytes are not a valid
    /// compressed container, and with `PressError::EmptyChart` if, and only
    /// if, extraction yielded no notes.
    pub fn press(self) -> (r: Result<Record, PressError>)
        ensures
            swf_decompress(self.s.parser.spec_bytes()) is None ==> r == Err::<Record, PressError>(
                PressError::Format,
            ),
            spec_extracted(self.s.parser.spec_bytes()) matches Some(x) ==> (x.1.len() == 0 ==> r
                == Err::<Record, PressError>(PressError::EmptyChart)),
            spec_extracted(self.s.parser.spec_bytes()) matches Some(x) ==> (x.1.len() > 0 ==> (
            r matches Ok(rec) && rec.spec_mp3() == x.0 && rec.chart() == index_seq(
                sort_notes(x.1),
            ) && rec.chart().len() == x.1.len() && rec.spec_duration() == rec.chart().last().0)),
    {
        let parser = match self.s.parser.decompress() {
            Ok(parser) => parser,
            Err(_) => {
                return Err(PressError::Format);
            },
        };
        let mut parsing = parser.parse();
        let _state = parsing.tick();
        let parsed = parsing.finish();
        let chart = parsed.consume();
        match Record::new(chart.mp3, chart.chart) {
            Ok(record) => Ok(record),
            Err(_) => Err(PressError::EmptyChart),
        }
    }
}

} // verus!
