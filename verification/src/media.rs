//! The media source model: container format, streams and their media
//! types.
//!
//! Opening the container, reading stream headers and pulling packets are
//! the demultiplexer's outside work; what the pipeline's logic reads from
//! them — the container name, each stream's index and media type — is held
//! here as plain values, so stream selection is verified. The driver that
//! opens the real source fills this model from the headers it read.

use vstd::prelude::*;

verus! {

/// The media type of one stream, as the container reports it. Types the
/// container knows but this pipeline does not handle carry the raw tag.
#[derive(Clone, Copy, Debug, PartialEq, Eq, Structural)]
pub enum MediaType {
    Unknown(i32),
    Video,
    Audio,
    Data,
    Subtitle,
    Attachment,
}

/// The container format of an opened source.
#[derive(Clone, Debug)]
pub struct Format {
    name: String,
}

impl Format {
    /// The container's name.
    pub closed spec fn spec_name(self) -> Seq<char> {
        self.name@
    }

    /// Wrap the container name the demultiplexer reported.
    pub fn new(name: String) -> (f: Format)
        ensures
            f.spec_name() == name@,
    {
        Format { name }
    }

    /// The short name of the container format.
    pub fn name(&self) -> (r: &str)
        ensures
            r@ == self.spec_name(),
    {
        self.name.as_str()
    }
}

/// Index and media type of one stream of an opened source.
#[derive(Clone, Copy, Debug, PartialEq, Eq, Structural)]
pub struct StreamInfo {
    index: usize,
    media_type: MediaType,
}

impl StreamInfo {
    /// The stream's position among the source's streams.
    pub closed spec fn spec_index(self) -> int {
        self.index as int
    }

    /// The stream's media type.
    pub closed spec fn spec_media_type(self) -> MediaType {
        self.media_type
    }

    /// Pair an index with the media type the container reported for it.
    pub fn new(index: usize, media_type: MediaType) -> (s: StreamInfo)
        ensures
            s.spec_index() == index,
            s.spec_media_type() == media_type,
    {
        StreamInfo { index, media_type }
    }

    /// The stream's position among the source's streams.
    pub fn index(&self) -> (i: usize)
        ensures
            i == self.spec_index(),
    {
        self.index
    }

    /// The stream's media type.
    pub fn media_type(&self) -> (t: MediaType)
        ensures
            t == self.spec_media_type(),
    {
        self.media_type
    }
}

/// An opened media source: its container format and its streams, in
/// container order.
#[derive(Clone, Debug)]
pub struct MediaSource {
    format: Format,
    streams: Vec<StreamInfo>,
}

impl MediaSource {
    /// The streams, in container order.
    pub closed spec fn spec_streams(self) -> Seq<StreamInfo> {
        self.streams@
    }

    /// The container format.
    pub closed spec fn spec_format(self) -> Format {
        self.format
    }

    /// Stream `i` of the model sits at position `i` and carries the
    /// `i`-th reported media type.
    pub open spec fn wf(self) -> bool {
        forall|i: int|
            0 <= i < self.spec_streams().len() ==> (#[trigger] self.spec_streams()[i]).spec_index()
                == i
    }

    /// Build the model of an opened source from the container name and
    /// the media types of its streams, in container order.
    pub fn new(format: Format, media_types: Vec<MediaType>) -> (s: MediaSource)
        ensures
            s.wf(),
            s.spec_format() == format,
            s.spec_streams().len() == media_types@.len(),
            forall|i: int|
                0 <= i < media_types@.len() ==> (#[trigger] s.spec_streams()[i]).spec_media_type()
                    == media_types@[i],
    {
        let mut streams: Vec<StreamInfo> = Vec::new();
        let n = media_types.len();
        for i in 0..n
            invariant
                n == media_types@.len(),
                streams@.len() == i,
                forall|j: int|
                    0 <= j < i ==> (#[trigger] streams@[j]).spec_index() == j && streams@[j]
                        .spec_media_type() == media_types@[j],
        {
            streams.push(StreamInfo::new(i, media_types[i]));
        }
        MediaSource { format, streams }
    }

    /// The container format.
    pub fn format(&self) -> (f: &Format)
        ensures
            *f == self.spec_format(),
    {
        &self.format
    }

    /// All streams, in container order.
    pub fn all_streams(&self) -> (r: Vec<StreamInfo>)
        ensures
            r@ == self.spec_streams(),
    {
        let mut out: Vec<StreamInfo> = Vec::new();
        let n = self.streams.len();
        for i in 0..n
            invariant
                n == self.streams@.len(),
                out@.len() == i,
                forall|j: int| 0 <= j < i ==> out@[j] == self.streams@[j],
        {
            out.push(self.streams[i]);
        }
        proof {
            assert(out@ =~= self.streams@);
        }
        out
    }

    /// Stream number `index`, if the source has that many.
    pub fn stream(&self, index: usize) -> (r: Option<StreamInfo>)
        ensures
            match r {
                Some(s) => index < self.spec_streams().len() && s == self.spec_streams()[index as int],
                None => index >= self.spec_streams().len(),
            },
    {
        if index < self.streams.len() {
            Some(self.streams[index])
        } else {
            None
        }
    }

    /// The best stream of the requested media type: the first one the
    /// container reports with that type, or `None` — the
    /// stream-not-found condition — when no stream matches.
    pub fn best_stream(&self, media_type: MediaType) -> (r: Option<StreamInfo>)
        requires
            self.wf(),
        ensures
            match r {
                Some(s) => {
                    &&& 0 <= s.spec_index() < self.spec_streams().len()
                    &&& s == self.spec_streams()[s.spec_index()]
                    &&& s.spec_media_type() == media_type
                    &&& forall|j: int|
                        0 <= j < s.spec_index() ==> (#[trigger] self.spec_streams()[j])
                            .spec_media_type() != media_type
                },
                None => forall|j: int|
                    0 <= j < self.spec_streams().len() ==> (#[trigger] self.spec_streams()[j])
                        .spec_media_type() != media_type,
            },
    {
        let n = self.streams.len();
        for i in 0..n
            invariant
                self.wf(),
                n == self.streams@.len(),
                forall|j: int|
                    0 <= j < i ==> (#[trigger] self.streams@[j]).spec_media_type() != media_type,
        {
            if self.streams[i].media_type() == media_type {
                return Some(self.streams[i]);
            }
        }
        None
    }

    /// Give up the source model to whoever drives the packet pump.
    pub fn into_streams(self) -> (r: Vec<StreamInfo>)
        ensures
            r@ == self.spec_streams(),
    {
        self.streams
    }
}

/// One stream of an opened, demultiplexed source.
#[derive(Clone, Copy, Debug, PartialEq, Eq, Structural)]
pub struct DemuxerStream {
    index: usize,
    media_type: MediaType,
}

impl DemuxerStream {
    /// The stream's position among the source's streams.
    pub closed spec fn spec_index(self) -> int {
        self.index as int
    }

    /// The stream's media type.
    pub closed spec fn spec_media_type(self) -> MediaType {
        self.media_type
    }

    /// The stream's position among the source's streams.
    pub fn index(&self) -> (i: usize)
        ensures
            i == self.spec_index(),
    {
        self.index
    }

    /// The stream's media type.
    pub fn media_type(&self) -> (t: MediaType)
        ensures
            t == self.spec_media_type(),
    {
        self.media_type
    }
}

/// A demultiplexer over an opened source: hands out stream handles by
/// index. Pulling packets from a stream is the packet pump's outside
/// work.
#[derive(Clone, Debug)]
pub struct Demuxer {
    streams: Vec<StreamInfo>,
}

impl Demuxer {
    /// The streams, in container order.
    pub closed spec fn spec_streams(self) -> Seq<StreamInfo> {
        self.streams@
    }

    /// Take ownership of an opened source.
    pub fn new(source: MediaSource) -> (d: Demuxer)
        ensures
            d.spec_streams() == source.spec_streams(),
    {
        Demuxer { streams: source.into_streams() }
    }

    /// A handle to stream number `index`, if the source has that many.
    pub fn stream(&self, index: usize) -> (r: Option<DemuxerStream>)
        ensures
            match r {
                Some(s) => {
                    &&& index < self.spec_streams().len()
                    &&& s.spec_index() == self.spec_streams()[index as int].spec_index()
                    &&& s.spec_media_type() == self.spec_streams()[index as int].spec_media_type()
                },
                None => index >= self.spec_streams().len(),
            },
    {
        if index < self.streams.len() {
            let info = self.streams[index];
            Some(DemuxerStream { index: info.index(), media_type: info.media_type() })
        } else {
            None
        }
    }
}

} // verus!
