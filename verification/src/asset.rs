//! Asset references and their materialization as a file under resource limits.
//!
//! Creating a temporary directory and writing a file are done by the caller.
//! [`asset_to_temp_path`] decides what is to be created, and refuses before
//! anything is created; [`crate::stream::copy_with_limits`] then copies a
//! stream under the cap.

use vstd::prelude::*;
use vstd::slice::{slice_subrange, slice_to_vec};
use vstd::string::StringExecFns;
use crate::content_detection::{detect_extension_from_bytes, detected_extension,
    extension_to_mime_type, mime_type_of, SNIFF_WINDOW};
use crate::error::{EngineError, EngineResult, ErrorModel};
use crate::stream::{next_bytes, reads, seek_target, seeks, SeekPosition, StreamModel,
    StreamReader};
use crate::text::{decimal_text, format_decimal, str_eq};
use crate::types::LimitsConfig;

verus! {

/// A reference to an asset: a path, bytes in memory, or a stream.
pub enum AssetRef {
    /// A file that someone else owns. It is used as it is and never copied.
    Path(String),
    /// An owned buffer.
    Bytes { data: Vec<u8> },
    /// A stream that can be read and taken back to its start.
    Stream {
        reader: Box<dyn StreamReader>,
        /// The MIME type, where the caller knows it. Without it the engine
        /// sniffs the head of the stream.
        content_type: Option<String>,
    },
}

/// What an asset reference is, in words: the path of a file, the length of
/// a buffer and never its bytes, or the MIME type of a stream.
pub open spec fn description_of(asset: AssetRef) -> Seq<char> {
    match asset {
        AssetRef::Path(p) => "Path("@ + p@ + ")"@,
        AssetRef::Bytes { data } => "Bytes { data_len: "@ + decimal_text(data@.len()) + " }"@,
        AssetRef::Stream { reader, content_type } => match content_type {
            Some(ct) => "Stream { content_type: "@ + ct@ + " }"@,
            None => "Stream { content_type: None }"@,
        },
    }
}

impl AssetRef {
    /// Describes the reference for a log or an error, without the asset's bytes.
    pub fn describe(&self) -> (text: String)
        ensures
            text@ == description_of(*self),
    {
        match self {
            AssetRef::Path(p) => "Path(".to_string().concat(p.as_str()).concat(")"),
            AssetRef::Bytes { data } => "Bytes { data_len: ".to_string().concat(
                format_decimal(data.len() as u128).as_str(),
            ).concat(" }"),
            AssetRef::Stream { reader, content_type } => match content_type {
                Some(ct) => "Stream { content_type: ".to_string().concat(ct.as_str()).concat(" }"),
                None => "Stream { content_type: None }".to_string(),
            },
        }
    }
}

/// A stream over bytes in memory. Its position may lie beyond its end, where
/// nothing is left to read.
pub struct MemoryStream {
    data: Vec<u8>,
    pos: u64,
}

impl MemoryStream {
    /// The position, counted from the start.
    pub closed spec fn position(self) -> u64 {
        self.pos
    }

    /// All bytes of the stream.
    pub closed spec fn contents(self) -> Seq<u8> {
        self.data@
    }

    /// The bytes that the stream has not yielded yet: those from the
    /// position on.
    pub open spec fn remaining(self) -> Seq<u8> {
        if self.position() >= self.contents().len() {
            Seq::empty()
        } else {
            self.contents().subrange(self.position() as int, self.contents().len() as int)
        }
    }

    /// A stream over `data`, at its start.
    pub fn new(data: Vec<u8>) -> (s: MemoryStream)
        ensures
            s.contents() == data@,
            s.remaining() == data@,
            s.position() == 0,
    {
        assert(data@.subrange(0, data@.len() as int) =~= data@);
        MemoryStream { data, pos: 0 }
    }
}

impl StreamReader for MemoryStream {
    /// Everything is known of a stream in memory: its bytes and its position.
    open spec fn model(&self) -> StreamModel {
        StreamModel::Known { contents: self.contents(), position: self.position() as nat }
    }

    /// Yields the next bytes, at most `max_len` of them, and nothing at the end.
    fn read_chunk(&mut self, max_len: usize) -> (r: Result<Vec<u8>, String>)
        ensures
            final(self).contents() == old(self).contents(),
            r matches Ok(chunk) && chunk@.len() <= max_len && chunk@.len() <= old(
                self,
            ).remaining().len() && (chunk@.len() == max_len || chunk@.len() == old(
                self,
            ).remaining().len()) && old(self).remaining() == chunk@ + final(self).remaining()
                && final(self).position() == old(self).position() + chunk@.len(),
    {
        let len = self.data.len();
        if self.pos >= len as u64 {
            let chunk: Vec<u8> = Vec::new();
            assert(self.remaining() =~= chunk@ + self.remaining());
            assert(chunk@ =~= next_bytes(self.contents(), self.position() as nat, max_len));
            return Ok(chunk);
        }
        let start = self.pos as usize;
        let left = len - start;
        let take = if left < max_len {
            left
        } else {
            max_len
        };
        let end = start + take;
        let chunk = slice_to_vec(slice_subrange(self.data.as_slice(), start, end));
        proof {
            let rest = if end >= len {
                Seq::<u8>::empty()
            } else {
                self.data@.subrange(end as int, len as int)
            };
            assert(self.data@.subrange(start as int, len as int) =~= chunk@ + rest);
            assert(chunk@ =~= next_bytes(self.contents(), self.position() as nat, max_len));
        }
        self.pos = end as u64;
        Ok(chunk)
    }

    /// Moves the position. A position beyond the end is allowed; one before
    /// the start, or beyond what sixty-four bits count, is refused and
    /// leaves the stream where it stands.
    fn seek(&mut self, to: SeekPosition) -> (r: Result<u64, String>)
        ensures
            final(self).contents() == old(self).contents(),
            match seek_target(old(self).contents().len(), old(self).position() as nat, to) {
                Some(target) => r == Ok::<u64, String>(target) && final(self).position()
                    == target,
                None => r is Err && final(self).position() == old(self).position(),
            },
            to == SeekPosition::Start(0) ==> final(self).remaining() == old(self).contents(),
    {
        let target: i128 = match to {
            SeekPosition::Start(n) => n as i128,
            SeekPosition::End(d) => self.data.len() as i128 + d as i128,
            SeekPosition::Current(d) => self.pos as i128 + d as i128,
        };
        if target < 0 || target > u64::MAX as i128 {
            return Err("invalid seek to a negative or overflowing position".to_string());
        }
        self.pos = target as u64;
        proof {
            if to == SeekPosition::Start(0) {
                assert(self.data@.subrange(0, self.data@.len() as int) =~= self.data@);
            }
        }
        Ok(self.pos)
    }
}

/// The name of the file that holds an asset of the given extension: `asset`
/// and the extension, or plain `asset` where the format is unknown.
pub open spec fn asset_filename(extension: Option<Seq<char>>) -> Seq<char> {
    match extension {
        Some(e) => "asset."@ + e,
        None => "asset"@,
    }
}

/// The name of the file that holds an asset of the given MIME type.
pub open spec fn filename_of_content_type(content_type: Seq<char>) -> Seq<char> {
    if content_type == "image/jpeg"@ {
        "asset.jpg"@
    } else if content_type == "image/png"@ {
        "asset.png"@
    } else if content_type == "image/gif"@ {
        "asset.gif"@
    } else if content_type == "image/webp"@ {
        "asset.webp"@
    } else if content_type == "video/mp4"@ {
        "asset.mp4"@
    } else if content_type == "audio/mpeg"@ {
        "asset.mp3"@
    } else if content_type == "application/pdf"@ {
        "asset.pdf"@
    } else {
        "asset"@
    }
}

/// The file name for bytes whose format is sniffed from `head`.
pub fn sniffed_filename(head: &[u8]) -> (name: String)
    ensures
        name@ == asset_filename(detected_extension(head@)),
{
    match detect_extension_from_bytes(head) {
        Some(ext) => "asset.".to_string().concat(ext),
        None => "asset".to_string(),
    }
}

/// The file name for a stream whose MIME type the caller gave.
pub fn filename_for_content_type(content_type: &str) -> (name: String)
    ensures
        name@ == filename_of_content_type(content_type@),
{
    if str_eq(content_type, "image/jpeg") {
        "asset.jpg".to_string()
    } else if str_eq(content_type, "image/png") {
        "asset.png".to_string()
    } else if str_eq(content_type, "image/gif") {
        "asset.gif".to_string()
    } else if str_eq(content_type, "image/webp") {
        "asset.webp".to_string()
    } else if str_eq(content_type, "video/mp4") {
        "asset.mp4".to_string()
    } else if str_eq(content_type, "audio/mpeg") {
        "asset.mp3".to_string()
    } else if str_eq(content_type, "application/pdf") {
        "asset.pdf".to_string()
    } else {
        "asset".to_string()
    }
}

/// The MIME type that the head of a stream stands for, where a format is
/// detected in it.
pub open spec fn content_type_of(head: Seq<u8>) -> Option<Seq<char>> {
    match detected_extension(head) {
        Some(ext) => Some(mime_type_of(ext)),
        None => None,
    }
}

/// The MIME type for the head of a stream.
pub fn content_type_of_head(head: &[u8]) -> (mime: Option<&'static str>)
    ensures
        crate::content_detection::tag_text(mime) == content_type_of(head@),
{
    match detect_extension_from_bytes(head) {
        Some(ext) => Some(extension_to_mime_type(ext)),
        None => None,
    }
}

/// What becomes of the head of a stream, given what the read of the head and
/// the seek back to the start returned. A failed read counts as an empty
/// head. A failed seek is an I/O error with the seek's message, whatever was
/// read: the stream would otherwise be used from the wrong position.
pub open spec fn head_outcome(read: Result<Vec<u8>, String>, sought: Result<u64, String>) -> Result<
    Seq<u8>,
    ErrorModel,
> {
    match sought {
        Err(m) => Err(ErrorModel::Io(m@)),
        Ok(_) => Ok(
            match read {
                Ok(chunk) => chunk@,
                Err(_) => Seq::empty(),
            },
        ),
    }
}

/// The bytes of a head that was read, or the error in its place.
pub open spec fn head_view(r: EngineResult<Vec<u8>>) -> Result<Seq<u8>, ErrorModel> {
    match r {
        Ok(head) => Ok(head@),
        Err(e) => Err(e@),
    }
}

/// The stream went from `before` over `mid` to `after`: by a read of at most
/// 512 bytes that returned `read`, then by a seek to its start that returned
/// `sought`; and `r` is what becomes of the head.
pub open spec fn is_head_read(
    before: StreamModel,
    mid: StreamModel,
    after: StreamModel,
    read: Result<Vec<u8>, String>,
    sought: Result<u64, String>,
    r: EngineResult<Vec<u8>>,
) -> bool {
    &&& reads(before, SNIFF_WINDOW, mid, read)
    &&& seeks(mid, SeekPosition::Start(0), after, sought)
    &&& head_view(r) == head_outcome(read, sought)
}

/// Decides what becomes of the head of a stream, given what the read of the
/// head and the seek back to the start returned.
pub fn head_result(read: Result<Vec<u8>, String>, sought: Result<u64, String>) -> (r: EngineResult<
    Vec<u8>,
>)
    ensures
        head_view(r) == head_outcome(read, sought),
{
    match sought {
        Err(m) => Err(EngineError::Io(m)),
        Ok(_) => match read {
            Ok(head) => Ok(head),
            Err(_) => Ok(Vec::new()),
        },
    }
}

/// The head that is read off a known stream: its next bytes, up to 512.
pub open spec fn known_head(contents: Seq<u8>, position: nat) -> Seq<u8> {
    next_bytes(contents, position, SNIFF_WINDOW)
}

/// Reads the head of a stream, up to 512 bytes, and takes the stream back to
/// its start. A failed read counts as an empty head. A failed rewind is an
/// error: the stream would otherwise be used from the wrong position.
///
/// Of a known stream the head is its next bytes, and it stands at its start
/// afterwards.
pub fn read_head<R: StreamReader + ?Sized>(reader: &mut R) -> (r: EngineResult<Vec<u8>>)
    ensures
        r matches Err(e) ==> e@ is Io,
        exists|read: Result<Vec<u8>, String>, mid: StreamModel, sought: Result<u64, String>| #[trigger]
            is_head_read(old(reader).model(), mid, final(reader).model(), read, sought, r),
        old(reader).model() matches StreamModel::Known { contents, position } ==> (
        r matches Ok(head) && head@ == known_head(contents, position) && final(reader).model() == (
        StreamModel::Known { contents, position: 0 })),
{
    let read = reader.read_chunk(SNIFF_WINDOW);
    let ghost mid = reader.model();
    let sought = reader.seek(SeekPosition::Start(0));
    let r = head_result(read, sought);
    assert(is_head_read(old(reader).model(), mid, reader.model(), read, sought, r));
    r
}

/// What sniffing gives, given what the read of the head and the seek back to
/// the start returned: the MIME type that the head stands for, or the error
/// of a failed seek.
pub open spec fn sniff_outcome(read: Result<Vec<u8>, String>, sought: Result<u64, String>) -> Result<
    Option<Seq<char>>,
    ErrorModel,
> {
    match head_outcome(read, sought) {
        Err(e) => Err(e),
        Ok(head) => Ok(content_type_of(head)),
    }
}

/// The MIME type that was sniffed, as text, or the error in its place.
pub open spec fn sniff_view(r: EngineResult<Option<&'static str>>) -> Result<
    Option<Seq<char>>,
    ErrorModel,
> {
    match r {
        Ok(mime) => Ok(crate::content_detection::tag_text(mime)),
        Err(e) => Err(e@),
    }
}

/// The stream went from `before` over `mid` to `after`: by a read of at most
/// 512 bytes that returned `read`, then by a seek to its start that returned
/// `sought`; and `r` is what sniffing gives for the two.
pub open spec fn is_sniff(
    before: StreamModel,
    mid: StreamModel,
    after: StreamModel,
    read: Result<Vec<u8>, String>,
    sought: Result<u64, String>,
    r: EngineResult<Option<&'static str>>,
) -> bool {
    &&& reads(before, SNIFF_WINDOW, mid, read)
    &&& seeks(mid, SeekPosition::Start(0), after, sought)
    &&& sniff_view(r) == sniff_outcome(read, sought)
}

/// Peeks at the first bytes of a stream and infers a MIME type; the stream is
/// back at its start afterwards. Nothing is inferred from an empty or
/// unreadable head, or from one that holds no known signature; what is
/// inferred from a head is what [`content_type_of_head`] says of it. A failed
/// seek back to the start is an I/O error with the seek's message.
///
/// Of a known stream the MIME type is that of its next bytes, up to 512,
/// and it stands at its start afterwards.
pub fn sniff_content_type_from_reader<R: StreamReader + ?Sized>(reader: &mut R) -> (r: EngineResult<
    Option<&'static str>,
>)
    ensures
        exists|read: Result<Vec<u8>, String>, mid: StreamModel, sought: Result<u64, String>| #[trigger]
            is_sniff(old(reader).model(), mid, final(reader).model(), read, sought, r),
        old(reader).model() matches StreamModel::Known { contents, position } ==> (
        r matches Ok(mime) && crate::content_detection::tag_text(mime) == content_type_of(
            known_head(contents, position),
        ) && final(reader).model() == (StreamModel::Known { contents, position: 0 })),
{
    let ghost before = reader.model();
    let head = read_head(reader);
    let ghost (read, mid, sought) = choose|
        read: Result<Vec<u8>, String>,
        mid: StreamModel,
        sought: Result<u64, String>,
    | is_head_read(before, mid, reader.model(), read, sought, head);
    let r = match head {
        Err(e) => Err(e),
        Ok(head) => Ok(content_type_of_head(head.as_slice())),
    };
    assert(is_sniff(before, mid, reader.model(), read, sought, r));
    r
}

/// What is to be done to have an asset as a file.
pub enum MaterializationPlan {
    /// The asset is a file already: use `path` unchanged and create nothing.
    Existing { path: String },
    /// Create a fresh temporary directory and write the buffer, once, into
    /// the file `filename` in it.
    WriteBytes { filename: String },
    /// Create a fresh temporary directory and the file `filename` in it, and
    /// copy the stream into the file with a cap of `max_bytes`.
    CopyStream { filename: String, max_bytes: usize },
}

/// What is known of the stream of an asset; nothing of an asset that is no stream.
pub open spec fn reader_model(asset: AssetRef) -> StreamModel {
    match asset {
        AssetRef::Stream { reader, content_type } => reader.model(),
        _ => StreamModel::Unknown,
    }
}

/// The plan for a stream without a content type, given what the read of its
/// head and the seek back to its start returned: a copy under the cap into a
/// file named by the format of the head, or the error of a failed seek.
pub open spec fn sniffed_plan(
    read: Result<Vec<u8>, String>,
    sought: Result<u64, String>,
    cap: usize,
    r: EngineResult<MaterializationPlan>,
) -> bool {
    match head_outcome(read, sought) {
        Err(e) => r matches Err(x) && x@ == e,
        Ok(head) => r matches Ok(MaterializationPlan::CopyStream { filename, max_bytes })
            && filename@ == asset_filename(detected_extension(head)) && max_bytes == cap,
    }
}

/// The stream went from `before` over `mid` to `after`: by a read of at most
/// 512 bytes that returned `read`, then by a seek to its start that returned
/// `sought`; and `r` is the plan for the two.
pub open spec fn is_sniffed_plan(
    before: StreamModel,
    mid: StreamModel,
    after: StreamModel,
    read: Result<Vec<u8>, String>,
    sought: Result<u64, String>,
    cap: usize,
    r: EngineResult<MaterializationPlan>,
) -> bool {
    &&& reads(before, SNIFF_WINDOW, mid, read)
    &&& seeks(mid, SeekPosition::Start(0), after, sought)
    &&& sniffed_plan(read, sought, cap, r)
}

/// The message of the error for a buffer over the cap.
pub open spec fn too_large() -> Seq<char> {
    "in-memory asset too large"@
}

/// The asset is a buffer over the cap for assets in memory. Such a buffer is
/// never had as a file.
pub open spec fn over_memory_cap(asset: AssetRef, limits: LimitsConfig) -> bool {
    asset matches AssetRef::Bytes { data } && data@.len() > limits.max_in_memory_asset_size
}

/// Holds an asset against the cap for assets in memory: a buffer over the
/// cap is refused, and nothing else is.
pub fn check_memory_cap(asset: &AssetRef, limits: &LimitsConfig) -> (r: EngineResult<()>)
    ensures
        r is Err <==> over_memory_cap(*asset, *limits),
        r matches Err(e) ==> e@ == ErrorModel::Config(too_large()),
{
    match asset {
        AssetRef::Bytes { data } => {
            if data.len() > limits.max_in_memory_asset_size {
                Err(EngineError::config("in-memory asset too large"))
            } else {
                Ok(())
            }
        },
        _ => Ok(()),
    }
}

/// Decides how an asset becomes a file.
///
/// - A path is used unchanged, with no temporary resource.
/// - A buffer longer than `limits.max_in_memory_asset_size` is refused, before
///   anything is created. Any other buffer is written under a name chosen by
///   its detected format.
/// - A stream is copied under `limits.max_stream_copy_size`. Its file is named
///   by the caller's MIME type where there is one; otherwise the head of the
///   stream is sniffed and the stream is taken back to its start, and a
///   failure to take it back is an I/O error.
pub fn asset_to_temp_path(asset: &mut AssetRef, limits: LimitsConfig) -> (r: EngineResult<
    MaterializationPlan,
>)
    ensures
        match *old(asset) {
            AssetRef::Path(p) => r matches Ok(MaterializationPlan::Existing { path }) && path@
                == p@ && *final(asset) == *old(asset),
            AssetRef::Bytes { data } => *final(asset) == *old(asset) && (if data@.len()
                > limits.max_in_memory_asset_size {
                r matches Err(e) && e@ == ErrorModel::Config(too_large())
            } else {
                r matches Ok(MaterializationPlan::WriteBytes { filename }) && filename@
                    == asset_filename(detected_extension(data@))
            }),
            AssetRef::Stream { reader, content_type: Some(ct) } => r matches Ok(
                MaterializationPlan::CopyStream { filename, max_bytes },
            ) && filename@ == filename_of_content_type(ct@) && max_bytes
                == limits.max_stream_copy_size && *final(asset) == *old(asset),
            AssetRef::Stream { reader, content_type: None } => (exists|
                read: Result<Vec<u8>, String>,
                mid: StreamModel,
                sought: Result<u64, String>,
            | #[trigger]
                is_sniffed_plan(
                    reader.model(),
                    mid,
                    reader_model(*final(asset)),
                    read,
                    sought,
                    limits.max_stream_copy_size,
                    r,
                )) && (match *final(asset) {
                AssetRef::Stream { reader, content_type } => content_type is None,
                _ => false,
            }) && (reader.model() matches StreamModel::Known { contents, position } ==> (
            r matches Ok(MaterializationPlan::CopyStream { filename, max_bytes }) && filename@
                == asset_filename(detected_extension(known_head(contents, position)))
                && max_bytes == limits.max_stream_copy_size && reader_model(*final(asset)) == (
            StreamModel::Known { contents, position: 0 }))),
        },
{
    match asset {
        AssetRef::Path(p) => Ok(MaterializationPlan::Existing { path: p.clone() }),
        AssetRef::Bytes { data } => {
            if data.len() > limits.max_in_memory_asset_size {
                return Err(EngineError::config("in-memory asset too large"));
            }
            Ok(MaterializationPlan::WriteBytes { filename: sniffed_filename(data.as_slice()) })
        },
        AssetRef::Stream { reader, content_type } => {
            match content_type {
                Some(ct) => Ok(
                    MaterializationPlan::CopyStream {
                        filename: filename_for_content_type(ct.as_str()),
                        max_bytes: limits.max_stream_copy_size,
                    },
                ),
                None => {
                    let ghost before = reader.model();
                    let head = read_head(&mut **reader);
                    let ghost (read, mid, sought) = choose|
                        read: Result<Vec<u8>, String>,
                        mid: StreamModel,
                        sought: Result<u64, String>,
                    | is_head_read(before, mid, reader.model(), read, sought, head);
                    let r = match head {
                        Err(e) => Err(e),
                        Ok(head) => Ok(
                            MaterializationPlan::CopyStream {
                                filename: sniffed_filename(head.as_slice()),
                                max_bytes: limits.max_stream_copy_size,
                            },
                        ),
                    };
                    assert(is_sniffed_plan(
                        before,
                        mid,
                        reader.model(),
                        read,
                        sought,
                        limits.max_stream_copy_size,
                        r,
                    ));
                    r
                },
            }
        },
    }
}

} // verus!
