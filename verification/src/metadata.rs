//! Metadata text: standalone metadata frames and the per-frame metadata of video
//! and audio frames.
//!
//! The SDK carries metadata as NUL-terminated UTF-8. Text accepted here holds no
//! NUL byte and, with its terminator, fits in [`MAX_METADATA_BYTES`].

use vstd::prelude::*;
use vstd::string::StringSliceAdditionalSpecFns;
use vstd::utf8::{encode_utf8, valid_utf8};

use crate::error::{frame_error, frame_error2, frame_error_in, invalid_frame, Error};
use crate::text::{find_nul, first_nul, is_first_nul, str_from_utf8, sub_slice, utf8_error_text};

verus! {

/// Largest metadata C string the library accepts, terminator included (4 MiB).
pub const MAX_METADATA_BYTES: usize = 4 * 1024 * 1024;

/// True when the bytes hold no NUL.
pub open spec fn nul_free(bytes: Seq<u8>) -> bool {
    forall|i: int| 0 <= i < bytes.len() ==> bytes[i] != 0
}

/// Text bytes that may travel to the SDK: no NUL, and room for the terminator.
pub open spec fn metadata_text_ok(bytes: Seq<u8>) -> bool {
    bytes.len() + 1 <= MAX_METADATA_BYTES && nul_free(bytes)
}

/// A length that includes the terminator and respects the cap.
pub fn validate_metadata_len_with_nul(len_with_nul: usize) -> (r: Result<i32, Error>)
    ensures
        r is Ok <==> 1 <= len_with_nul <= MAX_METADATA_BYTES,
        r matches Ok(v) ==> v == len_with_nul,
        r matches Err(e) ==> e is InvalidFrame,
{
    if len_with_nul == 0 {
        return Err(invalid_frame("Metadata length must include a trailing NUL terminator"));
    }
    if len_with_nul > MAX_METADATA_BYTES {
        return Err(
            frame_error2(
                "Metadata exceeds maximum size: ",
                len_with_nul as i128,
                " bytes > ",
                MAX_METADATA_BYTES as i128,
                " bytes",
            ),
        );
    }
    metadata_len_to_i32(len_with_nul)
}

/// A metadata length converted to the SDK's `i32`.
pub fn metadata_len_to_i32(len_with_nul: usize) -> (r: Result<i32, Error>)
    ensures
        r is Ok <==> len_with_nul <= i32::MAX,
        r matches Ok(v) ==> v == len_with_nul,
        r matches Err(e) ==> e is InvalidFrame,
{
    if len_with_nul > i32::MAX as usize {
        Err(frame_error_in("Metadata length ", len_with_nul as i128, " exceeds SDK i32 range"))
    } else {
        Ok(len_with_nul as i32)
    }
}

/// Checks text meant for the SDK: the size cap first, then interior NUL bytes.
pub fn validate_metadata_text(data: &str) -> (r: Result<(), Error>)
    ensures
        r is Ok <==> metadata_text_ok(data.spec_bytes()),
        r matches Err(e) ==> if data.spec_bytes().len() + 1 > MAX_METADATA_BYTES {
            e is InvalidFrame
        } else {
            e matches Error::InvalidCString(p) && first_nul(data.spec_bytes()) == Some(p as int)
        },
{
    let bytes = data.as_bytes();
    let len_with_nul = match bytes.len().checked_add(1) {
        Some(n) => n,
        None => {
            return Err(invalid_frame("Metadata length overflow while adding terminator"));
        },
    };
    validate_metadata_len_with_nul(len_with_nul)?;
    match find_nul(bytes, bytes.len()) {
        Some(p) => {
            proof {
                lemma_first_nul_is(bytes@, p as int);
            }
            Err(Error::InvalidCString(p))
        },
        None => Ok(()),
    }
}

/// The first zero byte is the one a left-to-right scan finds.
pub proof fn lemma_first_nul_is(s: Seq<u8>, p: int)
    requires
        0 <= p < s.len(),
        s[p] == 0,
        forall|j: int| 0 <= j < p ==> s[j] != 0,
    ensures
        first_nul(s) == Some(p),
{
    assert(is_first_nul(s, p));
    let q = choose|i: int| is_first_nul(s, i);
    assert(is_first_nul(s, q));
    if q < p {
        assert(s[q] != 0);
    } else if q > p {
        assert(s[p] != 0);
    }
}

/// Header of a metadata frame as the SDK describes it: its length (terminator
/// included) and its timecode.
#[derive(Debug, Clone, Copy, PartialEq, Eq, Structural)]
pub struct MetadataFrameHeader {
    /// Length in bytes including the trailing NUL.
    pub length: i32,
    /// Timecode; zero asks the SDK for its default.
    pub timecode: i64,
}

/// A metadata frame as the SDK hands it over: the length field, the timecode, and
/// the readable bytes behind the data pointer (`None` for a null pointer).
#[derive(Debug, Clone, Copy)]
pub struct RawMetadataFrame<'a> {
    /// Length in bytes including the trailing NUL.
    pub length: i32,
    /// Timecode.
    pub timecode: i64,
    /// The bytes behind the data pointer.
    pub p_data: Option<&'a [u8]>,
}

/// Layout of a standalone metadata frame that passed validation.
#[derive(Debug, Clone, Copy, PartialEq, Eq, Structural)]
pub struct ValidatedMetadataLayout {
    /// SDK length including the terminator, or zero for the empty null frame.
    pub len_with_nul: usize,
    /// Length of the UTF-8 text, terminator excluded.
    pub text_len: usize,
}

/// When a standalone metadata frame is well formed: either the empty null frame, or
/// a positive length within the cap whose last byte is the only NUL and whose text
/// is UTF-8.
pub open spec fn metadata_frame_structure_ok(length: int, data: Option<Seq<u8>>) -> bool {
    if length == 0 {
        data is None
    } else {
        &&& length > 0
        &&& data is Some
        &&& length <= MAX_METADATA_BYTES
        &&& data.unwrap()[length - 1] == 0
        &&& nul_free(data.unwrap().subrange(0, length - 1))
    }
}

/// The text bytes of a well-formed standalone metadata frame.
pub open spec fn metadata_frame_text(length: int, data: Option<Seq<u8>>) -> Seq<u8> {
    if length <= 0 {
        Seq::empty()
    } else {
        data.unwrap().subrange(0, length - 1)
    }
}

/// The bytes behind an optional slice.
pub open spec fn opt_bytes(p: Option<&[u8]>) -> Option<Seq<u8>> {
    match p {
        Some(b) => Some(b@),
        None => None,
    }
}

/// What must be readable of a metadata frame: behind a non-null pointer, `length`
/// bytes when the length is positive and within the cap (a longer frame is
/// refused without reading its data).
pub open spec fn raw_metadata_readable(raw: RawMetadataFrame) -> bool {
    raw.p_data matches Some(d) ==> (0 < raw.length <= MAX_METADATA_BYTES ==> d@.len() >= raw.length)
}

/// A layout that describes `raw`.
pub open spec fn metadata_layout_matches(raw: RawMetadataFrame, layout: ValidatedMetadataLayout) -> bool {
    &&& raw_metadata_readable(raw)
    &&& metadata_frame_structure_ok(raw.length as int, opt_bytes(raw.p_data))
    &&& valid_utf8(metadata_frame_text(raw.length as int, opt_bytes(raw.p_data)))
    &&& layout.len_with_nul == raw.length
    &&& layout.text_len == metadata_frame_text(raw.length as int, opt_bytes(raw.p_data)).len()
}

/// Validates a standalone metadata frame from the SDK. Only the memory layout and
/// UTF-8 are checked; XML well-formedness is not required.
pub fn validate_metadata_layout(raw: &RawMetadataFrame) -> (r: Result<ValidatedMetadataLayout, Error>)
    requires
        raw_metadata_readable(*raw),
    ensures
        r is Ok <==> (metadata_frame_structure_ok(raw.length as int, opt_bytes(raw.p_data))
            && valid_utf8(metadata_frame_text(raw.length as int, opt_bytes(raw.p_data)))),
        r matches Ok(l) ==> metadata_layout_matches(*raw, l),
        r matches Err(e) ==> if metadata_frame_structure_ok(raw.length as int, opt_bytes(raw.p_data)) {
            e is InvalidUtf8
        } else {
            e is InvalidFrame
        },        r matches Err(Error::InvalidUtf8(m)) ==> m@ == utf8_error_text(
            metadata_frame_text(raw.length as int, opt_bytes(raw.p_data)),
        ),
{
    if raw.length < 0 {
        return Err(frame_error("Metadata frame has negative length: ", raw.length as i128));
    }
    if raw.length == 0 {
        if raw.p_data.is_none() {
            return Ok(ValidatedMetadataLayout { len_with_nul: 0, text_len: 0 });
        }
        return Err(invalid_frame("Metadata frame uses lengthless non-null C-string data"));
    }
    let data = match raw.p_data {
        Some(d) => d,
        None => {
            return Err(invalid_frame("Metadata frame has non-zero length with null data pointer"));
        },
    };
    let len_with_nul = raw.length as usize;
    validate_metadata_len_with_nul(len_with_nul)?;
    if data[len_with_nul - 1] != 0 {
        return Err(invalid_frame("Metadata frame length does not include a trailing NUL terminator"));
    }
    let payload = sub_slice(data, 0, len_with_nul - 1);
    if find_nul(payload, payload.len()).is_some() {
        return Err(invalid_frame("Metadata frame contains an interior NUL byte"));
    }
    if let Err(m) = str_from_utf8(payload) {
        return Err(Error::InvalidUtf8(m));
    }
    Ok(ValidatedMetadataLayout { len_with_nul, text_len: payload.len() })
}

/// The text bytes of a validated metadata frame.
pub fn metadata_payload_bytes<'a>(raw: &RawMetadataFrame<'a>, layout: ValidatedMetadataLayout) -> (r:
    &'a [u8])
    requires
        metadata_layout_matches(*raw, layout),
    ensures
        r@ == metadata_frame_text(raw.length as int, opt_bytes(raw.p_data)),
{
    match raw.p_data {
        Some(d) if layout.text_len > 0 => sub_slice(d, 0, layout.text_len),
        _ => {
            let e: &[u8] = &[];
            assert(e@ =~= Seq::<u8>::empty());
            e
        },
    }
}

/// An owned metadata frame: UTF-8 text (typically XML) and a timecode.
#[derive(Debug)]
pub struct MetadataFrame {
    data: String,
    timecode: i64,
}

impl MetadataFrame {
    #[verifier::type_invariant]
    spec fn inv(self) -> bool {
        metadata_text_ok(encode_utf8(self.data@))
    }

    /// The text of the frame.
    pub closed spec fn spec_data(self) -> Seq<char> {
        self.data@
    }

    /// The timecode of the frame.
    pub closed spec fn spec_timecode(self) -> i64 {
        self.timecode
    }

    /// An empty frame with the SDK's default timecode.
    pub fn new() -> (r: MetadataFrame)
        ensures
            r.spec_data() == Seq::<char>::empty(),
            r.spec_timecode() == 0,
    {
        let data = String::new();
        proof {
            assert(encode_utf8(data@) =~= Seq::<u8>::empty()) by {
                assert(data@ =~= Seq::<char>::empty());
            }
        }
        MetadataFrame { data, timecode: 0 }
    }

    /// A frame holding `data` and `timecode`, if the text is fit for the SDK.
    pub fn with_data(data: &str, timecode: i64) -> (r: Result<MetadataFrame, Error>)
        ensures
            r is Ok <==> metadata_text_ok(data.spec_bytes()),
            r matches Ok(f) ==> f.spec_data() == data@ && f.spec_timecode() == timecode,
            r matches Err(e) ==> if data.spec_bytes().len() + 1 > MAX_METADATA_BYTES {
                e is InvalidFrame
            } else {
                e matches Error::InvalidCString(p) && first_nul(data.spec_bytes()) == Some(p as int)
            },
    {
        validate_metadata_text(data)?;
        let owned = data.to_string();
        proof {
            assert(owned@ == data@);
        }
        Ok(MetadataFrame { data: owned, timecode })
    }

    /// The text of the frame.
    pub fn data(&self) -> (r: &str)
        ensures
            r@ == self.spec_data(),
    {
        self.data.as_str()
    }

    /// The frame's text, consuming the frame.
    pub fn into_data(self) -> (r: String)
        ensures
            r@ == self.spec_data(),
    {
        let MetadataFrame { data, timecode: _ } = self;
        data
    }

    /// The timecode; zero asks the SDK for its default.
    pub fn timecode(&self) -> (r: i64)
        ensures
            r == self.spec_timecode(),
    {
        self.timecode
    }

    /// Replaces the text, if the new text is fit for the SDK; otherwise the frame is
    /// left unchanged.
    pub fn set_data(&mut self, data: &str) -> (r: Result<(), Error>)
        ensures
            r is Ok <==> metadata_text_ok(data.spec_bytes()),
            r is Ok ==> final(self).spec_data() == data@,
            r is Err ==> final(self).spec_data() == old(self).spec_data(),
            final(self).spec_timecode() == old(self).spec_timecode(),
            r matches Err(e) ==> if data.spec_bytes().len() + 1 > MAX_METADATA_BYTES {
                e is InvalidFrame
            } else {
                e matches Error::InvalidCString(p) && first_nul(data.spec_bytes()) == Some(p as int)
            },
    {
        validate_metadata_text(data)?;
        proof {
            use_type_invariant(&*self);
        }
        self.data = data.to_string();
        Ok(())
    }

    /// Sets the timecode.
    pub fn set_timecode(&mut self, timecode: i64)
        ensures
            final(self).spec_timecode() == timecode,
            final(self).spec_data() == old(self).spec_data(),
    {
        proof {
            use_type_invariant(&*self);
        }
        self.timecode = timecode;
    }

    /// This frame with another timecode.
    pub fn with_timecode(self, timecode: i64) -> (r: MetadataFrame)
        ensures
            r.spec_timecode() == timecode,
            r.spec_data() == self.spec_data(),
    {
        proof {
            use_type_invariant(&self);
        }
        let MetadataFrame { data, timecode: _ } = self;
        MetadataFrame { data, timecode }
    }

    /// The C string the SDK reads (text plus terminator) and the frame header, whose
    /// length counts the terminator.
    pub fn to_raw(&self) -> (r: Result<(Vec<u8>, MetadataFrameHeader), Error>)
        ensures
            r matches Ok((bytes, header)) && bytes@ == encode_utf8(self.spec_data())
                + seq![0u8] && header.length == bytes@.len() && header.timecode
                == self.spec_timecode(),
            metadata_text_ok(encode_utf8(self.spec_data())),
    {
        proof {
            use_type_invariant(self);
        }
        let text = self.data.as_str().as_bytes();
        let mut c_data = crate::text::copy_bytes(text);
        c_data.push(0u8);
        let length = validate_metadata_len_with_nul(c_data.len())?;
        Ok((c_data, MetadataFrameHeader { length, timecode: self.timecode }))
    }

    /// Copies a validated SDK metadata frame.
    pub fn from_raw_validated(raw: &RawMetadataFrame, layout: ValidatedMetadataLayout) -> (r:
        MetadataFrame)
        requires
            metadata_layout_matches(*raw, layout),
        ensures
            encode_utf8(r.spec_data()) == metadata_frame_text(
                raw.length as int,
                opt_bytes(raw.p_data),
            ),
            r.spec_timecode() == raw.timecode,
    {
        let bytes = metadata_payload_bytes(raw, layout);
        let s = match str_from_utf8(bytes) {
            Ok(s) => s,
            Err(_) => {
                proof {
                    assert(false);
                }
                ""
            },
        };
        let data = s.to_string();
        proof {
            assert(data@ == s@);
            assert(s.spec_bytes() == bytes@);
            assert(encode_utf8(data@) == bytes@);
            if raw.length > 0 {
                let d = raw.p_data.unwrap()@;
                assert(bytes@ == d.subrange(0, raw.length - 1));
            } else {
                assert(bytes@ =~= Seq::<u8>::empty());
            }
        }
        MetadataFrame { data, timecode: raw.timecode }
    }

    /// Validates and copies an SDK metadata frame.
    pub fn from_raw(raw: &RawMetadataFrame) -> (r: Result<MetadataFrame, Error>)
        requires
            raw_metadata_readable(*raw),
        ensures
            r is Ok <==> (metadata_frame_structure_ok(raw.length as int, opt_bytes(raw.p_data))
                && valid_utf8(metadata_frame_text(raw.length as int, opt_bytes(raw.p_data)))),
            r matches Ok(f) ==> encode_utf8(f.spec_data()) == metadata_frame_text(
                raw.length as int,
                opt_bytes(raw.p_data),
            ) && f.spec_timecode() == raw.timecode,
            r matches Err(e) ==> if metadata_frame_structure_ok(
                raw.length as int,
                opt_bytes(raw.p_data),
            ) {
                e is InvalidUtf8
            } else {
                e is InvalidFrame
            },
    {
        let layout = validate_metadata_layout(raw)?;
        Ok(MetadataFrame::from_raw_validated(raw, layout))
    }
}

/// Reading back a metadata frame in the form the SDK receives it gives the same
/// frame: the frame whose length counts the C string of the text and whose data
/// is that C string is well formed and UTF-8, and a frame copied from it has the
/// same text.
pub proof fn lemma_metadata_round_trip(text: Seq<char>, raw: RawMetadataFrame, copy: Seq<char>)
    requires
        metadata_text_ok(encode_utf8(text)),
        raw.p_data matches Some(d) && d@ == encode_utf8(text) + seq![0u8],
        raw.length == encode_utf8(text).len() + 1,
    ensures
        raw_metadata_readable(raw),
        metadata_frame_structure_ok(raw.length as int, opt_bytes(raw.p_data)),
        valid_utf8(metadata_frame_text(raw.length as int, opt_bytes(raw.p_data))),
        encode_utf8(copy) == metadata_frame_text(raw.length as int, opt_bytes(raw.p_data)) ==> copy
            == text,
{
    let bytes = encode_utf8(text);
    let d = raw.p_data.unwrap()@;
    assert(d.subrange(0, raw.length - 1) =~= bytes);
    vstd::utf8::encode_utf8_valid_utf8(text);
    vstd::utf8::encode_utf8_decode_utf8(text);
    vstd::utf8::encode_utf8_decode_utf8(copy);
}

impl Clone for MetadataFrame {
    fn clone(&self) -> (r: MetadataFrame)
        ensures
            r.spec_data() == self.spec_data(),
            r.spec_timecode() == self.spec_timecode(),
    {
        proof {
            use_type_invariant(self);
        }
        MetadataFrame { data: self.data.clone(), timecode: self.timecode }
    }
}

/// A borrowed metadata frame whose layout has been validated.
#[derive(Debug)]
pub struct MetadataFrameRef<'a> {
    raw: RawMetadataFrame<'a>,
    layout: ValidatedMetadataLayout,
}

impl<'a> MetadataFrameRef<'a> {
    #[verifier::type_invariant]
    spec fn inv(self) -> bool {
        metadata_layout_matches(self.raw, self.layout)
    }

    /// The SDK frame this view wraps.
    pub closed spec fn spec_raw(self) -> RawMetadataFrame<'a> {
        self.raw
    }

    /// Validates an SDK metadata frame and wraps it.
    pub fn new(raw: RawMetadataFrame<'a>) -> (r: Result<MetadataFrameRef<'a>, Error>)
        requires
            raw_metadata_readable(raw),
        ensures
            r is Ok <==> (metadata_frame_structure_ok(raw.length as int, opt_bytes(raw.p_data))
                && valid_utf8(metadata_frame_text(raw.length as int, opt_bytes(raw.p_data)))),
            r matches Ok(f) ==> f.spec_raw() == raw,
            r matches Err(e) ==> if metadata_frame_structure_ok(
                raw.length as int,
                opt_bytes(raw.p_data),
            ) {
                e is InvalidUtf8
            } else {
                e is InvalidFrame
            },
    {
        let layout = validate_metadata_layout(&raw)?;
        Ok(MetadataFrameRef { raw, layout })
    }

    /// The timecode.
    pub fn timecode(&self) -> (r: i64)
        ensures
            r == self.spec_raw().timecode,
    {
        self.raw.timecode
    }

    /// The layout found when the frame was validated.
    pub fn validated_layout(&self) -> (r: ValidatedMetadataLayout)
        ensures
            metadata_layout_matches(self.spec_raw(), r),
    {
        proof {
            use_type_invariant(self);
        }
        self.layout
    }

    /// The UTF-8 text bytes, terminator excluded.
    pub fn as_bytes(&self) -> (r: &'a [u8])
        ensures
            r@ == metadata_frame_text(self.spec_raw().length as int, opt_bytes(self.spec_raw().p_data)),
    {
        proof {
            use_type_invariant(self);
        }
        metadata_payload_bytes(&self.raw, self.layout)
    }

    /// The text.
    pub fn data(&self) -> (r: &'a str)
        ensures
            r.spec_bytes() == metadata_frame_text(
                self.spec_raw().length as int,
                opt_bytes(self.spec_raw().p_data),
            ),
    {
        proof {
            use_type_invariant(self);
        }
        let bytes = metadata_payload_bytes(&self.raw, self.layout);
        match str_from_utf8(bytes) {
            Ok(s) => s,
            Err(_) => {
                proof {
                    assert(false);
                }
                ""
            },
        }
    }

    /// Copies the frame into an owned [`MetadataFrame`].
    pub fn to_owned(&self) -> (r: MetadataFrame)
        ensures
            encode_utf8(r.spec_data()) == metadata_frame_text(
                self.spec_raw().length as int,
                opt_bytes(self.spec_raw().p_data),
            ),
            r.spec_timecode() == self.spec_raw().timecode,
    {
        proof {
            use_type_invariant(self);
        }
        MetadataFrame::from_raw_validated(&self.raw, self.layout)
    }
}

/// Owned per-frame metadata of a video or audio frame: text fit for the SDK.
#[derive(Debug)]
pub struct FrameMetadata {
    inner: String,
    c_bytes: Vec<u8>,
}

impl FrameMetadata {
    #[verifier::type_invariant]
    spec fn inv(self) -> bool {
        &&& metadata_text_ok(encode_utf8(self.inner@))
        &&& self.c_bytes@ == encode_utf8(self.inner@) + seq![0u8]
    }

    /// Text known to be fit for the SDK, with its C string.
    fn from_checked(inner: String) -> (r: FrameMetadata)
        requires
            metadata_text_ok(encode_utf8(inner@)),
        ensures
            r.spec_text() == inner@,
    {
        let text = inner.as_str();
        let mut c_bytes = crate::text::copy_bytes(text.as_bytes());
        proof {
            assert(text@ == inner@);
            assert(c_bytes@ == encode_utf8(inner@));
        }
        c_bytes.push(0u8);
        proof {
            assert(c_bytes@ =~= encode_utf8(inner@) + seq![0u8]);
        }
        FrameMetadata { inner, c_bytes }
    }

    /// The text.
    pub closed spec fn spec_text(self) -> Seq<char> {
        self.inner@
    }

    /// Text for a frame, if it is fit for the SDK.
    pub fn new(metadata: &str) -> (r: Result<FrameMetadata, Error>)
        ensures
            r is Ok <==> metadata_text_ok(metadata.spec_bytes()),
            r matches Ok(m) ==> m.spec_text() == metadata@,
            r matches Err(e) ==> if metadata.spec_bytes().len() + 1 > MAX_METADATA_BYTES {
                e is InvalidFrame
            } else {
                e matches Error::InvalidCString(p) && first_nul(metadata.spec_bytes()) == Some(
                    p as int,
                )
            },
    {
        validate_metadata_text(metadata)?;
        Ok(FrameMetadata::from_checked(metadata.to_string()))
    }

    /// The text.
    pub fn as_str(&self) -> (r: &str)
        ensures
            r@ == self.spec_text(),
    {
        self.inner.as_str()
    }

    /// The C string the SDK reads, borrowed: text plus terminator.
    pub fn as_c_bytes(&self) -> (r: &[u8])
        ensures
            r@ == encode_utf8(self.spec_text()) + seq![0u8],
            metadata_text_ok(encode_utf8(self.spec_text())),
    {
        proof {
            use_type_invariant(self);
        }
        self.c_bytes.as_slice()
    }
}

impl Clone for FrameMetadata {
    fn clone(&self) -> (r: FrameMetadata)
        ensures
            r.spec_text() == self.spec_text(),
    {
        proof {
            use_type_invariant(self);
        }
        FrameMetadata { inner: self.inner.clone(), c_bytes: self.c_bytes.clone() }
    }
}

/// Per-frame metadata of an SDK video or audio frame after a bounded scan:
/// `len_with_nul` is `None` for a null pointer, else the position of the first NUL
/// plus one.
#[derive(Debug, Clone, Copy, PartialEq, Eq, Structural)]
pub struct ValidatedFrameMetadata {
    /// Text length plus the terminator, or `None` for a null pointer.
    pub len_with_nul: Option<usize>,
    /// Text length, terminator excluded.
    pub text_len: usize,
}

/// The SDK's promise about per-frame metadata: a non-null pointer is readable up to
/// its first NUL or for [`MAX_METADATA_BYTES`] bytes.
pub open spec fn frame_metadata_readable(p: Option<&[u8]>) -> bool {
    p matches Some(b) ==> (b@.len() >= MAX_METADATA_BYTES || exists|i: int|
        0 <= i < b@.len() && b@[i] == 0)
}

/// A per-frame metadata scan result that describes `p`.
pub open spec fn frame_metadata_matches(p: Option<&[u8]>, m: ValidatedFrameMetadata) -> bool {
    match p {
        None => m.len_with_nul is None && m.text_len == 0,
        Some(b) => {
            &&& m.len_with_nul == Some((m.text_len + 1) as usize)
            &&& m.text_len < MAX_METADATA_BYTES
            &&& m.text_len < b@.len()
            &&& b@[m.text_len as int] == 0
            &&& nul_free(b@.subrange(0, m.text_len as int))
            &&& valid_utf8(b@.subrange(0, m.text_len as int))
        },
    }
}

/// When per-frame metadata from the SDK is acceptable: no pointer at all, or a
/// NUL within [`MAX_METADATA_BYTES`] with UTF-8 text before it.
pub open spec fn frame_metadata_ok(p: Option<&[u8]>) -> bool {
    match p {
        None => true,
        Some(b) => match first_nul(b@) {
            Some(i) => i < MAX_METADATA_BYTES && valid_utf8(b@.subrange(0, i)),
            None => false,
        },
    }
}

/// When per-frame metadata is shaped right, whatever its text: absent, or
/// terminated within [`MAX_METADATA_BYTES`]. Shaped right but refused means the
/// text is not UTF-8.
pub open spec fn frame_metadata_shape_ok(p: Option<&[u8]>) -> bool {
    match p {
        None => true,
        Some(b) => match first_nul(b@) {
            Some(i) => i < MAX_METADATA_BYTES,
            None => false,
        },
    }
}

/// The text bytes of acceptable per-frame metadata: everything before the first NUL.
pub open spec fn frame_metadata_text(p: Option<&[u8]>) -> Option<Seq<u8>> {
    match p {
        None => None,
        Some(b) => Some(b@.subrange(0, first_nul(b@).unwrap())),
    }
}

/// A scan result that describes `p` found the first NUL.
pub proof fn lemma_frame_metadata_matches_text(p: Option<&[u8]>, m: ValidatedFrameMetadata)
    requires
        frame_metadata_matches(p, m),
    ensures
        frame_metadata_ok(p),
        p matches Some(b) ==> first_nul(b@) == Some(m.text_len as int),
{
    if let Some(b) = p {
        assert forall|j: int| 0 <= j < m.text_len implies b@[j] != 0 by {
            assert(b@.subrange(0, m.text_len as int)[j] == b@[j]);
        }
        lemma_first_nul_is(b@, m.text_len as int);
    }
}

/// The C string of metadata text that may travel to the SDK is acceptable
/// per-frame metadata, readable up to its terminator, and its text is that text.
pub proof fn lemma_c_string_is_frame_metadata(p: Option<&[u8]>, text: Seq<u8>)
    requires
        metadata_text_ok(text),
        valid_utf8(text),
        p matches Some(b) && b@ == text + seq![0u8],
    ensures
        frame_metadata_ok(p),
        frame_metadata_readable(p),
        frame_metadata_text(p) == Some(text),
{
    if let Some(b) = p {
        let n = text.len() as int;
        assert forall|j: int| 0 <= j < n implies b@[j] != 0 by {
            assert(b@[j] == text[j]);
        }
        assert(b@[n] == 0);
        lemma_first_nul_is(b@, n);
        assert(b@.subrange(0, n) =~= text);
    }
}

/// Scans per-frame metadata for its terminator within [`MAX_METADATA_BYTES`] and
/// checks that the text before it is UTF-8.
pub fn validate_frame_metadata(p_metadata: Option<&[u8]>) -> (r: Result<ValidatedFrameMetadata, Error>)
    requires
        frame_metadata_readable(p_metadata),
    ensures
        r is Ok <==> frame_metadata_ok(p_metadata),
        r matches Ok(m) ==> frame_metadata_matches(p_metadata, m),
        p_metadata is None ==> r is Ok,
        r matches Err(e) ==> if frame_metadata_shape_ok(p_metadata) {
            e is InvalidUtf8
        } else {
            e is InvalidFrame
        },
        r matches Err(Error::InvalidUtf8(m)) ==> m@ == utf8_error_text(
            frame_metadata_text(p_metadata).unwrap(),
        ),
        p_metadata matches Some(b) ==> match first_nul(b@) {
            Some(i) => if i < MAX_METADATA_BYTES {
                if valid_utf8(b@.subrange(0, i)) {
                    r is Ok
                } else {
                    r matches Err(e) && e is InvalidUtf8
                }
            } else {
                r matches Err(e) && e is InvalidFrame
            },
            None => r matches Err(e) && e is InvalidFrame,
        },
{
    match p_metadata {
        None => Ok(ValidatedFrameMetadata { len_with_nul: None, text_len: 0 }),
        Some(b) => {
            let limit = if b.len() < MAX_METADATA_BYTES {
                b.len()
            } else {
                MAX_METADATA_BYTES
            };
            match find_nul(b, limit) {
                Some(i) => {
                    proof {
                        lemma_first_nul_is(b@, i as int);
                    }
                    let text = sub_slice(b, 0, i);
                    if let Err(m) = str_from_utf8(text) {
                        return Err(Error::InvalidUtf8(m));
                    }
                    proof {
                        assert forall|j: int| 0 <= j < i implies #[trigger] text@[j] != 0 by {
                            assert(text@[j] == b@[j]);
                        }
                    }
                    Ok(ValidatedFrameMetadata { len_with_nul: Some(i + 1), text_len: i })
                },
                None => {
                    proof {
                        if b@.len() < MAX_METADATA_BYTES {
                            let w = choose|k: int| 0 <= k < b@.len() && b@[k] == 0;
                            assert(b@[w] != 0);
                        }
                        match first_nul(b@) {
                            Some(k) => {
                                assert(is_first_nul(b@, k));
                                if k < limit {
                                    assert(b@[k] != 0);
                                }
                            },
                            None => {},
                        }
                    }
                    Err(
                        frame_error_in(
                            "Frame metadata is missing a NUL terminator within ",
                            MAX_METADATA_BYTES as i128,
                            " bytes",
                        ),
                    )
                },
            }
        },
    }
}

/// The text of validated per-frame metadata.
pub fn frame_metadata_str<'a>(p_metadata: Option<&'a [u8]>, m: ValidatedFrameMetadata) -> (r: Option<
    &'a str,
>)
    requires
        frame_metadata_matches(p_metadata, m),
    ensures
        p_metadata is None ==> r is None,
        p_metadata matches Some(b) ==> r matches Some(s) && s.spec_bytes() == b@.subrange(
            0,
            m.text_len as int,
        ),
{
    match p_metadata {
        None => None,
        Some(b) => {
            let text = sub_slice(b, 0, m.text_len);
            match str_from_utf8(text) {
                Ok(s) => Some(s),
                Err(_) => {
                    proof {
                        assert(false);
                    }
                    None
                },
            }
        },
    }
}

/// Copies validated per-frame metadata into owned text.
pub fn copy_frame_metadata(p_metadata: Option<&[u8]>, m: ValidatedFrameMetadata) -> (r: Option<
    FrameMetadata,
>)
    requires
        frame_metadata_matches(p_metadata, m),
    ensures
        p_metadata is None ==> r is None,
        p_metadata matches Some(b) ==> r matches Some(fm) && encode_utf8(fm.spec_text())
            == b@.subrange(0, m.text_len as int),
{
    match frame_metadata_str(p_metadata, m) {
        None => None,
        Some(s) => {
            let inner = s.to_string();
            proof {
                assert(inner@ == s@);
                assert(encode_utf8(inner@) == s.spec_bytes());
            }
            Some(FrameMetadata::from_checked(inner))
        },
    }
}

} // verus!
