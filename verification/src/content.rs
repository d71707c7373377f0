//! Label content and its materialisation: the bytes and the file suffix of
//! the input file that the renderer engines read.

use crate::adapter::ContentKind;
use crate::error::{LabelError, LabelErrorView};
use vstd::prelude::*;
use vstd::string::*;
use vstd::utf8::encode_utf8;

verus! {

/// The encodings in which a raster payload may arrive.
#[derive(Clone, Copy, Debug, PartialEq, Eq, Structural)]
pub enum SourceEncoding {
    /// Standard base64 with padding.
    Base64,
}

/// What is to be put on the label.
#[derive(Debug, PartialEq, Eq)]
pub enum LabelContent {
    /// Markup text, handed to the markup engine verbatim.
    Markup(String),
    /// An encoded raster image, possibly preceded by a data-URI prefix.
    Raster { payload: String, encoding: SourceEncoding },
}

/// The mathematical content of a `LabelContent`.
pub enum LabelContentView {
    Markup(Seq<char>),
    Raster { payload: Seq<char>, encoding: SourceEncoding },
}

impl View for LabelContent {
    type V = LabelContentView;

    open spec fn view(&self) -> LabelContentView {
        match *self {
            LabelContent::Markup(text) => LabelContentView::Markup(text@),
            LabelContent::Raster { payload, encoding } => LabelContentView::Raster {
                payload: payload@,
                encoding,
            },
        }
    }
}

impl LabelContentView {
    /// The kind of this content, which selects the renderer chain.
    pub open spec fn kind(self) -> ContentKind {
        match self {
            LabelContentView::Markup(_) => ContentKind::Markup,
            LabelContentView::Raster { .. } => ContentKind::Raster,
        }
    }
}

/// What is to be written to the temporary input file.
#[derive(Debug, PartialEq, Eq)]
pub struct MaterializedInput {
    /// The file's content.
    pub bytes: Vec<u8>,
    /// The file name's suffix, by which the engines recognise the format.
    pub suffix: String,
}

/// The mathematical content of a `MaterializedInput`.
pub struct MaterializedInputView {
    pub bytes: Seq<u8>,
    pub suffix: Seq<char>,
}

impl View for MaterializedInput {
    type V = MaterializedInputView;

    open spec fn view(&self) -> MaterializedInputView {
        MaterializedInputView { bytes: self.bytes@, suffix: self.suffix@ }
    }
}

/// The mathematical content of what the decoder returned.
pub open spec fn decoded_view(decoded: Result<Vec<u8>, String>) -> Result<Seq<u8>, Seq<char>> {
    match decoded {
        Ok(bytes) => Ok(bytes@),
        Err(detail) => Err(detail@),
    }
}

/// The mathematical content of a materialisation's result.
pub open spec fn input_view(input: Result<MaterializedInput, LabelError>) -> Result<
    MaterializedInputView,
    LabelErrorView,
> {
    match input {
        Ok(file) => Ok(file@),
        Err(error) => Err(error@),
    }
}

/// The scheme prefix that a raster payload may carry.
pub open spec fn data_uri_prefix() -> Seq<char> {
    "data:image/png;base64,"@
}

/// A payload without its data-URI prefix; a payload that has none is left
/// as it is.
pub open spec fn spec_strip_prefix(payload: Seq<char>) -> Seq<char> {
    if data_uri_prefix().is_prefix_of(payload) {
        payload.skip(data_uri_prefix().len() as int)
    } else {
        payload
    }
}

/// What `base64::decode` returns for a text: the decoded bytes, or the
/// message of its decode error.
pub uninterp spec fn base64_decoded(text: Seq<char>) -> Result<Seq<u8>, Seq<char>>;

/// The input file for a decoded raster payload: the bytes under the suffix
/// `.png`, or a validation error that carries the decoder's message.
pub open spec fn spec_raster_input(decoded: Result<Seq<u8>, Seq<char>>) -> Result<
    MaterializedInputView,
    LabelErrorView,
> {
    match decoded {
        Ok(bytes) => Ok(MaterializedInputView { bytes, suffix: ".png"@ }),
        Err(detail) => Err(LabelErrorView::InvalidEncoding { detail }),
    }
}

/// The input file for a label content. Markup is written verbatim, as UTF-8,
/// under the suffix `.html`; a raster payload is stripped of its prefix and
/// decoded.
pub open spec fn spec_materialize(content: LabelContentView) -> Result<
    MaterializedInputView,
    LabelErrorView,
> {
    match content {
        LabelContentView::Markup(text) => Ok(
            MaterializedInputView { bytes: encode_utf8(text), suffix: ".html"@ },
        ),
        LabelContentView::Raster { payload, encoding } => spec_raster_input(
            base64_decoded(spec_strip_prefix(payload)),
        ),
    }
}

/// Strips the data-URI prefix from a raster payload, if it has one.
pub fn strip_data_uri_prefix(payload: &str) -> (rest: &str)
    ensures
        rest@ == spec_strip_prefix(payload@),
{
    let prefix: &str = "data:image/png;base64,";
    let n: usize = payload.unicode_len();
    let m: usize = prefix.unicode_len();
    if n < m {
        return payload;
    }
    let mut i: usize = 0;
    while i < m
        invariant
            i <= m <= n,
            n == payload@.len(),
            m == prefix@.len(),
            prefix@ == data_uri_prefix(),
            forall|j: int| 0 <= j < i ==> payload@[j] == prefix@[j],
        decreases m - i,
    {
        if payload.get_char(i) != prefix.get_char(i) {
            assert(payload@.subrange(0, m as int)[i as int] != prefix@[i as int]);
            return payload;
        }
        i = i + 1;
    }
    assert(payload@.subrange(0, m as int) =~= prefix@);
    payload.substring_char(m, n)
}

/// Decodes standard base64 by calling `base64::decode`. The contract says
/// only that the outcome is the one that the decoder determines for this
/// text: its bytes on success, the text of its error otherwise.
#[verifier::external_body]
#[allow(deprecated)]
fn decode_base64(text: &str) -> (decoded: Result<Vec<u8>, String>)
    ensures
        decoded_view(decoded) == base64_decoded(text@),
{
    match base64::decode(text) {
        Ok(bytes) => Ok(bytes),
        Err(error) => Err(error.to_string()),
    }
}

/// Turns a decoded raster payload into the input file, or into the
/// validation error that reports why it could not be decoded.
pub fn raster_input(decoded: Result<Vec<u8>, String>) -> (input: Result<
    MaterializedInput,
    LabelError,
>)
    ensures
        input_view(input) == spec_raster_input(decoded_view(decoded)),
{
    match decoded {
        Ok(bytes) => Ok(MaterializedInput { bytes, suffix: String::from_str(".png") }),
        Err(detail) => Err(LabelError::InvalidEncoding { detail }),
    }
}

impl LabelContent {
    /// The kind of this content.
    pub fn kind(&self) -> (kind: ContentKind)
        ensures
            kind == self@.kind(),
    {
        match self {
            LabelContent::Markup(_) => ContentKind::Markup,
            LabelContent::Raster { .. } => ContentKind::Raster,
        }
    }

    /// Produces the bytes and suffix of the input file. Markup always
    /// succeeds; a raster payload succeeds exactly when it decodes.
    pub fn materialize(&self) -> (input: Result<MaterializedInput, LabelError>)
        ensures
            input_view(input) == spec_materialize(self@),
    {
        match self {
            LabelContent::Markup(text) => Ok(
                MaterializedInput {
                    bytes: text.as_str().as_bytes_vec(),
                    suffix: String::from_str(".html"),
                },
            ),
            LabelContent::Raster { payload, encoding } => {
                let stripped: &str = strip_data_uri_prefix(payload.as_str());
                match encoding {
                    SourceEncoding::Base64 => raster_input(decode_base64(stripped)),
                }
            },
        }
    }
}

/// A data-URI prefix is transparent: a payload that carries the prefix
/// materialises exactly as the bare payload decodes, bytes and errors alike.
pub proof fn law_prefix_is_transparent(payload: Seq<char>)
    ensures
        spec_strip_prefix(data_uri_prefix() + payload) == payload,
        spec_materialize(
            LabelContentView::Raster {
                payload: data_uri_prefix() + payload,
                encoding: SourceEncoding::Base64,
            },
        ) == spec_raster_input(base64_decoded(payload)),
        !data_uri_prefix().is_prefix_of(payload) ==> spec_materialize(
            LabelContentView::Raster {
                payload: data_uri_prefix() + payload,
                encoding: SourceEncoding::Base64,
            },
        ) == spec_materialize(
            LabelContentView::Raster { payload, encoding: SourceEncoding::Base64 },
        ),
{
    let prefix = data_uri_prefix();
    let whole = prefix + payload;
    assert(whole.subrange(0, prefix.len() as int) =~= prefix);
    assert(whole.skip(prefix.len() as int) =~= payload);
}

} // verus!
