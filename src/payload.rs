use vstd::prelude::*;

use crate::encode::Encodable;
use crate::error::PlotError;
use crate::figure::{Figure, FigureModel};

verus! {

/// The text that standard, padded base64 makes of a byte sequence.
pub uninterp spec fn base64_of(b: Seq<u8>) -> Seq<char>;

/// Relies on rustc_serialize's `ToBase64::to_base64` with the `STANDARD`
/// configuration (standard alphabet, padding, no line breaks); its output
/// depends on the bytes alone.
#[verifier::external_body]
fn to_base64(b: &[u8]) -> (r: String)
    ensures
        r@ == base64_of(b@),
{
    rustc_serialize::base64::ToBase64::to_base64(b, rustc_serialize::base64::STANDARD)
}

/// The base64 text that carries a figure to the renderer.
pub open spec fn payload_of(f: FigureModel) -> Seq<char> {
    base64_of(f.bytes())
}

/// The MessagePack encoding of a figure.
pub fn encode(fig: &Figure) -> (r: Result<Vec<u8>, PlotError>)
    ensures
        r is Ok <==> fig@.fits(),
        r matches Ok(b) ==> b@ == fig@.bytes(),
        r matches Err(e) ==> e == PlotError::EncodingFailure,
{
    let mut buf: Vec<u8> = Vec::new();
    fig.encode(&mut buf)?;
    assert(buf@ =~= fig@.bytes());
    Ok(buf)
}

/// The figure's encoding, wrapped in base64 for transport as text.
pub fn msgpack(fig: &Figure) -> (r: Result<String, PlotError>)
    ensures
        r is Ok <==> fig@.fits(),
        r matches Ok(s) ==> s@ == payload_of(fig@),
        r matches Err(e) ==> e == PlotError::EncodingFailure,
{
    let bytes = encode(fig)?;
    Ok(to_base64(bytes.as_slice()))
}

/// Encoding is a function of the figure's model: two figures with one model
/// that fits get the same payload from `msgpack`, byte for byte.
pub proof fn lemma_encoding_deterministic(
    f: FigureModel,
    g: FigureModel,
    a: Result<String, PlotError>,
    b: Result<String, PlotError>,
)
    requires
        f == g,
        f.fits(),
        a is Ok <==> f.fits(),
        a matches Ok(s) ==> s@ == payload_of(f),
        b is Ok <==> g.fits(),
        b matches Ok(s) ==> s@ == payload_of(g),
    ensures
        a matches Ok(s) && b matches Ok(t) && s@ == t@,
{
}

} // verus!
