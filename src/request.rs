//! Decisions of the HTTP mode: what a request asks for, and what a
//! successful response carries.

use crate::compose::{encode_jpeg, jpeg_of};
use crate::error::StrangeError;
use crate::geometry::Scale;
use crate::naming::{attachment_disposition, disposition_of};
use vstd::prelude::*;
use vstd::string::*;

verus! {

/// The scale factor used where none is given: 0.55, in millionths.
pub const DEFAULT_SCALE_MICROS: u64 = 550_000;

/// The query of a request: the picture's URL and, optionally, a scale.
pub struct QueryParams {
    pub url: String,
    pub scale: Option<Scale>,
}

/// What a request asks for: the URL to fetch and the scale factor to use.
/// A request without a query is `NoQueryParameters`; a missing scale falls
/// back to 0.55.
pub fn resolve_query(query: Option<QueryParams>) -> (r: Result<(String, Scale), StrangeError>)
    ensures
        query is None <==> r is Err,
        query is None ==> r == Err::<(String, Scale), StrangeError>(
            StrangeError::NoQueryParameters,
        ),
        query is Some ==> (r->Ok_0).0@ == (query->0).url@,
        query is Some ==> (r->Ok_0).1 == match (query->0).scale {
            Some(s) => s,
            None => Scale { micros: DEFAULT_SCALE_MICROS },
        },
{
    match query {
        None => Err(StrangeError::NoQueryParameters),
        Some(q) => {
            let scale = match q.scale {
                Some(s) => s,
                None => Scale { micros: DEFAULT_SCALE_MICROS },
            };
            Ok((q.url, scale))
        },
    }
}

/// A successful response: its content type, its `Content-Disposition` and
/// the encoded picture.
pub struct Download {
    pub content_type: String,
    pub disposition: String,
    pub body: Vec<u8>,
}

/// The response for a composited picture: JPEG bytes offered as the
/// attachment `{stem}.jpg`. An encoding failure is `EncodeFailed`, and then
/// no bytes are returned.
pub fn jpeg_download(img: &image::DynamicImage, stem: &str) -> (r: Result<Download, StrangeError>)
    ensures
        r is Ok <==> jpeg_of(*img) is Some,
        r is Ok ==> (r->Ok_0).body@ == jpeg_of(*img)->0,
        r is Err ==> r->Err_0 == StrangeError::EncodeFailed,
        r is Ok ==> (r->Ok_0).content_type@ == "image/jpeg"@,
        r is Ok ==> (r->Ok_0).disposition@ == disposition_of(stem@),
{
    match encode_jpeg(img) {
        Err(e) => Err(e),
        Ok(body) => {
            proof {
                reveal_strlit("image/jpeg");
            }
            Ok(
                Download {
                    content_type: String::from_str("image/jpeg"),
                    disposition: attachment_disposition(stem),
                    body,
                },
            )
        },
    }
}

} // verus!
