//! The diff request pipeline: fetched payloads in, a named artifact or a
//! classified failure out.

use vstd::prelude::*;
use crate::artifact::{is_token, Artifact};
use crate::error::AppError;
use crate::imaging::{check_comparable, comparable, compare_and_encode, decode, decoded, encoded_diff};

verus! {

/// The failure that a request with these fetch outcomes is owed before any
/// comparison runs, if any: a missing payload is a missing input, an
/// undecodable or zero-width payload an unsupported format, and grids too
/// large for the comparison an internal failure.
pub open spec fn failure_of(before: Option<Vec<u8>>, after: Option<Vec<u8>>) -> Option<AppError> {
    match (before, after) {
        (Some(b), Some(a)) => match (decoded(b@), decoded(a@)) {
            (Some(gb), Some(ga)) => if gb.0 == 0 || ga.0 == 0 {
                Some(AppError::UnsupportedBitmapFormat)
            } else if !comparable((gb.0, gb.1), (ga.0, ga.1)) {
                Some(AppError::UnknownError)
            } else {
                None
            },
            _ => Some(AppError::UnsupportedBitmapFormat),
        },
        _ => Some(AppError::InputNotFound),
    }
}

/// What a request with these fetch outcomes yields: its failure where
/// `failure_of` names one, else the PNG encoding of the difference image of the
/// two decoded grids, or an internal failure where the encoder refuses it.
pub open spec fn outcome_of(before: Option<Vec<u8>>, after: Option<Vec<u8>>) -> Result<Seq<u8>, AppError> {
    match failure_of(before, after) {
        Some(e) => Err(e),
        None => encoded_diff(decoded(before->0@)->0, decoded(after->0@)->0),
    }
}

/// Decodes both fetched payloads (`None` where a fetch failed), compares them and
/// encodes the difference image as PNG bytes.
pub fn render_diff(before: Option<Vec<u8>>, after: Option<Vec<u8>>) -> (r: Result<Vec<u8>, AppError>)
    ensures
        match r {
            Ok(p) => outcome_of(before, after) == Ok::<Seq<u8>, AppError>(p@) && p@.len() >= 8,
            Err(e) => outcome_of(before, after) == Err::<Seq<u8>, AppError>(e),
        },
{
    let ghost (b0, a0) = (before, after);
    let (before, after) = match (before, after) {
        (Some(b), Some(a)) => (b, a),
        _ => return Err(AppError::InputNotFound),
    };
    let before_img = match decode(&before) {
        Ok(img) => img,
        Err(e) => return Err(e),
    };
    let after_img = match decode(&after) {
        Ok(img) => img,
        Err(e) => return Err(e),
    };
    if before_img.width == 0 || after_img.width == 0 {
        return Err(AppError::UnsupportedBitmapFormat);
    }
    if !check_comparable(&before_img, &after_img) {
        return Err(AppError::UnknownError);
    }
    assert(decoded(b0->0@)->0 == before_img.parts());
    assert(decoded(a0->0@)->0 == after_img.parts());
    compare_and_encode(&before_img, &after_img)
}

/// The whole computation of a request: the difference image of the two fetched
/// payloads, named after a fresh token and ready to be stored. Where it fails,
/// there is nothing to store.
pub fn diff(before: Option<Vec<u8>>, after: Option<Vec<u8>>) -> (r: Result<Artifact, AppError>)
    ensures
        match r {
            Ok(a) => outcome_of(before, after) == Ok::<Seq<u8>, AppError>(a.png@) && a.png@.len() >= 8
                && a.wf() && is_token(a.token@),
            Err(e) => outcome_of(before, after) == Err::<Seq<u8>, AppError>(e),
        },
{
    match render_diff(before, after) {
        Ok(png) => Ok(Artifact::fresh(png)),
        Err(e) => Err(e),
    }
}

} // verus!
