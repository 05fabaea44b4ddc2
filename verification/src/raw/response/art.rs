//! Responses of the cover art endpoints.

use vstd::prelude::*;
use crate::error::{error_of, Error, ErrorModel};
use crate::http::{Response, ResponseModel};
use crate::raw::response::{rate_limit_of, RateLimit};

verus! {

/// What the `art/grid` endpoint answers: an SVG image, sent as it is and not
/// inside a JSON document.
#[derive(Debug, Clone, PartialEq, Eq)]
pub struct ArtGridResponse {
    pub rate_limit: Option<RateLimit>,
    pub image: String,
}

/// The mathematical value of an [`ArtGridResponse`].
pub struct ArtGridResponseModel {
    pub rate_limit: Option<RateLimit>,
    pub image: Seq<char>,
}

impl DeepView for ArtGridResponse {
    type V = ArtGridResponseModel;

    open spec fn deep_view(&self) -> ArtGridResponseModel {
        ArtGridResponseModel { rate_limit: self.rate_limit, image: self.image.deep_view() }
    }
}

/// What a response to `art/grid` stands for: the error of a response with an
/// error status, else the body as the image.
pub open spec fn art_grid_of(response: ResponseModel) -> Result<ArtGridResponseModel, ErrorModel> {
    match error_of(response) {
        Some(e) => Err(e),
        None => Ok(
            ArtGridResponseModel {
                rate_limit: rate_limit_of(response.headers),
                image: response.body,
            },
        ),
    }
}

impl ArtGridResponse {
    /// Reads a response to `art/grid`.
    pub fn from_response(response: &Response) -> (r: Result<ArtGridResponse, Error>)
        ensures
            match r {
                Ok(grid) => art_grid_of(response.deep_view()) == Ok::<
                    ArtGridResponseModel,
                    ErrorModel,
                >(grid.deep_view()),
                Err(e) => art_grid_of(response.deep_view()) == Err::<
                    ArtGridResponseModel,
                    ErrorModel,
                >(e.deep_view()),
            },
    {
        match Error::try_from_error_response(response) {
            Ok(_) => Ok(
                ArtGridResponse {
                    rate_limit: RateLimit::from_headers(response),
                    image: response.body.clone(),
                },
            ),
            Err(e) => Err(e),
        }
    }
}

} // verus!
