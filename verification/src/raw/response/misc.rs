//! Responses of the endpoints about the service itself.

use vstd::prelude::*;
use crate::codec::{field, get_field, is_object, FromJson};
use crate::json::Json;
use crate::raw::response::{RateLimit, ResponseType};

verus! {

/// Response type for
/// [`Client::status_get_dump_info`](crate::raw::Client::status_get_dump_info).
#[derive(Debug, Clone, PartialEq, Eq)]
pub struct StatusGetDumpInfoResponse {
    pub rate_limit: Option<RateLimit>,
    pub code: u16,
    pub message: String,
    pub id: i64,
    pub timestamp: String,
}

/// The mathematical value of a [`StatusGetDumpInfoResponse`].
pub struct StatusGetDumpInfoResponseModel {
    pub rate_limit: Option<RateLimit>,
    pub code: u16,
    pub message: Seq<char>,
    pub id: i64,
    pub timestamp: Seq<char>,
}

impl DeepView for StatusGetDumpInfoResponse {
    type V = StatusGetDumpInfoResponseModel;

    open spec fn deep_view(&self) -> StatusGetDumpInfoResponseModel {
        StatusGetDumpInfoResponseModel {
            rate_limit: self.rate_limit,
            code: self.code,
            message: self.message.deep_view(),
            id: self.id,
            timestamp: self.timestamp.deep_view(),
        }
    }
}

impl FromJson for StatusGetDumpInfoResponse {
    open spec fn decoded(j: Json) -> Option<StatusGetDumpInfoResponseModel> {
        match (
            field::<u16>(j, "code"@),
            field::<String>(j, "message"@),
            field::<i64>(j, "id"@),
            field::<String>(j, "timestamp"@),
        ) {
            (Some(code), Some(message), Some(id), Some(timestamp)) if j is Object => Some(
                StatusGetDumpInfoResponseModel { rate_limit: None, code, message, id, timestamp },
            ),
            _ => None,
        }
    }

    fn from_json(v: &serde_json::Value) -> (r: Option<StatusGetDumpInfoResponse>) {
        if !is_object(v) {
            return None;
        }
        let code = get_field::<u16>(v, "code")?;
        let message = get_field::<String>(v, "message")?;
        let id = get_field::<i64>(v, "id")?;
        let timestamp = get_field::<String>(v, "timestamp")?;
        Some(StatusGetDumpInfoResponse { rate_limit: None, code, message, id, timestamp })
    }
}

impl ResponseType for StatusGetDumpInfoResponse {
    open spec fn with_rate_limit(
        m: StatusGetDumpInfoResponseModel,
        rate_limit: Option<RateLimit>,
    ) -> StatusGetDumpInfoResponseModel {
        StatusGetDumpInfoResponseModel { rate_limit, ..m }
    }

    fn set_rate_limit(&mut self, rate_limit: Option<RateLimit>) {
        self.rate_limit = rate_limit;
    }
}

} // verus!
