//! Responses of the endpoints about who follows whom.

use vstd::prelude::*;
use crate::codec::{field, get_field, is_object, FromJson};
use crate::json::Json;
use crate::raw::response::{RateLimit, ResponseType};

verus! {

/// What the `user/{name}/followers` endpoint answers.
#[derive(Debug, Clone, PartialEq, Eq)]
pub struct UserFollowersResponse {
    pub rate_limit: Option<RateLimit>,
    pub followers: Vec<String>,
    pub user: String,
}

/// The mathematical value of an [`UserFollowersResponse`].
pub struct UserFollowersResponseModel {
    pub rate_limit: Option<RateLimit>,
    pub followers: Seq<Seq<char>>,
    pub user: Seq<char>,
}

impl DeepView for UserFollowersResponse {
    type V = UserFollowersResponseModel;

    open spec fn deep_view(&self) -> UserFollowersResponseModel {
        UserFollowersResponseModel {
            rate_limit: self.rate_limit,
            followers: self.followers.deep_view(),
            user: self.user.deep_view(),
        }
    }
}

impl FromJson for UserFollowersResponse {
    open spec fn decoded(j: Json) -> Option<UserFollowersResponseModel> {
        match (
            field::<Vec<String>>(j, "followers"@),
            field::<String>(j, "user"@),
        ) {
            (Some(followers), Some(user)) if j is Object => Some(
                UserFollowersResponseModel { rate_limit: None, followers, user },
            ),
            _ => None,
        }
    }

    fn from_json(v: &serde_json::Value) -> (r: Option<UserFollowersResponse>) {
        if !is_object(v) {
            return None;
        }
        let followers = get_field::<Vec<String>>(v, "followers")?;
        let user = get_field::<String>(v, "user")?;
        Some(UserFollowersResponse { rate_limit: None, followers, user })
    }
}

impl ResponseType for UserFollowersResponse {
    open spec fn with_rate_limit(
        m: UserFollowersResponseModel,
        rate_limit: Option<RateLimit>,
    ) -> UserFollowersResponseModel {
        UserFollowersResponseModel { rate_limit, ..m }
    }

    fn set_rate_limit(&mut self, rate_limit: Option<RateLimit>) {
        self.rate_limit = rate_limit;
    }
}

/// What the `user/{name}/following` endpoint answers.
#[derive(Debug, Clone, PartialEq, Eq)]
pub struct UserFollowingResponse {
    pub rate_limit: Option<RateLimit>,
    pub following: Vec<String>,
    pub user: String,
}

/// The mathematical value of an [`UserFollowingResponse`].
pub struct UserFollowingResponseModel {
    pub rate_limit: Option<RateLimit>,
    pub following: Seq<Seq<char>>,
    pub user: Seq<char>,
}

impl DeepView for UserFollowingResponse {
    type V = UserFollowingResponseModel;

    open spec fn deep_view(&self) -> UserFollowingResponseModel {
        UserFollowingResponseModel {
            rate_limit: self.rate_limit,
            following: self.following.deep_view(),
            user: self.user.deep_view(),
        }
    }
}

impl FromJson for UserFollowingResponse {
    open spec fn decoded(j: Json) -> Option<UserFollowingResponseModel> {
        match (
            field::<Vec<String>>(j, "following"@),
            field::<String>(j, "user"@),
        ) {
            (Some(following), Some(user)) if j is Object => Some(
                UserFollowingResponseModel { rate_limit: None, following, user },
            ),
            _ => None,
        }
    }

    fn from_json(v: &serde_json::Value) -> (r: Option<UserFollowingResponse>) {
        if !is_object(v) {
            return None;
        }
        let following = get_field::<Vec<String>>(v, "following")?;
        let user = get_field::<String>(v, "user")?;
        Some(UserFollowingResponse { rate_limit: None, following, user })
    }
}

impl ResponseType for UserFollowingResponse {
    open spec fn with_rate_limit(
        m: UserFollowingResponseModel,
        rate_limit: Option<RateLimit>,
    ) -> UserFollowingResponseModel {
        UserFollowingResponseModel { rate_limit, ..m }
    }

    fn set_rate_limit(&mut self, rate_limit: Option<RateLimit>) {
        self.rate_limit = rate_limit;
    }
}

/// What the `user/{name}/follow` endpoint answers.
#[derive(Debug, Clone, PartialEq, Eq)]
pub struct UserFollowResponse {
    pub rate_limit: Option<RateLimit>,
    pub status: String,
}

/// The mathematical value of an [`UserFollowResponse`].
pub struct UserFollowResponseModel {
    pub rate_limit: Option<RateLimit>,
    pub status: Seq<char>,
}

impl DeepView for UserFollowResponse {
    type V = UserFollowResponseModel;

    open spec fn deep_view(&self) -> UserFollowResponseModel {
        UserFollowResponseModel {
            rate_limit: self.rate_limit,
            status: self.status.deep_view(),
        }
    }
}

impl FromJson for UserFollowResponse {
    open spec fn decoded(j: Json) -> Option<UserFollowResponseModel> {
        match field::<String>(j, "status"@) {
            Some(status) if j is Object => Some(
                UserFollowResponseModel { rate_limit: None, status },
            ),
            _ => None,
        }
    }

    fn from_json(v: &serde_json::Value) -> (r: Option<UserFollowResponse>) {
        if !is_object(v) {
            return None;
        }
        let status = get_field::<String>(v, "status")?;
        Some(UserFollowResponse { rate_limit: None, status })
    }
}

impl ResponseType for UserFollowResponse {
    open spec fn with_rate_limit(
        m: UserFollowResponseModel,
        rate_limit: Option<RateLimit>,
    ) -> UserFollowResponseModel {
        UserFollowResponseModel { rate_limit, ..m }
    }

    fn set_rate_limit(&mut self, rate_limit: Option<RateLimit>) {
        self.rate_limit = rate_limit;
    }
}

/// What the `user/{name}/unfollow` endpoint answers.
#[derive(Debug, Clone, PartialEq, Eq)]
pub struct UserUnfollowResponse {
    pub rate_limit: Option<RateLimit>,
    pub status: String,
}

/// The mathematical value of an [`UserUnfollowResponse`].
pub struct UserUnfollowResponseModel {
    pub rate_limit: Option<RateLimit>,
    pub status: Seq<char>,
}

impl DeepView for UserUnfollowResponse {
    type V = UserUnfollowResponseModel;

    open spec fn deep_view(&self) -> UserUnfollowResponseModel {
        UserUnfollowResponseModel {
            rate_limit: self.rate_limit,
            status: self.status.deep_view(),
        }
    }
}

impl FromJson for UserUnfollowResponse {
    open spec fn decoded(j: Json) -> Option<UserUnfollowResponseModel> {
        match field::<String>(j, "status"@) {
            Some(status) if j is Object => Some(
                UserUnfollowResponseModel { rate_limit: None, status },
            ),
            _ => None,
        }
    }

    fn from_json(v: &serde_json::Value) -> (r: Option<UserUnfollowResponse>) {
        if !is_object(v) {
            return None;
        }
        let status = get_field::<String>(v, "status")?;
        Some(UserUnfollowResponse { rate_limit: None, status })
    }
}

impl ResponseType for UserUnfollowResponse {
    open spec fn with_rate_limit(
        m: UserUnfollowResponseModel,
        rate_limit: Option<RateLimit>,
    ) -> UserUnfollowResponseModel {
        UserUnfollowResponseModel { rate_limit, ..m }
    }

    fn set_rate_limit(&mut self, rate_limit: Option<RateLimit>) {
        self.rate_limit = rate_limit;
    }
}

} // verus!
