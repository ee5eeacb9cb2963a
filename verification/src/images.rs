//! Records of images: those stored on this instance, those hosted
//! elsewhere, and what is known of each picture.

use vstd::prelude::*;
use crate::newtypes::{DbUrl, LocalUserId};

verus! {

/// An image that this instance stores, with the time of upload in
/// seconds since the epoch.
#[derive(Debug, Clone)]
pub struct LocalImage {
    pub local_user_id: Option<LocalUserId>,
    pub pictrs_alias: String,
    pub published: i64,
}

/// What is written when a local image is stored.
#[derive(Debug, Clone)]
pub struct LocalImageForm {
    pub local_user_id: Option<LocalUserId>,
    pub pictrs_alias: String,
}

/// An image hosted on another domain. Proxying is offered only for links
/// on record here.
#[derive(Debug, Clone)]
pub struct RemoteImage {
    pub link: DbUrl,
    pub published: i64,
}

/// Size and kind of a picture.
#[derive(Debug, Clone)]
pub struct ImageDetails {
    pub link: DbUrl,
    pub width: i32,
    pub height: i32,
    pub content_type: String,
    pub blurhash: Option<String>,
}

/// What is written when a picture's details are stored.
#[derive(Debug, Clone)]
pub struct ImageDetailsInsertForm {
    pub link: DbUrl,
    pub width: i32,
    pub height: i32,
    pub content_type: String,
    pub blurhash: Option<String>,
}

} // verus!
