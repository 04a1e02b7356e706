//! Request options and response records of the photo service.
use std::collections::HashMap;

use vstd::prelude::*;
use vstd::string::StringExecFns;

use crate::query::{count_text, count_value, param, push_param, query_view, text_value, token_text, token_value};
use crate::variable::Token;

verus! {

/// The orientation of the photos asked for.
#[derive(Clone, Copy, Debug, PartialEq, Eq, Hash, Structural)]
pub enum Orientation {
    Landscape,
    Portrait,
    Squarish,
}

impl Token for Orientation {
    open spec fn wire(&self) -> Seq<char> {
        match self {
            Orientation::Landscape => "landscape"@,
            Orientation::Portrait => "portrait"@,
            Orientation::Squarish => "squarish"@,
        }
    }

    fn token(&self) -> (r: String) {
        match self {
            Orientation::Landscape => String::from_str("landscape"),
            Orientation::Portrait => String::from_str("portrait"),
            Orientation::Squarish => String::from_str("squarish"),
        }
    }
}

/// Which part of a photo a crop keeps.
#[derive(Clone, Copy, Debug, PartialEq, Eq, Hash, Structural)]
pub enum Crop {
    Top,
    Bottom,
    Left,
    Right,
    Faces,
    FocalPoint,
    Edges,
    Entropy,
}

impl Token for Crop {
    open spec fn wire(&self) -> Seq<char> {
        match self {
            Crop::Top => "top"@,
            Crop::Bottom => "bottom"@,
            Crop::Left => "left"@,
            Crop::Right => "right"@,
            Crop::Faces => "faces"@,
            Crop::FocalPoint => "focalpoint"@,
            Crop::Edges => "edges"@,
            Crop::Entropy => "entropy"@,
        }
    }

    fn token(&self) -> (r: String) {
        match self {
            Crop::Top => String::from_str("top"),
            Crop::Bottom => String::from_str("bottom"),
            Crop::Left => String::from_str("left"),
            Crop::Right => String::from_str("right"),
            Crop::Faces => String::from_str("faces"),
            Crop::FocalPoint => String::from_str("focalpoint"),
            Crop::Edges => String::from_str("edges"),
            Crop::Entropy => String::from_str("entropy"),
        }
    }
}

/// The file format a photo is fetched in.
#[derive(Clone, Copy, Debug, PartialEq, Eq, Hash, Structural)]
pub enum Format {
    Avif,
    Gif,
    Jp2,
    Jpg,
    Json,
    Jxr,
    PJpg,
    Mp4,
    Png,
    Png8,
    Png32,
    Webm,
    Webp,
    BlurHash,
}

impl Token for Format {
    open spec fn wire(&self) -> Seq<char> {
        match self {
            Format::Avif => "avif"@,
            Format::Gif => "gif"@,
            Format::Jp2 => "jp2"@,
            Format::Jpg => "jpg"@,
            Format::Json => "json"@,
            Format::Jxr => "jxr"@,
            Format::PJpg => "pjpg"@,
            Format::Mp4 => "mp4"@,
            Format::Png => "png"@,
            Format::Png8 => "png8"@,
            Format::Png32 => "png32"@,
            Format::Webm => "webm"@,
            Format::Webp => "webp"@,
            Format::BlurHash => "blurhash"@,
        }
    }

    fn token(&self) -> (r: String) {
        match self {
            Format::Avif => String::from_str("avif"),
            Format::Gif => String::from_str("gif"),
            Format::Jp2 => String::from_str("jp2"),
            Format::Jpg => String::from_str("jpg"),
            Format::Json => String::from_str("json"),
            Format::Jxr => String::from_str("jxr"),
            Format::PJpg => String::from_str("pjpg"),
            Format::Mp4 => String::from_str("mp4"),
            Format::Png => String::from_str("png"),
            Format::Png8 => String::from_str("png8"),
            Format::Png32 => String::from_str("png32"),
            Format::Webm => String::from_str("webm"),
            Format::Webp => String::from_str("webp"),
            Format::BlurHash => String::from_str("blurhash"),
        }
    }
}

/// An automatic adjustment of a fetched photo.
#[derive(Clone, Copy, Debug, PartialEq, Eq, Hash, Structural)]
pub enum Auto {
    Compress,
    Enhance,
    True,
    Format,
    Redeye,
}

impl Token for Auto {
    open spec fn wire(&self) -> Seq<char> {
        match self {
            Auto::Compress => "compress"@,
            Auto::Enhance => "enhance"@,
            Auto::True => "true"@,
            Auto::Format => "format"@,
            Auto::Redeye => "redeye"@,
        }
    }

    fn token(&self) -> (r: String) {
        match self {
            Auto::Compress => String::from_str("compress"),
            Auto::Enhance => String::from_str("enhance"),
            Auto::True => String::from_str("true"),
            Auto::Format => String::from_str("format"),
            Auto::Redeye => String::from_str("redeye"),
        }
    }
}

/// How a fetched photo is fitted to the size asked for.
#[derive(Clone, Copy, Debug, PartialEq, Eq, Hash, Structural)]
pub enum Fit {
    Clamp,
    Clip,
    Crop,
    FaceArea,
    Fill,
    FillMax,
    Max,
    Min,
    Scale,
}

impl Token for Fit {
    open spec fn wire(&self) -> Seq<char> {
        match self {
            Fit::Clamp => "clamp"@,
            Fit::Clip => "clip"@,
            Fit::Crop => "crop"@,
            Fit::FaceArea => "facearea"@,
            Fit::Fill => "fill"@,
            Fit::FillMax => "fillmax"@,
            Fit::Max => "max"@,
            Fit::Min => "min"@,
            Fit::Scale => "scale"@,
        }
    }

    fn token(&self) -> (r: String) {
        match self {
            Fit::Clamp => String::from_str("clamp"),
            Fit::Clip => String::from_str("clip"),
            Fit::Crop => String::from_str("crop"),
            Fit::FaceArea => String::from_str("facearea"),
            Fit::Fill => String::from_str("fill"),
            Fit::FillMax => String::from_str("fillmax"),
            Fit::Max => String::from_str("max"),
            Fit::Min => String::from_str("min"),
            Fit::Scale => String::from_str("scale"),
        }
    }
}

/// Options of a request for the photos of a collection.
pub struct CollectionPhotosOptions {
    /// The page asked for, from 1.
    pub page: Option<usize>,
    /// How many photos a page holds.
    pub per_page: Option<usize>,
    pub orientation: Option<Orientation>,
}

impl Default for CollectionPhotosOptions {
    fn default() -> (r: Self)
        ensures
            r.page is None,
            r.per_page is None,
            r.orientation is None,
    {
        CollectionPhotosOptions {
            page: None,
            per_page: None,
            orientation: None,
        }
    }
}

impl CollectionPhotosOptions {
    /// The query parameters of the options, in order: one per option that is present.
    pub open spec fn query_spec(&self) -> Seq<(Seq<char>, Seq<char>)> {
        param("page"@, count_value(self.page))
            + param("per_page"@, count_value(self.per_page))
            + param("orientation"@, token_value(self.orientation))
    }

    /// The query parameters of the options: each present option once, written by its own
    /// rule; each absent option left out.
    pub fn query(&self) -> (r: Vec<(String, String)>)
        ensures
            query_view(r@) == self.query_spec(),
    {
        let mut q: Vec<(String, String)> = Vec::new();
        let ghost mut acc: Seq<(Seq<char>, Seq<char>)> = Seq::empty();
        assert(query_view(q@) =~= acc);
        push_param(&mut q, "page", count_text(self.page));
        proof {
            acc = acc + param("page"@, count_value(self.page));
        }
        push_param(&mut q, "per_page", count_text(self.per_page));
        proof {
            acc = acc + param("per_page"@, count_value(self.per_page));
        }
        push_param(&mut q, "orientation", token_text(&self.orientation));
        proof {
            acc = acc + param("orientation"@, token_value(self.orientation));
        }
        assert(acc =~= self.query_spec());
        q
    }
}

/// One page of the photos of a collection, with the totals the service reports.
#[derive(Clone, Debug)]
pub struct CollectionPhotos {
    pub collection_total: usize,
    pub per_page: usize,
    pub photos: Vec<Photo>,
}

/// A photo and what the service tells of it.
#[derive(Clone, Debug)]
pub struct Photo {
    pub id: String,
    pub slug: String,
    pub alternative_slugs: HashMap<String, String>,
    pub created_at: String,
    pub updated_at: String,
    pub promoted_at: Option<String>,
    pub width: usize,
    pub height: usize,
    pub color: String,
    pub blur_hash: String,
    pub description: Option<String>,
    pub alt_description: Option<String>,
    pub urls: PhotoUrls,
    pub links: PhotoLinks,
    pub likes: usize,
    pub liked_by_user: bool,
    pub topic_submissions: HashMap<String, TopicSubmission>,
    pub asset_type: String,
    pub user: User,
}

/// Where a photo can be fetched, at several sizes.
#[derive(Clone, Debug)]
pub struct PhotoUrls {
    pub raw: String,
    pub full: String,
    pub regular: String,
    pub small: String,
    pub thumb: String,
    pub small_s3: String,
}

/// Links of a photo.
#[derive(Clone, Debug)]
pub struct PhotoLinks {
    pub this: String,
    pub html: String,
    pub download: String,
    pub download_location: String,
}

/// The state of a photo's submission to a topic.
#[derive(Clone, Debug)]
pub struct TopicSubmission {
    pub status: String,
    pub approved_on: String,
}

/// A user of the photo service.
#[derive(Clone, Debug)]
pub struct User {
    pub id: String,
    pub updated_at: String,
    pub username: String,
    pub first_name: String,
    pub last_name: Option<String>,
    pub twitter_username: Option<String>,
    pub portfolio_url: Option<String>,
    pub bio: Option<String>,
    pub location: Option<String>,
    pub links: UserLinks,
    pub profile_image: ProfileImageLinks,
    pub instagram_username: Option<String>,
    pub total_collections: usize,
    pub total_likes: usize,
    pub total_photos: usize,
    pub total_promoted_photos: usize,
    pub total_illustrations: usize,
    pub total_promoted_illustrations: usize,
    pub accepted_tos: bool,
    pub for_hire: bool,
    pub social: UserSocials,
}

/// Links of a user.
#[derive(Clone, Debug)]
pub struct UserLinks {
    pub this: String,
    pub html: String,
    pub photos: String,
    pub likes: String,
    pub portfolio: String,
    pub following: Option<String>,
    pub followers: Option<String>,
}

/// A user's profile image at three sizes.
#[derive(Clone, Debug)]
pub struct ProfileImageLinks {
    pub small: String,
    pub medium: String,
    pub large: String,
}

/// A user's accounts elsewhere.
#[derive(Clone, Debug)]
pub struct UserSocials {
    pub instagram_username: Option<String>,
    pub portfolio_url: Option<String>,
    pub twitter_username: Option<String>,
    pub paypal_email: Option<String>,
}

/// Links of a collection.
#[derive(Clone, Debug)]
pub struct CollectionLinks {
    pub this: String,
    pub html: String,
    pub photos: String,
    pub related: String,
}

/// A photo as a collection previews it.
#[derive(Clone, Debug)]
pub struct PreviewPhoto {
    pub id: String,
    pub slug: String,
    pub created_at: String,
    pub updated_at: String,
    pub blur_hash: String,
    pub asset_type: String,
    pub urls: PhotoUrls,
}

/// A collection of photos.
#[derive(Clone, Debug)]
pub struct Collection {
    pub id: String,
    pub title: String,
    pub description: Option<String>,
    pub published_at: String,
    pub last_collected_at: String,
    pub updated_at: String,
    pub featured: bool,
    pub total_photos: usize,
    pub private: bool,
    pub share_key: String,
    pub links: CollectionLinks,
    pub user: User,
    pub cover_photo: Option<Photo>,
    pub preview_photos: Vec<PreviewPhoto>,
}

} // verus!
