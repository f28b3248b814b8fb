//! Uploading a video: when the form may be sent, when the metadata is
//! published, and what the progress line says.

use vstd::prelude::*;
use crate::text::{decimal_text, text_eq};

verus! {

/// The upload form is invalid while a field reports an error, no hashtag
/// was given, or the caption is empty.
pub fn upload_form_invalid(
    description_error: &str,
    hashtags_error: &str,
    hashtag_count: usize,
    description: &str,
) -> (invalid: bool)
    ensures
        invalid == (description_error@.len() != 0 || hashtags_error@.len() != 0 || hashtag_count
            == 0 || description@.len() == 0),
{
    !description_error.is_empty() || !hashtags_error.is_empty() || hashtag_count == 0
        || description.is_empty()
}

/// Whether to publish the metadata now: an uploaded file is known, it is
/// not the one seen last time, and no publish is under way or done.
pub fn should_publish(uid: Option<&str>, prev_uid: Option<&str>, pending: bool, published: bool) -> (publish: bool)
    ensures
        publish == (uid is Some && (prev_uid is None || (prev_uid.unwrap()@ != uid.unwrap()@))
            && !pending && !published),
{
    match uid {
        None => false,
        Some(u) => {
            let changed = match prev_uid {
                None => true,
                Some(p) => !text_eq(p, u),
            };
            changed && !pending && !published
        },
    }
}

/// The stage an upload is at.
#[derive(Clone, Copy, PartialEq, Eq, Structural, Debug)]
pub enum UploadStage {
    /// The metadata is published.
    Complete,
    /// The metadata is being published.
    ProcessingMetadata,
    /// The file is still uploading.
    UploadingFile,
    /// The file is up; the metadata waits to be published.
    WaitingToPublish,
}

impl UploadStage {
    /// What the progress line says.
    pub fn message(&self) -> (text: &'static str)
        ensures
            *self == UploadStage::Complete ==> text@ == "Upload complete!"@,
            *self == UploadStage::ProcessingMetadata ==> text@ == "Processing video metadata..."@,
            *self == UploadStage::UploadingFile ==> text@ == "Uploading video file..."@,
            *self == UploadStage::WaitingToPublish ==> text@
                == "Video file uploaded. Waiting to publish metadata..."@,
    {
        match self {
            UploadStage::Complete => "Upload complete!",
            UploadStage::ProcessingMetadata => "Processing video metadata...",
            UploadStage::UploadingFile => "Uploading video file...",
            UploadStage::WaitingToPublish => "Video file uploaded. Waiting to publish metadata...",
        }
    }
}

/// The stage of an upload, by whether it is published, publishing, and has
/// an uploaded file.
pub fn upload_stage(published: bool, publishing: bool, has_uid: bool) -> (stage: UploadStage)
    ensures
        published ==> stage == UploadStage::Complete,
        !published && publishing ==> stage == UploadStage::ProcessingMetadata,
        !published && !publishing && !has_uid ==> stage == UploadStage::UploadingFile,
        !published && !publishing && has_uid ==> stage == UploadStage::WaitingToPublish,
{
    if published {
        UploadStage::Complete
    } else if publishing {
        UploadStage::ProcessingMetadata
    } else if !has_uid {
        UploadStage::UploadingFile
    } else {
        UploadStage::WaitingToPublish
    }
}


/// The parts joined with `sep` between each two.
pub open spec fn joined(parts: Seq<Seq<char>>, sep: Seq<char>) -> Seq<char>
    decreases parts.len(),
{
    if parts.len() == 0 {
        Seq::empty()
    } else if parts.len() == 1 {
        parts[0]
    } else {
        joined(parts.drop_last(), sep) + sep + parts.last()
    }
}

/// The texts of a list of strings.
pub open spec fn texts_of(strings: Seq<String>) -> Seq<Seq<char>> {
    strings.map_values(|s: String| s@)
}

/// The tags the upload metadata carries: the hashtags joined with commas.
pub fn join_tags(hashtags: &Vec<String>) -> (tags: String)
    ensures
        tags@ == joined(texts_of(hashtags@), ","@),
{
    let mut tags = String::new();
    let mut i: usize = 0;
    proof {
        assert(texts_of(hashtags@).take(0) =~= Seq::<Seq<char>>::empty());
        assert(tags@ =~= Seq::<char>::empty());
    }
    while i < hashtags.len()
        invariant
            i <= hashtags.len(),
            tags@ == joined(texts_of(hashtags@).take(i as int), ","@),
        decreases hashtags.len() - i,
    {
        let ghost before = texts_of(hashtags@).take(i as int);
        let ghost after = texts_of(hashtags@).take(i + 1);
        proof {
            assert(after.drop_last() =~= before);
            assert(after.last() == hashtags@[i as int]@);
        }
        if i > 0 {
            tags.append(",");
        }
        tags.append(hashtags[i].as_str());
        proof {
            if i == 0 {
                assert(tags@ =~= after[0]);
            } else {
                assert(tags@ =~= joined(before, ","@) + ","@ + after.last());
            }
        }
        i = i + 1;
    }
    proof {
        assert(texts_of(hashtags@).take(hashtags@.len() as int) =~= texts_of(hashtags@));
    }
    tags
}

/// `{base}/get_upload_url_v2`: where an upload asks for its upload address.
pub fn upload_url_endpoint(base: &str) -> (url: String)
    ensures
        url@ == base@ + "/get_upload_url_v2"@,
{
    let mut s = String::new();
    crate::text::push_text(&mut s, base);
    crate::text::push_text(&mut s, "/get_upload_url_v2");
    s
}

/// `{base}/update_metadata`: where an upload publishes its metadata.
pub fn update_metadata_endpoint(base: &str) -> (url: String)
    ensures
        url@ == base@ + "/update_metadata"@,
{
    let mut s = String::new();
    crate::text::push_text(&mut s, base);
    crate::text::push_text(&mut s, "/update_metadata");
    s
}

/// Whether an HTTP status reports success: 200 to 299.
pub open spec fn is_success_status(status: u16) -> bool {
    200 <= status < 300
}

/// How the file's upload ended, by the status it got, if any: a success
/// status ends it well; another status, or none, is an error saying so.
pub fn upload_outcome(status: Option<u16>, status_text: &str) -> (res: Result<(), String>)
    ensures
        status matches Some(s) ==> (is_success_status(s) <==> res is Ok),
        status matches Some(s) ==> (!is_success_status(s) ==> (res matches Err(e) && e@
            == "Upload XHR failed: status "@ + decimal_text(s as nat) + " "@ + status_text@)),
        status is None ==> (res matches Err(e) && e@ == "Upload XHR failed to get status"@),
{
    match status {
        Some(s) => {
            if 200 <= s && s < 300 {
                Ok(())
            } else {
                let mut e = String::from_str("Upload XHR failed: status ");
                crate::text::push_decimal(&mut e, s as u128);
                crate::text::push_text(&mut e, " ");
                crate::text::push_text(&mut e, status_text);
                Err(e)
            }
        },
        None => Err(String::from_str("Upload XHR failed to get status")),
    }
}

/// The error of an upload that failed on the network, with the status and
/// its text (0 and empty when none was had).
pub fn upload_network_error(status: u16, status_text: &str) -> (e: String)
    ensures
        e@ == "Upload XHR network error. Status: "@ + decimal_text(status as nat) + ", Text: "@
            + status_text@,
{
    let mut e = String::from_str("Upload XHR network error. Status: ");
    crate::text::push_decimal(&mut e, status as u128);
    crate::text::push_text(&mut e, ", Text: ");
    crate::text::push_text(&mut e, status_text);
    e
}

/// The address the file goes to, from the upload service's answer, or the
/// error when the answer has none.
pub fn upload_address(address: Option<String>) -> (res: Result<String, String>)
    ensures
        address matches Some(a) ==> (res matches Ok(u) && u@ == a@),
        address is None ==> (res matches Err(e) && e@ == "Upload URL not found in response"@),
{
    match address {
        Some(a) => Ok(a),
        None => Err(String::from_str("Upload URL not found in response")),
    }
}


/// The metadata an upload publishes about its video.
#[derive(Clone, PartialEq, Eq, Debug)]
pub struct VideoMetadata {
    pub title: String,
    pub description: String,
    pub tags: String,
}

impl VideoMetadata {
    /// The metadata of an upload: the caption as title and description, and
    /// the hashtags joined with commas as tags.
    pub fn for_upload(description: &str, hashtags: &Vec<String>) -> (meta: VideoMetadata)
        ensures
            meta.title@ == description@,
            meta.description@ == description@,
            meta.tags@ == joined(texts_of(hashtags@), ","@),
    {
        VideoMetadata {
            title: String::from_str(description),
            description: String::from_str(description),
            tags: join_tags(hashtags),
        }
    }
}

/// The post an upload asks the backend to create.
#[derive(Clone, PartialEq, Eq, Debug)]
pub struct SerializablePostDetailsFromFrontend {
    pub is_nsfw: bool,
    pub hashtags: Vec<String>,
    pub description: String,
    pub video_uid: String,
    pub creator_consent_for_inclusion_in_hot_or_not: bool,
}

impl SerializablePostDetailsFromFrontend {
    /// The post of an upload: as the form gave it, for the uploaded video.
    pub fn for_upload(
        is_nsfw: bool,
        hashtags: Vec<String>,
        description: String,
        video_uid: String,
        enable_hot_or_not: bool,
    ) -> (post: Self)
        ensures
            post.is_nsfw == is_nsfw,
            post.hashtags@ == hashtags@,
            post.description@ == description@,
            post.video_uid@ == video_uid@,
            post.creator_consent_for_inclusion_in_hot_or_not == enable_hot_or_not,
    {
        SerializablePostDetailsFromFrontend {
            is_nsfw,
            hashtags,
            description,
            video_uid,
            creator_consent_for_inclusion_in_hot_or_not: enable_hot_or_not,
        }
    }
}


/// How the request for an upload address went: on a success status the
/// answer is read; any other status is an error naming it.
pub fn upload_url_fetch_outcome(status: u16) -> (res: Result<(), String>)
    ensures
        is_success_status(status) <==> res is Ok,
        !is_success_status(status) ==> (res matches Err(m) && m@ == "Failed to get upload URL: status "@
            + decimal_text(status as nat)),
{
    if 200 <= status && status < 300 {
        Ok(())
    } else {
        let mut m = String::from_str("Failed to get upload URL: status ");
        crate::text::push_decimal(&mut m, status as u128);
        Err(m)
    }
}

} // verus!
