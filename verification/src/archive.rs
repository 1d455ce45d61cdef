//! Keys, URLs and metadata for archiving strips in the object store.

use vstd::prelude::*;
use vstd::string::StringExecFns;
use vstd::utf8::is_ascii_chars;

use crate::date::{iso_date, Date};
use crate::error::FeedError;
use crate::extract::Comic;

verus! {

/// The object key a strip is stored under: `{strips_dir}/{YYYY-MM-DD}.gif`.
pub open spec fn key_of(strips_dir: Seq<char>, d: Date) -> Seq<char> {
    strips_dir + "/"@ + iso_date(d) + ".gif"@
}

/// The canonical public URL of a stored object.
pub open spec fn url_of(bucket: Seq<char>, key: Seq<char>) -> Seq<char> {
    "https://"@ + bucket + ".s3.amazonaws.com/"@ + key
}

/// The object key under which the strip of the given date is archived.
pub fn object_key(strips_dir: &str, date: &Date) -> (r: String)
    requires
        date.wf(),
    ensures
        r@ == key_of(strips_dir@, *date),
{
    let mut r = strips_dir.to_owned();
    r.append("/");
    let iso = date.iso();
    r.append(iso.as_str());
    r.append(".gif");
    proof {
        assert(r@ =~= key_of(strips_dir@, *date));
    }
    r
}

/// The public URL of the object stored under `key` in `bucket`.
pub fn object_url(bucket: &str, key: &str) -> (r: String)
    ensures
        r@ == url_of(bucket@, key@),
{
    let mut r = "https://".to_owned();
    r.append(bucket);
    r.append(".s3.amazonaws.com/");
    r.append(key);
    proof {
        assert(r@ =~= url_of(bucket@, key@));
    }
    r
}

/// Accepts a title for transport as object metadata, which only carries
/// ASCII; a title outside that range is a fatal storage error, never a
/// silent drop.
pub fn encode_metadata_title(title: &str) -> (r: Result<String, FeedError>)
    ensures
        r is Ok <==> is_ascii_chars(title@),
        r matches Ok(t) ==> t@ == title@,
        r is Err ==> r == Err::<String, FeedError>(FeedError::Storage),
{
    if title.is_ascii() {
        Ok(title.to_owned())
    } else {
        Err(FeedError::Storage)
    }
}

/// Everything the store needs to archive one strip: the key, the public URL
/// the object will answer at, and the title as transportable metadata. The
/// image bytes themselves travel beside the plan.
#[derive(Debug, Clone, PartialEq)]
pub struct UploadPlan {
    pub key: String,
    pub url: String,
    pub metadata_title: String,
}

/// Plans the archive write for one extracted strip.
pub fn upload_plan(bucket: &str, strips_dir: &str, comic: &Comic) -> (r: Result<
    UploadPlan,
    FeedError,
>)
    requires
        comic.date.wf(),
    ensures
        r is Ok <==> is_ascii_chars(comic.title@),
        r matches Ok(p) ==> {
            &&& p.key@ == key_of(strips_dir@, comic.date)
            &&& p.url@ == url_of(bucket@, key_of(strips_dir@, comic.date))
            &&& p.metadata_title@ == comic.title@
        },
        r is Err ==> r == Err::<UploadPlan, FeedError>(FeedError::Storage),
{
    let metadata_title = match encode_metadata_title(comic.title.as_str()) {
        Ok(t) => t,
        Err(e) => {
            return Err(e);
        },
    };
    let key = object_key(strips_dir, &comic.date);
    let url = object_url(bucket, key.as_str());
    Ok(UploadPlan { key, url, metadata_title })
}

/// Two distinct days are archived under two distinct keys within one
/// directory: an archived strip is never overwritten by another day's.
pub proof fn lemma_keys_distinct(strips_dir: Seq<char>, d1: Date, d2: Date)
    requires
        d1.wf(),
        d2.wf(),
        d1 != d2,
    ensures
        key_of(strips_dir, d1) != key_of(strips_dir, d2),
{
    reveal_strlit("/");
    reveal_strlit(".gif");
    let p = strips_dir.len() as int + 1;
    if key_of(strips_dir, d1) == key_of(strips_dir, d2) {
        assert(key_of(strips_dir, d1).subrange(p, p + 10) =~= iso_date(d1));
        assert(key_of(strips_dir, d2).subrange(p, p + 10) =~= iso_date(d2));
        crate::date::lemma_iso_date_injective(d1, d2);
    }
}

/// Two distinct keys give two distinct public URLs within one bucket.
pub proof fn lemma_urls_distinct(bucket: Seq<char>, key1: Seq<char>, key2: Seq<char>)
    requires
        key1 != key2,
    ensures
        url_of(bucket, key1) != url_of(bucket, key2),
{
    reveal_strlit("https://");
    reveal_strlit(".s3.amazonaws.com/");
    let p = 8 + bucket.len() as int + 18;
    if url_of(bucket, key1) == url_of(bucket, key2) {
        assert(url_of(bucket, key1).len() == 26 + bucket.len() + key1.len());
        assert(url_of(bucket, key2).len() == 26 + bucket.len() + key2.len());
        assert(key1.len() == key2.len());
        assert(url_of(bucket, key1).subrange(p, p + key1.len() as int) =~= key1);
        assert(url_of(bucket, key2).subrange(p, p + key2.len() as int) =~= key2);
        assert(url_of(bucket, key1).subrange(p, p + key1.len() as int) == url_of(
            bucket,
            key2,
        ).subrange(p, p + key2.len() as int));
        assert(key1 =~= key2);
    }
}

/// The content type every archived strip is stored with.
pub fn image_content_type() -> (r: &'static str)
    ensures
        r@ == "image/gif"@,
{
    "image/gif"
}

/// The content type the published feed document is stored with.
pub fn feed_content_type() -> (r: &'static str)
    ensures
        r@ == "text/xml; charset=utf-8"@,
{
    "text/xml; charset=utf-8"
}

} // verus!
