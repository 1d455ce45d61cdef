//! Parsing a strip's page into a validated record.

use vstd::prelude::*;
use vstd::string::StringExecFns;

use crate::date::{iso_date, Date};
use crate::error::{FeedError, Field};
use crate::http::{check_status, status_is_success};
use crate::text::{collapse_whitespace, collapse_ws, trim_whitespace, trimmed};

verus! {

/// One dated strip: the validated record scraped from the strip's page.
#[derive(Debug, Clone, PartialEq)]
pub struct Comic {
    pub date: Date,
    pub title: String,
    pub image_url: String,
    pub strip_url: String,
}

pub ghost struct ComicView {
    pub date: Date,
    pub title: Seq<char>,
    pub image_url: Seq<char>,
    pub strip_url: Seq<char>,
}

impl View for Comic {
    type V = ComicView;

    open spec fn view(&self) -> ComicView {
        ComicView {
            date: self.date,
            title: self.title@,
            image_url: self.image_url@,
            strip_url: self.strip_url@,
        }
    }
}

/// The class that tags the container element carrying the strip's attributes.
pub open spec fn container_class() -> Seq<char> {
    "comic-item-container"@
}

/// What the first element of the given class answers for the given attribute:
/// `None` when no element carries the class, `Some(None)` when the element
/// lacks the attribute.
pub uninterp spec fn class_attr_of(html: Seq<char>, class: Seq<char>, attr: Seq<char>) -> Option<
    Option<Seq<char>>,
>;

pub open spec fn attr_result_view(r: Option<Option<String>>) -> Option<Option<Seq<char>>> {
    match r {
        None => None,
        Some(None) => Some(None),
        Some(Some(s)) => Some(Some(s@)),
    }
}

/// Relies on the select crate's HTML queries: `Document::from` parses the
/// page text, `find(Class(class)).next()` yields the first element carrying
/// `class`, and `attr` reads that element's attribute. The answer is a
/// function of the three arguments alone.
#[verifier::external_body]
fn query_class_attr(html: &str, class: &str, attr: &str) -> (r: Option<Option<String>>)
    ensures
        attr_result_view(r) == class_attr_of(html@, class@, attr@),
{
    let document = select::document::Document::from(html);
    match document.find(select::predicate::Class(class)).next() {
        None => None,
        Some(node) => Some(node.attr(attr).map(|v| v.to_string())),
    }
}

/// The attribute's value, or empty when the attribute is absent.
pub open spec fn attr_or_empty(a: Option<Seq<char>>) -> Seq<char> {
    match a {
        Some(s) => s,
        None => Seq::empty(),
    }
}

/// The strip's own page: `{base_url}/strip/{YYYY-MM-DD}`.
pub open spec fn strip_url_of(base_url: Seq<char>, d: Date) -> Seq<char> {
    base_url + "/strip/"@ + iso_date(d)
}

/// What extraction answers for a page: the container is looked up by its
/// class; its `data-id` must equal the requested date; `data-title` and
/// `data-image` must be present, and are cleaned of stray whitespace.
pub open spec fn extract_spec(html: Seq<char>, date: Date, base_url: Seq<char>) -> Result<
    ComicView,
    FeedError,
> {
    match class_attr_of(html, container_class(), "data-id"@) {
        None => Err(FeedError::NotFound),
        Some(id) => {
            if attr_or_empty(id) != iso_date(date) {
                Err(FeedError::DateMismatch)
            } else {
                match class_attr_of(html, container_class(), "data-title"@) {
                    None => Err(FeedError::NotFound),
                    Some(None) => Err(FeedError::MissingField(Field::Title)),
                    Some(Some(title)) => {
                        match class_attr_of(html, container_class(), "data-image"@) {
                            None => Err(FeedError::NotFound),
                            Some(None) => Err(FeedError::MissingField(Field::Image)),
                            Some(Some(image)) => Ok(
                                ComicView {
                                    date,
                                    title: collapse_ws(title),
                                    image_url: trimmed(image),
                                    strip_url: strip_url_of(base_url, date),
                                },
                            ),
                        }
                    },
                }
            }
        },
    }
}

pub open spec fn comic_res_view(r: Result<Comic, FeedError>) -> Result<ComicView, FeedError> {
    match r {
        Ok(c) => Ok(c@),
        Err(e) => Err(e),
    }
}

/// Reads the strip's page for one comic source site.
#[derive(Debug, Clone)]
pub struct Dilbert {
    pub base_url: String,
}

/// The publisher's site, the default base.
pub open spec fn default_base_url() -> Seq<char> {
    "https://dilbert.com"@
}

impl Default for Dilbert {
    fn default() -> (r: Self)
        ensures
            r.base_url@ == default_base_url(),
    {
        Dilbert::new("https://dilbert.com")
    }
}

impl Dilbert {
    pub fn new(base_url: &str) -> (r: Self)
        ensures
            r.base_url@ == base_url@,
    {
        Dilbert { base_url: base_url.to_owned() }
    }

    /// The page that carries the strip of the given date.
    pub fn strip_url(&self, date: &Date) -> (r: String)
        requires
            date.wf(),
        ensures
            r@ == strip_url_of(self.base_url@, *date),
    {
        let mut r = self.base_url.clone();
        r.append("/strip/");
        let iso = date.iso();
        r.append(iso.as_str());
        proof {
            assert(r@ =~= strip_url_of(self.base_url@, *date));
        }
        r
    }

    /// Parses an already fetched page into the strip record for the requested
    /// date, validating that the page answered for that very date.
    pub fn extract(&self, html: &str, date: &Date) -> (r: Result<Comic, FeedError>)
        requires
            date.wf(),
        ensures
            comic_res_view(r) == extract_spec(html@, *date, self.base_url@),
    {
        match query_class_attr(html, "comic-item-container", "data-id") {
            None => Err(FeedError::NotFound),
            Some(id_attr) => {
                let id_value: String = match id_attr {
                    Some(s) => s,
                    None => String::new(),
                };
                let iso = date.iso();
                if !(id_value == iso) {
                    Err(FeedError::DateMismatch)
                } else {
                    match query_class_attr(html, "comic-item-container", "data-title") {
                        None => Err(FeedError::NotFound),
                        Some(None) => Err(FeedError::MissingField(Field::Title)),
                        Some(Some(title_attr)) => {
                            match query_class_attr(html, "comic-item-container", "data-image") {
                                None => Err(FeedError::NotFound),
                                Some(None) => Err(FeedError::MissingField(Field::Image)),
                                Some(Some(image_attr)) => Ok(
                                    Comic {
                                        date: *date,
                                        title: collapse_whitespace(title_attr.as_str()),
                                        image_url: trim_whitespace(image_attr.as_str()),
                                        strip_url: self.strip_url(date),
                                    },
                                ),
                            }
                        },
                    }
                }
            },
        }
    }

    /// Judges one fetched strip page: a status outside the 2xx range is
    /// fatal before extraction is even tried; otherwise the page is parsed
    /// and validated for the requested date.
    pub fn comic_from_response(&self, status: u16, html: &str, date: &Date) -> (r: Result<
        Comic,
        FeedError,
    >)
        requires
            date.wf(),
        ensures
            !status_is_success(status) ==> r == Err::<Comic, FeedError>(
                FeedError::HttpStatus(status),
            ),
            status_is_success(status) ==> comic_res_view(r) == extract_spec(
                html@,
                *date,
                self.base_url@,
            ),
    {
        match check_status(status) {
            Ok(_) => self.extract(html, date),
            Err(e) => Err(e),
        }
    }
}

/// When no element carries the container class, extraction fails with
/// `NotFound`, whatever else the document holds.
pub proof fn lemma_extract_container_absent(html: Seq<char>, date: Date, base_url: Seq<char>)
    requires
        class_attr_of(html, container_class(), "data-id"@) is None,
    ensures
        extract_spec(html, date, base_url) == Err::<ComicView, FeedError>(FeedError::NotFound),
{
}

/// When the container answers for a date other than the requested one,
/// extraction fails with `DateMismatch`, however plausible the content looks.
pub proof fn lemma_extract_date_mismatch(
    html: Seq<char>,
    date: Date,
    base_url: Seq<char>,
    id: Option<Seq<char>>,
)
    requires
        class_attr_of(html, container_class(), "data-id"@) == Some(id),
        attr_or_empty(id) != iso_date(date),
    ensures
        extract_spec(html, date, base_url) == Err::<ComicView, FeedError>(FeedError::DateMismatch),
{
}

/// When the container matches the date but lacks the title attribute,
/// extraction fails with `MissingField(Title)`.
pub proof fn lemma_extract_missing_title(
    html: Seq<char>,
    date: Date,
    base_url: Seq<char>,
    id: Option<Seq<char>>,
)
    requires
        class_attr_of(html, container_class(), "data-id"@) == Some(id),
        attr_or_empty(id) == iso_date(date),
        class_attr_of(html, container_class(), "data-title"@) == Some(None::<Seq<char>>),
    ensures
        extract_spec(html, date, base_url) == Err::<ComicView, FeedError>(
            FeedError::MissingField(Field::Title),
        ),
{
}

/// When the container answers for the requested date and carries both
/// attributes, extraction succeeds with exactly the cleaned title, the
/// trimmed image URL, and the reconstructed strip URL.
pub proof fn lemma_extract_success(
    html: Seq<char>,
    date: Date,
    base_url: Seq<char>,
    id: Option<Seq<char>>,
    title: Seq<char>,
    image: Seq<char>,
)
    requires
        class_attr_of(html, container_class(), "data-id"@) == Some(id),
        attr_or_empty(id) == iso_date(date),
        class_attr_of(html, container_class(), "data-title"@) == Some(Some(title)),
        class_attr_of(html, container_class(), "data-image"@) == Some(Some(image)),
    ensures
        extract_spec(html, date, base_url) == Ok::<ComicView, FeedError>(
            ComicView {
                date,
                title: collapse_ws(title),
                image_url: trimmed(image),
                strip_url: strip_url_of(base_url, date),
            },
        ),
{
}

/// When the container matches the date and has a title but lacks the image
/// attribute, extraction fails with `MissingField(Image)`.
pub proof fn lemma_extract_missing_image(
    html: Seq<char>,
    date: Date,
    base_url: Seq<char>,
    id: Option<Seq<char>>,
    title: Seq<char>,
)
    requires
        class_attr_of(html, container_class(), "data-id"@) == Some(id),
        attr_or_empty(id) == iso_date(date),
        class_attr_of(html, container_class(), "data-title"@) == Some(Some(title)),
        class_attr_of(html, container_class(), "data-image"@) == Some(None::<Seq<char>>),
    ensures
        extract_spec(html, date, base_url) == Err::<ComicView, FeedError>(
            FeedError::MissingField(Field::Image),
        ),
{
}

} // verus!
