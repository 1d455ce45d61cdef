//! Assembling the syndication feed: per-day title resolution with a
//! synthesized fallback, and the ordered, deterministic feed document.

use vstd::prelude::*;
use vstd::string::StringExecFns;

use crate::archive::{key_of, object_key, object_url, url_of};
use crate::date::{
    date_back, date_lt, iso_date, min_date, prev_date, rfc2822_midnight, window_ok, Date,
};
use crate::error::FeedError;

verus! {

/// What a metadata lookup for one day's stored strip answered.
#[derive(Debug, Clone, PartialEq)]
pub enum TitleLookup {
    /// The stored object exists and carries a title.
    Found(String),
    /// No stored object, or none carrying a title: expected for days not yet
    /// archived, and no error.
    Missing,
    /// The transport failed: the store is unreachable, which is fatal.
    Failed,
}

/// The display name of the comic, used for the channel and for synthesized
/// titles.
pub open spec fn comic_name() -> Seq<char> {
    "Dilbert"@
}

/// The fixed link of the feed's channel.
pub open spec fn channel_link() -> Seq<char> {
    "https://dilbert.com"@
}

/// The fixed description of the feed's channel.
pub open spec fn channel_description() -> Seq<char> {
    "Dilbert Daily Strip"@
}

/// The synthesized title of a day with no stored one: `Dilbert - {date}`.
pub open spec fn fallback_title(d: Date) -> Seq<char> {
    comic_name() + " - "@ + iso_date(d)
}

/// What title resolution answers: the stored title where one exists, the
/// synthesized fallback where nothing is stored, and failure exactly where
/// the transport failed.
pub open spec fn resolved_title(l: TitleLookup, d: Date) -> Result<Seq<char>, FeedError> {
    match l {
        TitleLookup::Found(t) => Ok(t@),
        TitleLookup::Missing => Ok(fallback_title(d)),
        TitleLookup::Failed => Err(FeedError::Storage),
    }
}

pub open spec fn title_res_view(r: Result<String, FeedError>) -> Result<Seq<char>, FeedError> {
    match r {
        Ok(s) => Ok(s@),
        Err(e) => Err(e),
    }
}

/// Resolves the display title of one day's entry from its lookup answer. A
/// missing object degrades to the synthesized title; only a transport
/// failure is an error.
pub fn resolve_title(lookup: &TitleLookup, date: &Date) -> (r: Result<String, FeedError>)
    requires
        date.wf(),
    ensures
        title_res_view(r) == resolved_title(*lookup, *date),
{
    match lookup {
        TitleLookup::Found(t) => Ok(t.clone()),
        TitleLookup::Missing => {
            let mut t = "Dilbert".to_owned();
            t.append(" - ");
            let iso = date.iso();
            t.append(iso.as_str());
            proof {
                assert(t@ =~= fallback_title(*date));
            }
            Ok(t)
        },
        TitleLookup::Failed => Err(FeedError::Storage),
    }
}

/// One item of the feed document.
#[derive(Debug, Clone, PartialEq)]
pub struct FeedEntry {
    pub title: String,
    pub link: String,
    pub description: String,
    pub guid: String,
    pub pub_date: String,
}

pub ghost struct EntryView {
    pub title: Seq<char>,
    pub link: Seq<char>,
    pub description: Seq<char>,
    pub guid: Seq<char>,
    pub pub_date: Seq<char>,
}

impl View for FeedEntry {
    type V = EntryView;

    open spec fn view(&self) -> EntryView {
        EntryView {
            title: self.title@,
            link: self.link@,
            description: self.description@,
            guid: self.guid@,
            pub_date: self.pub_date@,
        }
    }
}

/// The HTML snippet embedding the stored image: `<img src="{url}">`.
pub open spec fn description_of(url: Seq<char>) -> Seq<char> {
    "<img src=\""@ + url + "\">"@
}

/// The entry for one day: link and guid are the stored object's public URL,
/// the description embeds it, and the publication time is the day's midnight
/// UTC.
pub open spec fn entry_spec(
    bucket: Seq<char>,
    strips_dir: Seq<char>,
    d: Date,
    l: TitleLookup,
) -> EntryView {
    let url = url_of(bucket, key_of(strips_dir, d));
    EntryView {
        title: match l {
            TitleLookup::Found(t) => t@,
            _ => fallback_title(d),
        },
        link: url,
        description: description_of(url),
        guid: url,
        pub_date: rfc2822_midnight(d),
    }
}

/// The entries of a feed: one per day of the window, most recent first, the
/// day of entry `i` being `start` minus `i` days.
pub open spec fn entries_spec(
    bucket: Seq<char>,
    strips_dir: Seq<char>,
    start: Date,
    lookups: Seq<TitleLookup>,
) -> Seq<EntryView> {
    Seq::new(
        lookups.len(),
        |i: int| entry_spec(bucket, strips_dir, date_back(start, i as nat), lookups[i]),
    )
}

/// The entries as the serializer sees them.
pub open spec fn entry_views(items: Seq<FeedEntry>) -> Seq<EntryView> {
    items.map_values(|e: FeedEntry| e@)
}

/// The document that the rss crate serializes for the given channel title,
/// link, description and items, pretty-printed with a two-space indent.
pub uninterp spec fn rss_xml_of(
    title: Seq<char>,
    link: Seq<char>,
    description: Seq<char>,
    items: Seq<EntryView>,
) -> Seq<char>;

/// The serialized text carried by a successful result.
pub open spec fn ok_chars(r: Result<String, FeedError>) -> Seq<char> {
    match r {
        Ok(s) => s@,
        Err(_) => Seq::<char>::empty(),
    }
}

/// Relies on the rss crate: each entry becomes an `rss::Item` field for
/// field, with the guid a permalink, and `Channel::pretty_write_to`
/// serializes the channel with a two-space indent. The serialized bytes are
/// a function of the channel's content alone. Serialization cannot fail
/// here: every error path of `Channel::write` is an I/O error of the sink,
/// the `Vec<u8>` sink never errors, and the writer emits only UTF-8 (CDATA
/// content is split around `]]>` rather than rejected), so the body's
/// fallback error arm is unreachable.
#[verifier::external_body]
fn render_channel(title: &str, link: &str, desc: &str, items: &Vec<FeedEntry>) -> (r: Result<String, FeedError>)
    ensures
        r is Ok,
        ok_chars(r) == rss_xml_of(title@, link@, desc@, entry_views(items@)),
{
    let rss_items: Vec<rss::Item> = items.iter().map(|e| rss::Item {
        title: Some(e.title.clone()),
        link: Some(e.link.clone()),
        description: Some(e.description.clone()),
        guid: Some(rss::Guid { value: e.guid.clone(), permalink: true }),
        pub_date: Some(e.pub_date.clone()),
        ..Default::default()
    }).collect();
    let channel = rss::Channel {
        title: title.to_string(), link: link.to_string(),
        description: desc.to_string(), items: rss_items, ..Default::default()
    };
    channel.pretty_write_to(Vec::new(), b' ', 2).ok().and_then(
        |b| String::from_utf8(b).ok(),
    ).ok_or(FeedError::Serialization)
}

/// The whole feed document for a configuration and its lookup answers.
pub open spec fn feed_xml_spec(
    bucket: Seq<char>,
    strips_dir: Seq<char>,
    start: Date,
    lookups: Seq<TitleLookup>,
) -> Seq<char> {
    rss_xml_of(
        comic_name(),
        channel_link(),
        channel_description(),
        entries_spec(bucket, strips_dir, start, lookups),
    )
}

/// The configuration of one feed build: the entries are the `feed_length`
/// consecutive calendar days ending at `start_date`, most recent first.
#[derive(Debug, Clone, PartialEq)]
pub struct Feed {
    pub bucket_name: String,
    pub strips_dir: String,
    pub start_date: Date,
    pub feed_length: u32,
}

/// How many days a feed covers when the caller does not choose.
pub const DEFAULT_FEED_LENGTH: u32 = 30;

impl Feed {
    /// The start date is a real day and the whole window stays inside the
    /// supported calendar range.
    pub open spec fn wf(self) -> bool {
        self.start_date.wf() && window_ok(self.start_date, self.feed_length as nat)
    }

    /// Validates the configuration once, at construction.
    pub fn new(bucket_name: String, strips_dir: String, start_date: Date, feed_length: u32) -> (r:
        Result<Feed, FeedError>)
        ensures
            r is Ok <==> start_date.wf() && window_ok(start_date, feed_length as nat),
            r matches Ok(f) ==> f == (Feed { bucket_name, strips_dir, start_date, feed_length }),
            r is Err ==> r == Err::<Feed, FeedError>(FeedError::InvalidDate),
    {
        if !start_date.is_valid() {
            proof {
                assert(feed_length as nat >= 1 ==> !date_back(start_date, 0).wf());
            }
            return Err(FeedError::InvalidDate);
        }
        let mut cur = start_date;
        let mut i: u32 = 1;
        while i < feed_length
            invariant
                1 <= i,
                feed_length > 1 ==> i <= feed_length,
                start_date.wf(),
                cur == date_back(start_date, (i - 1) as nat),
                cur.wf(),
                window_ok(start_date, i as nat),
            decreases feed_length - i,
        {
            if cur == (Date { year: 1, month: 1, day: 1 }) {
                proof {
                    assert(date_back(start_date, i as nat) == prev_date(cur));
                    assert(!date_back(start_date, i as nat).wf());
                    assert(!window_ok(start_date, feed_length as nat));
                }
                return Err(FeedError::InvalidDate);
            }
            cur = cur.prev_day();
            i = i + 1;
        }
        proof {
            assert(window_ok(start_date, feed_length as nat));
        }
        Ok(Feed { bucket_name, strips_dir, start_date, feed_length })
    }

    /// As `new`, with the default window of days.
    pub fn with_default_length(bucket_name: String, strips_dir: String, start_date: Date) -> (r:
        Result<Feed, FeedError>)
        ensures
            r is Ok <==> start_date.wf() && window_ok(start_date, DEFAULT_FEED_LENGTH as nat),
            r matches Ok(f) ==> f == (Feed {
                bucket_name,
                strips_dir,
                start_date,
                feed_length: DEFAULT_FEED_LENGTH,
            }),
            r is Err ==> r == Err::<Feed, FeedError>(FeedError::InvalidDate),
    {
        Feed::new(bucket_name, strips_dir, start_date, DEFAULT_FEED_LENGTH)
    }

    /// The days of the window, most recent first.
    pub fn dates(&self) -> (r: Vec<Date>)
        requires
            self.wf(),
        ensures
            r@.len() == self.feed_length as nat,
            forall|i: int| 0 <= i < r@.len() ==> r@[i] == date_back(self.start_date, i as nat),
    {
        let mut r: Vec<Date> = Vec::new();
        let mut cur = self.start_date;
        let mut i: u32 = 0;
        while i < self.feed_length
            invariant
                0 <= i <= self.feed_length,
                self.wf(),
                r@.len() == i as nat,
                forall|j: int| 0 <= j < i ==> r@[j] == date_back(self.start_date, j as nat),
                i < self.feed_length ==> cur == date_back(self.start_date, i as nat),
            decreases self.feed_length - i,
        {
            r.push(cur);
            i = i + 1;
            if i < self.feed_length {
                proof {
                    assert(date_back(self.start_date, (i - 1) as nat).wf());
                    assert(date_back(self.start_date, i as nat) == prev_date(cur));
                    assert(date_back(self.start_date, i as nat).wf());
                    if cur == min_date() {
                        assert(!prev_date(min_date()).wf());
                    }
                }
                cur = cur.prev_day();
            }
        }
        r
    }

    /// Builds the feed document from the lookup answers, one per day of the
    /// window, the answer at position `i` belonging to `start_date` minus
    /// `i` days. A single failed lookup fails the whole build, and no partial
    /// feed is ever produced; with no failed lookup the document is owed.
    pub fn xml(&self, lookups: &Vec<TitleLookup>) -> (r: Result<String, FeedError>)
        requires
            self.wf(),
            lookups@.len() == self.feed_length as nat,
        ensures
            r == Err::<String, FeedError>(FeedError::Storage) <==> (exists|i: int|
                0 <= i < lookups@.len() && lookups@[i] is Failed),
            (forall|i: int| 0 <= i < lookups@.len() ==> !(lookups@[i] is Failed)) ==> (r matches Ok(
                s,
            ) && s@ == feed_xml_spec(
                self.bucket_name@,
                self.strips_dir@,
                self.start_date,
                lookups@,
            )),
    {
        let ghost bucket = self.bucket_name@;
        let ghost dir = self.strips_dir@;
        let mut entries: Vec<FeedEntry> = Vec::new();
        let mut cur = self.start_date;
        let len = lookups.len();
        let mut i: usize = 0;
        while i < len
            invariant
                0 <= i <= len,
                len == lookups@.len(),
                self.wf(),
                len == self.feed_length as nat,
                bucket == self.bucket_name@,
                dir == self.strips_dir@,
                entries@.len() == i as nat,
                forall|j: int|
                    0 <= j < i ==> entries@[j]@ == entry_spec(
                        bucket,
                        dir,
                        date_back(self.start_date, j as nat),
                        lookups@[j],
                    ),
                forall|j: int| 0 <= j < i ==> !(lookups@[j] is Failed),
                i < len ==> cur == date_back(self.start_date, i as nat),
            decreases len - i,
        {
            proof {
                assert(date_back(self.start_date, i as nat).wf());
            }
            let title = match resolve_title(&lookups[i], &cur) {
                Ok(t) => t,
                Err(e) => {
                    return Err(e);
                },
            };
            let key = object_key(self.strips_dir.as_str(), &cur);
            let url = object_url(self.bucket_name.as_str(), key.as_str());
            let mut description = "<img src=\"".to_owned();
            description.append(url.as_str());
            description.append("\">");
            let pub_date = cur.rfc2822_midnight_utc();
            let guid = url.clone();
            let entry = FeedEntry { title, link: url, description, guid, pub_date };
            proof {
                assert(entry@.description =~= description_of(
                    url_of(bucket, key_of(dir, date_back(self.start_date, i as nat))),
                ));
            }
            entries.push(entry);
            i = i + 1;
            if i < len {
                proof {
                    assert(date_back(self.start_date, i as nat) == prev_date(cur));
                    assert(date_back(self.start_date, i as nat).wf());
                    if cur == min_date() {
                        assert(!prev_date(min_date()).wf());
                    }
                }
                cur = cur.prev_day();
            }
        }
        proof {
            assert(entry_views(entries@) =~= entries_spec(
                bucket,
                dir,
                self.start_date,
                lookups@,
            ));
        }
        match render_channel("Dilbert", "https://dilbert.com", "Dilbert Daily Strip", &entries) {
            Ok(s) => Ok(s),
            Err(e) => Err(e),
        }
    }
}

/// Two feed builds from the same configuration and the same stored metadata
/// serialize to the same document, byte for byte.
pub proof fn lemma_feed_deterministic(
    bucket: Seq<char>,
    strips_dir: Seq<char>,
    start: Date,
    lookups: Seq<TitleLookup>,
    s1: Seq<char>,
    s2: Seq<char>,
)
    requires
        s1 == feed_xml_spec(bucket, strips_dir, start, lookups),
        s2 == feed_xml_spec(bucket, strips_dir, start, lookups),
    ensures
        s1 == s2,
{
}

/// Within a well-formed window each day is the calendar day right before the
/// previous one: the window has no gap.
pub proof fn lemma_window_descending(start: Date, n: nat, i: nat)
    requires
        window_ok(start, n),
        i + 1 < n,
    ensures
        date_back(start, i + 1) == prev_date(date_back(start, i)),
        date_lt(date_back(start, i + 1), date_back(start, i)),
{
    assert(date_back(start, i).wf());
    assert(date_back(start, i + 1).wf());
    assert(date_back(start, i + 1) == prev_date(date_back(start, i)));
    if date_back(start, i) == min_date() {
        assert(!prev_date(min_date()).wf());
    }
    crate::date::lemma_prev_date_wf(date_back(start, i));
}

/// No two entries of a well-formed feed share a guid: every day of the
/// window has a stored object URL of its own.
pub proof fn lemma_feed_guids_distinct(
    bucket: Seq<char>,
    strips_dir: Seq<char>,
    start: Date,
    lookups: Seq<TitleLookup>,
    i: int,
    j: int,
)
    requires
        window_ok(start, lookups.len()),
        0 <= i < j < lookups.len(),
    ensures
        entries_spec(bucket, strips_dir, start, lookups)[i].guid != entries_spec(
            bucket,
            strips_dir,
            start,
            lookups,
        )[j].guid,
{
    lemma_window_days_distinct(start, lookups.len(), i as nat, j as nat);
    crate::archive::lemma_keys_distinct(
        strips_dir,
        date_back(start, i as nat),
        date_back(start, j as nat),
    );
    crate::archive::lemma_urls_distinct(
        bucket,
        key_of(strips_dir, date_back(start, i as nat)),
        key_of(strips_dir, date_back(start, j as nat)),
    );
}

pub proof fn lemma_date_lt_trans(a: Date, b: Date, c: Date)
    requires
        date_lt(a, b),
        date_lt(b, c),
    ensures
        date_lt(a, c),
{
}

/// No two days of a well-formed window coincide: the later position holds
/// the strictly earlier day.
pub proof fn lemma_window_days_distinct(start: Date, n: nat, i: nat, j: nat)
    requires
        window_ok(start, n),
        i < j < n,
    ensures
        date_lt(date_back(start, j), date_back(start, i)),
        date_back(start, j) != date_back(start, i),
    decreases j - i,
{
    if j == i + 1 {
        lemma_window_descending(start, n, i);
    } else {
        lemma_window_days_distinct(start, n, i, (j - 1) as nat);
        lemma_window_descending(start, n, (j - 1) as nat);
        lemma_date_lt_trans(
            date_back(start, j),
            date_back(start, (j - 1) as nat),
            date_back(start, i),
        );
    }
}

} // verus!
