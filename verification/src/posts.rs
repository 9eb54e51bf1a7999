//! Raw post records, the display cards derived from them, and the assembly
//! of a fetched page into a renderable one.

use vstd::prelude::*;

verus! {

use vstd::string::StringExecFns;

/// Latest second a display timestamp may hold: the end of the last year the
/// RFC 2822 date format can express.
pub const MAX_DISPLAY_SECS: i64 = 253402300799;

/// Text a card shows when the post has no body.
pub const BODY_PLACEHOLDER: &'static str = "Read more...";

/// A post as the remote service reports it. Timestamps are seconds since
/// the Unix epoch.
#[derive(Debug, Clone)]
pub struct PostRecord {
    pub name: String,
    pub url: Option<String>,
    pub body: Option<String>,
    pub thumbnail_url: Option<String>,
    pub creator_name: String,
    pub community_title: String,
    pub published: i64,
    pub updated: Option<i64>,
}

impl PostRecord {
    /// Both timestamps lie in the range the date format can express.
    pub open spec fn wf(self) -> bool {
        &&& 0 <= self.published <= MAX_DISPLAY_SECS
        &&& self.updated matches Some(u) ==> 0 <= u <= MAX_DISPLAY_SECS
    }

    /// The moment a card displays: the update time when there is one, else
    /// the publication time.
    pub open spec fn display_time(self) -> int {
        match self.updated {
            Some(u) => u as int,
            None => self.published as int,
        }
    }
}

/// A post prepared for display.
#[derive(Debug, Clone)]
pub struct PostCard {
    pub url: String,
    pub name: String,
    pub creator: String,
    pub body: String,
    pub thumbnail: Option<Vec<u8>>,
    pub updated: String,
}

/// The date text a timestamp yields under the RFC 2822 format.
pub uninterp spec fn rfc2822_of(secs: int) -> Seq<char>;

/// Relies on chrono: `DateTime::<Utc>::from_timestamp` turns an in-range
/// second count into a date, and `DateTime::to_rfc2822` formats it; both
/// depend on the timestamp alone. The range bound keeps the year within
/// 0..=9999, where the conversion succeeds and the formatter cannot panic.
#[verifier::external_body]
fn format_rfc2822(secs: i64) -> (text: String)
    requires
        0 <= secs <= MAX_DISPLAY_SECS,
    ensures
        text@ == rfc2822_of(secs as int),
{
    chrono::DateTime::<chrono::Utc>::from_timestamp(secs, 0).unwrap().to_rfc2822()
}

/// The single-string creator label of a record: creator, `@`, community.
pub open spec fn creator_label_of(record: PostRecord) -> Seq<char> {
    record.creator_name@ + "@"@ + record.community_title@
}

/// The body text a card shows: the record's body when it is present and
/// non-empty, else the fixed placeholder.
pub open spec fn body_text_of(record: PostRecord) -> Seq<char> {
    match record.body {
        Some(text) => if text@.len() == 0 {
            "Read more..."@
        } else {
            text@
        },
        None => "Read more..."@,
    }
}

/// The link text of a card: the record's URL, or empty when it has none.
pub open spec fn url_text_of(record: PostRecord) -> Seq<char> {
    match record.url {
        Some(u) => u@,
        None => Seq::empty(),
    }
}

/// Whether two optional byte buffers hold the same bytes.
pub open spec fn option_bytes_match(a: Option<Vec<u8>>, b: Option<Vec<u8>>) -> bool {
    match (a, b) {
        (Some(x), Some(y)) => x@ == y@,
        (None, None) => true,
        _ => false,
    }
}

/// Whether `card` is the display card of `record`, given the outcome of the
/// record's thumbnail fetch (`None` when the record had no thumbnail URL or
/// the fetch failed).
pub open spec fn is_card_of(card: PostCard, record: PostRecord, thumbnail: Option<Vec<u8>>) -> bool {
    &&& card.url@ == url_text_of(record)
    &&& card.name@ == record.name@
    &&& card.creator@ == creator_label_of(record)
    &&& card.body@ == body_text_of(record)
    &&& option_bytes_match(card.thumbnail, thumbnail)
    &&& card.updated@ == rfc2822_of(record.display_time())
}

/// Derives the display card of one record. The thumbnail bytes are the
/// outcome of the record's thumbnail fetch; a failed or absent fetch passes
/// `None` and yields a card without an image.
pub fn convert_postsview_to_card(record: &PostRecord, thumbnail: Option<Vec<u8>>) -> (card: PostCard)
    requires
        record.wf(),
    ensures
        is_card_of(card, *record, thumbnail),
{
    let url = match &record.url {
        Some(u) => u.clone(),
        None => String::new(),
    };
    let creator = record.creator_name.clone().concat("@").concat(record.community_title.as_str());
    let body = match &record.body {
        Some(text) => if text.as_str().is_empty() {
            String::from_str(BODY_PLACEHOLDER)
        } else {
            text.clone()
        },
        None => String::from_str(BODY_PLACEHOLDER),
    };
    let updated = match record.updated {
        Some(u) => format_rfc2822(u),
        None => format_rfc2822(record.published),
    };
    PostCard { url, name: record.name.clone(), creator, body, thumbnail, updated }
}

/// A fetched page as the remote service returns it: raw records plus the
/// opaque cursor of the following page, or none when the feed is exhausted.
#[derive(Debug, Clone)]
pub struct RawPage {
    pub posts: Vec<PostRecord>,
    pub next_page: Option<String>,
}

impl RawPage {
    /// Every record of the page is well formed.
    pub open spec fn wf(self) -> bool {
        forall|i: int| 0 <= i < self.posts@.len() ==> (#[trigger] self.posts@[i]).wf()
    }
}

/// A page prepared for display: cards in the server's order plus the cursor
/// carried through from the raw page.
#[derive(Debug, Clone)]
pub struct Page {
    pub cards: Vec<PostCard>,
    pub cursor: Option<String>,
}

/// Whether `cards` are the display cards of `records` in order, each with
/// the outcome of its thumbnail fetch.
pub open spec fn cards_match(
    cards: Seq<PostCard>,
    records: Seq<PostRecord>,
    thumbnails: Seq<Option<Vec<u8>>>,
) -> bool {
    &&& cards.len() == records.len()
    &&& forall|i: int| 0 <= i < records.len() ==> is_card_of(
        #[trigger] cards[i],
        records[i],
        thumbnails[i],
    )
}

/// Builds the display page of a fetched batch: one card per record, in the
/// server's order, each paired with its thumbnail outcome; the cursor is
/// carried through unchanged.
pub fn assemble(
    records: &Vec<PostRecord>,
    thumbnails: &Vec<Option<Vec<u8>>>,
    cursor: Option<String>,
) -> (page: Page)
    requires
        records@.len() == thumbnails@.len(),
        forall|i: int| 0 <= i < records@.len() ==> (#[trigger] records@[i]).wf(),
    ensures
        cards_match(page.cards@, records@, thumbnails@),
        page.cursor == cursor,
{
    let mut cards: Vec<PostCard> = Vec::new();
    let n = records.len();
    for i in 0..n
        invariant
            n == records@.len(),
            records@.len() == thumbnails@.len(),
            forall|k: int| 0 <= k < records@.len() ==> (#[trigger] records@[k]).wf(),
            cards@.len() == i,
            forall|k: int| 0 <= k < i ==> is_card_of(#[trigger] cards@[k], records@[k], thumbnails@[k]),
    {
        let thumb = clone_thumbnail(&thumbnails[i]);
        let card = convert_postsview_to_card(&records[i], thumb);
        cards.push(card);
    }
    Page { cards, cursor }
}

/// A card's body is the placeholder text exactly when the record's body is
/// absent or empty — for every record whose body, when present, is not
/// itself the placeholder text.
pub proof fn lemma_body_placeholder_iff(record: PostRecord)
    requires
        record.body matches Some(text) ==> text@ != "Read more..."@,
    ensures
        body_text_of(record) == "Read more..."@ <==> (match record.body {
            Some(text) => text@.len() == 0,
            None => true,
        }),
{
}

/// The creator label is exactly the creator's name, one `@`, and the
/// community title: both fields are recoverable from the label once the
/// creator's length is known.
pub proof fn lemma_creator_label_shape(record: PostRecord)
    ensures
        creator_label_of(record).len() == record.creator_name@.len() + 1
            + record.community_title@.len(),
        forall|i: int| 0 <= i < record.creator_name@.len() ==> creator_label_of(record)[i]
            == record.creator_name@[i],
        creator_label_of(record)[record.creator_name@.len() as int] == '@',
        forall|i: int| 0 <= i < record.community_title@.len() ==> creator_label_of(record)[
            record.creator_name@.len() + 1 + i
        ] == record.community_title@[i],
{
    reveal_strlit("@");
}

/// Copies one thumbnail outcome byte for byte.
pub fn clone_thumbnail(thumbnail: &Option<Vec<u8>>) -> (copy: Option<Vec<u8>>)
    ensures
        option_bytes_match(*thumbnail, copy),
{
    match thumbnail {
        Some(bytes) => {
            let copied = bytes.clone();
            proof {
                assert(copied@ =~= bytes@);
            }
            Some(copied)
        }
        None => None,
    }
}

} // verus!
