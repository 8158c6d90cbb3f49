use vstd::prelude::*;
use crate::error::MetadataError;
use crate::markup::{sanitize, sanitized};
use crate::staff::{picked_name, resolve_staff, valid_pick, StaffCredit};
use crate::status::{get_komga_status, komga_status_of, AnilistStatus};
use crate::title::{opt_view, resolve_title, resolved_title, RawTitle, TitleChoice};

verus! {

/// The cover image URLs of a record, largest first.
#[derive(Debug)]
pub struct CoverImage {
    pub extra_large: Option<String>,
    pub large: Option<String>,
    pub medium: Option<String>,
}

/// A manga record as fetched from AniList.
#[derive(Debug)]
pub struct MediaRecord {
    pub title: RawTitle,
    pub cover_image: CoverImage,
    pub description: Option<String>,
    pub status: AnilistStatus,
    pub genres: Vec<String>,
    pub staff: Vec<StaffCredit>,
}

/// The operator's answers to the prompts of one run: the title variant
/// (used only where the two differ) and the index of the credit chosen as
/// author and as artist, `None` for a skip.
#[derive(Clone, Copy, Debug)]
pub struct OperatorChoices {
    pub title: TitleChoice,
    pub author: Option<usize>,
    pub artist: Option<usize>,
}

/// A record with its ambiguities resolved, still in AniList's vocabulary.
#[derive(Debug)]
pub struct MangaInfo {
    pub title: String,
    pub cover: Option<String>,
    pub description: Option<String>,
    pub status: AnilistStatus,
    pub genres: Vec<String>,
    pub artist: Option<String>,
    pub author: Option<String>,
}

/// The series metadata to be written to Komga.
#[derive(Debug)]
pub struct NormalizedMetadata {
    pub title: String,
    pub description: Option<String>,
    pub status: String,
    pub genres: Vec<String>,
    pub author: Option<String>,
    pub artist: Option<String>,
}

/// One book credit in Komga's vocabulary: role "writer" or "penciller".
#[derive(Debug)]
pub struct BookCredit {
    pub name: String,
    pub role: String,
}

/// The credits to be written to a series' first book, author first.
#[derive(Debug)]
pub struct CreditPayload {
    pub entries: Vec<BookCredit>,
}

impl CreditPayload {
    /// The entries as (name, role) pairs.
    pub open spec fn view_entries(&self) -> Seq<(Seq<char>, Seq<char>)> {
        self.entries@.map_values(|c: BookCredit| (c.name@, c.role@))
    }
}

/// The first present value of an ordered list of optional values.
pub open spec fn first_present_of(options: Seq<Option<String>>) -> Option<String>
    decreases options.len(),
{
    if options.len() == 0 {
        None
    } else if options[0] is Some {
        options[0]
    } else {
        first_present_of(options.drop_first())
    }
}

/// Returns the first present value of `options`, in list order.
pub fn first_present(options: &Vec<Option<String>>) -> (r: Option<String>)
    ensures
        r == first_present_of(options@),
{
    let mut i: usize = 0;
    assert(options@.subrange(0, options.len() as int) =~= options@);
    while i < options.len()
        invariant
            i <= options.len(),
            first_present_of(options@) == first_present_of(
                options@.subrange(i as int, options.len() as int),
            ),
        decreases options.len() - i,
    {
        let ghost rest = options@.subrange(i as int, options.len() as int);
        assert(rest[0] == options@[i as int]);
        match &options[i] {
            Some(s) => {
                return Some(s.clone());
            },
            None => {
                assert(rest.drop_first() =~= options@.subrange(i + 1, options.len() as int));
            },
        }
        i = i + 1;
    }
    assert(options@.subrange(i as int, options.len() as int).len() == 0);
    None
}

/// The cover URL kept for a record: extra large, else large, else medium.
pub open spec fn cover_of(c: CoverImage) -> Option<String> {
    first_present_of(seq![c.extra_large, c.large, c.medium])
}

/// Whether `info` is the resolution of `record` under `choices`, with `title`
/// the resolved title.
pub open spec fn resolves_to(
    record: MediaRecord,
    choices: OperatorChoices,
    title: Seq<char>,
    info: MangaInfo,
) -> bool {
    &&& info.title@ == title
    &&& info.cover == cover_of(record.cover_image)
    &&& opt_view(info.description) == sanitized(opt_view(record.description))
    &&& info.status == record.status
    &&& info.genres@ == record.genres@
    &&& opt_view(info.author) == picked_name(record.staff@, choices.author)
    &&& opt_view(info.artist) == picked_name(record.staff@, choices.artist)
}

/// Resolves a fetched record with the operator's choices: the title by the
/// title rules, the description sanitized, the cover by fallback, author and
/// artist picked independently from the same staff list, genres and status
/// passed through. Fails with `NoTitleAvailable` where the record has no
/// title.
pub fn build_manga_info(record: MediaRecord, choices: OperatorChoices) -> (r: Result<
    MangaInfo,
    MetadataError,
>)
    requires
        valid_pick(record.staff@, choices.author),
        valid_pick(record.staff@, choices.artist),
    ensures
        match resolved_title(record.title.english_view(), record.title.romaji_view(), choices.title) {
            Some(t) => r matches Ok(info) && resolves_to(record, choices, t, info),
            None => r == Err::<MangaInfo, MetadataError>(MetadataError::NoTitleAvailable),
        },
{
    let title = match resolve_title(&record.title, choices.title) {
        Ok(t) => t,
        Err(e) => {
            return Err(e);
        },
    };
    let author = resolve_staff(&record.staff, choices.author);
    let artist = resolve_staff(&record.staff, choices.artist);
    let ghost cover_image = record.cover_image;
    let options = vec![record.cover_image.extra_large, record.cover_image.large, record.cover_image.medium];
    assert(options@ == seq![cover_image.extra_large, cover_image.large, cover_image.medium]);
    let cover = first_present(&options);
    let description = sanitize(record.description);
    Ok(MangaInfo { title, cover, description, status: record.status, genres: record.genres, artist, author })
}

/// The book credits for a chosen author and artist: the author as
/// "writer", then the artist as "penciller", each only where present.
pub open spec fn credit_entries_of(author: Option<Seq<char>>, artist: Option<Seq<char>>) -> Seq<
    (Seq<char>, Seq<char>),
> {
    let w = match author {
        Some(a) => seq![(a, "writer"@)],
        None => Seq::empty(),
    };
    let p = match artist {
        Some(a) => seq![(a, "penciller"@)],
        None => Seq::empty(),
    };
    w + p
}

/// Builds the book credit payload; there is none where neither an author
/// nor an artist was chosen.
pub fn credit_payload(author: &Option<String>, artist: &Option<String>) -> (r: Option<
    CreditPayload,
>)
    ensures
        r is None <==> (author is None && artist is None),
        r matches Some(p) ==> p.view_entries() == credit_entries_of(opt_view(*author), opt_view(*artist)),
{
    if author.is_none() && artist.is_none() {
        return None;
    }
    let mut entries: Vec<BookCredit> = Vec::new();
    if let Some(a) = author {
        entries.push(BookCredit { name: a.clone(), role: String::from_str("writer") });
    }
    if let Some(a) = artist {
        entries.push(BookCredit { name: a.clone(), role: String::from_str("penciller") });
    }
    let p = CreditPayload { entries };
    assert(p.view_entries() =~= credit_entries_of(opt_view(*author), opt_view(*artist)));
    Some(p)
}

/// Whether `m` carries `info` over to Komga's vocabulary.
pub open spec fn normalizes_to(info: MangaInfo, m: NormalizedMetadata) -> bool {
    &&& m.title@ == info.title@
    &&& opt_view(m.description) == opt_view(info.description)
    &&& m.status@ == komga_status_of(info.status)
    &&& m.genres@ == info.genres@
    &&& opt_view(m.author) == opt_view(info.author)
    &&& opt_view(m.artist) == opt_view(info.artist)
}

/// Carries resolved metadata over to Komga's vocabulary and builds the
/// book credits that go with it.
pub fn normalize(info: MangaInfo) -> (r: (NormalizedMetadata, Option<CreditPayload>))
    ensures
        normalizes_to(info, r.0),
        r.1 is None <==> (info.author is None && info.artist is None),
        r.1 matches Some(p) ==> p.view_entries() == credit_entries_of(
            opt_view(info.author),
            opt_view(info.artist),
        ),
{
    let status = get_komga_status(&info.status);
    let credits = credit_payload(&info.author, &info.artist);
    let m = NormalizedMetadata {
        title: info.title,
        description: info.description,
        status,
        genres: info.genres,
        author: info.author,
        artist: info.artist,
    };
    (m, credits)
}

/// Whether `m` and `credits` are what one run makes of `record` under
/// `choices`, with `title` the resolved title.
pub open spec fn assembled(
    record: MediaRecord,
    choices: OperatorChoices,
    title: Seq<char>,
    m: NormalizedMetadata,
    credits: Option<CreditPayload>,
) -> bool {
    let author = picked_name(record.staff@, choices.author);
    let artist = picked_name(record.staff@, choices.artist);
    &&& m.title@ == title
    &&& opt_view(m.description) == sanitized(opt_view(record.description))
    &&& m.status@ == komga_status_of(record.status)
    &&& m.genres@ == record.genres@
    &&& opt_view(m.author) == author
    &&& opt_view(m.artist) == artist
    &&& (credits is None <==> (author is None && artist is None))
    &&& (credits matches Some(p) ==> p.view_entries() == credit_entries_of(author, artist))
}

/// Runs the whole resolution on one record: the series metadata for Komga
/// and, where an author or artist was chosen, the book credits. Genres keep
/// their order. Fails with `NoTitleAvailable` where the record has no title.
pub fn assemble(record: MediaRecord, choices: OperatorChoices) -> (r: Result<
    (NormalizedMetadata, Option<CreditPayload>),
    MetadataError,
>)
    requires
        valid_pick(record.staff@, choices.author),
        valid_pick(record.staff@, choices.artist),
    ensures
        match resolved_title(record.title.english_view(), record.title.romaji_view(), choices.title) {
            Some(t) => r matches Ok((m, credits)) && assembled(record, choices, t, m, credits),
            None => r == Err::<(NormalizedMetadata, Option<CreditPayload>), MetadataError>(
                MetadataError::NoTitleAvailable,
            ),
        },
{
    match build_manga_info(record, choices) {
        Ok(info) => Ok(normalize(info)),
        Err(e) => Err(e),
    }
}

/// Credits follow the picks: a skipped role gets no entry, a chosen author
/// comes first as "writer", a chosen artist last as "penciller".
pub proof fn lemma_credits_follow_picks(
    credits: Seq<StaffCredit>,
    author: Option<usize>,
    artist: Option<usize>,
)
    requires
        valid_pick(credits, author),
        valid_pick(credits, artist),
    ensures
        ({
            let entries = credit_entries_of(
                picked_name(credits, author),
                picked_name(credits, artist),
            );
            &&& entries.len() == (if author is Some { 1int } else { 0int }) + (if artist is Some {
                1int
            } else {
                0int
            })
            &&& (author matches Some(i) ==> entries[0] == (credits[i as int].name@, "writer"@))
            &&& (artist matches Some(j) ==> entries.last() == (
                credits[j as int].name@,
                "penciller"@,
            ))
        }),
{
}

} // verus!
