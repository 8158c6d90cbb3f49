use vstd::prelude::*;
use crate::error::MetadataError;

verus! {

/// The title variants of an AniList record; either may be missing.
#[derive(Debug)]
pub struct RawTitle {
    pub english: Option<String>,
    pub romaji: Option<String>,
}

/// The operator's pick between two differing title variants.
#[derive(Clone, Copy, Debug, PartialEq, Eq, Structural)]
pub enum TitleChoice {
    English,
    Romanized,
}

/// What title resolution needs before it can finish.
#[derive(Debug)]
pub enum TitleDecision {
    /// The title is fixed without asking.
    Settled(String),
    /// Both variants exist and differ: the operator picks one, offered in the
    /// order English, then romanized.
    Choose(String, String),
}

pub open spec fn opt_view(o: Option<String>) -> Option<Seq<char>> {
    match o {
        Some(s) => Some(s@),
        None => None,
    }
}

impl RawTitle {
    pub open spec fn english_view(&self) -> Option<Seq<char>> {
        opt_view(self.english)
    }

    pub open spec fn romaji_view(&self) -> Option<Seq<char>> {
        opt_view(self.romaji)
    }
}

/// Whether the operator has to be asked: both variants exist and differ.
pub open spec fn needs_title_choice(english: Option<Seq<char>>, romaji: Option<Seq<char>>) -> bool {
    &&& english is Some
    &&& romaji is Some
    &&& english != romaji
}

/// The canonical title, given the operator's pick (used only where the two
/// variants differ). `None` when neither variant exists.
pub open spec fn resolved_title(
    english: Option<Seq<char>>,
    romaji: Option<Seq<char>>,
    pick: TitleChoice,
) -> Option<Seq<char>> {
    match (english, romaji) {
        (Some(e), Some(r)) => if e == r {
            Some(e)
        } else {
            match pick {
                TitleChoice::English => Some(e),
                TitleChoice::Romanized => Some(r),
            }
        },
        (Some(e), None) => Some(e),
        (None, Some(r)) => Some(r),
        (None, None) => None,
    }
}

/// Decides whether a title can be fixed at once or needs the operator.
pub fn title_decision(title: &RawTitle) -> (r: Result<TitleDecision, MetadataError>)
    ensures
        r is Err <==> (title.english is None && title.romaji is None),
        r is Err ==> r == Err::<TitleDecision, MetadataError>(MetadataError::NoTitleAvailable),
        r matches Ok(TitleDecision::Choose(e, ro)) <==> needs_title_choice(
            title.english_view(),
            title.romaji_view(),
        ),
        r matches Ok(TitleDecision::Choose(e, ro)) ==> (title.english_view() == Some(e@)
            && title.romaji_view() == Some(ro@)),
        r matches Ok(TitleDecision::Settled(s)) ==> resolved_title(
            title.english_view(),
            title.romaji_view(),
            TitleChoice::English,
        ) == Some(s@),
{
    match (&title.english, &title.romaji) {
        (Some(e), Some(ro)) => {
            if e.eq(ro) {
                Ok(TitleDecision::Settled(e.clone()))
            } else {
                Ok(TitleDecision::Choose(e.clone(), ro.clone()))
            }
        },
        (Some(e), None) => Ok(TitleDecision::Settled(e.clone())),
        (None, Some(ro)) => Ok(TitleDecision::Settled(ro.clone())),
        (None, None) => Err(MetadataError::NoTitleAvailable),
    }
}

/// Resolves the canonical title; `pick` is consulted only where both
/// variants exist and differ.
pub fn resolve_title(title: &RawTitle, pick: TitleChoice) -> (r: Result<String, MetadataError>)
    ensures
        match resolved_title(title.english_view(), title.romaji_view(), pick) {
            Some(s) => r matches Ok(t) && t@ == s,
            None => r == Err::<String, MetadataError>(MetadataError::NoTitleAvailable),
        },
{
    match (&title.english, &title.romaji) {
        (Some(e), Some(ro)) => {
            if e.eq(ro) {
                Ok(e.clone())
            } else {
                match pick {
                    TitleChoice::English => Ok(e.clone()),
                    TitleChoice::Romanized => Ok(ro.clone()),
                }
            }
        },
        (Some(e), None) => Ok(e.clone()),
        (None, Some(ro)) => Ok(ro.clone()),
        (None, None) => Err(MetadataError::NoTitleAvailable),
    }
}

/// The label of a search hit: "english / romanized" when both exist,
/// else the one that exists; `None` when neither does.
pub open spec fn search_label_of(english: Option<Seq<char>>, romaji: Option<Seq<char>>) -> Option<
    Seq<char>,
> {
    match (english, romaji) {
        (Some(e), Some(r)) => Some(e + " / "@ + r),
        (Some(e), None) => Some(e),
        (None, Some(r)) => Some(r),
        (None, None) => None,
    }
}

/// Builds the label under which a search hit is offered to the operator.
pub fn search_label(title: &RawTitle) -> (r: Option<String>)
    ensures
        opt_view(r) == search_label_of(title.english_view(), title.romaji_view()),
{
    match (&title.english, &title.romaji) {
        (Some(e), Some(ro)) => {
            let mut s = e.clone();
            s.append(" / ");
            s.append(ro.as_str());
            Some(s)
        },
        (Some(e), None) => Some(e.clone()),
        (None, Some(ro)) => Some(ro.clone()),
        (None, None) => None,
    }
}

/// Where both variants are present and equal, no choice is needed and every
/// pick yields that value.
pub proof fn lemma_equal_variants_settle(value: Seq<char>, pick: TitleChoice)
    ensures
        !needs_title_choice(Some(value), Some(value)),
        resolved_title(Some(value), Some(value), pick) == Some(value),
{
}

/// Where exactly one variant is present, resolution returns it.
pub proof fn lemma_single_variant_wins(
    english: Option<Seq<char>>,
    romaji: Option<Seq<char>>,
    pick: TitleChoice,
)
    requires
        (english is Some) != (romaji is Some),
    ensures
        !needs_title_choice(english, romaji),
        english matches Some(e) ==> resolved_title(english, romaji, pick) == Some(e),
        romaji matches Some(ro) ==> resolved_title(english, romaji, pick) == Some(ro),
{
}

/// Where both variants are absent, resolution fails whatever the pick.
pub proof fn lemma_no_variant_fails(pick: TitleChoice)
    ensures
        resolved_title(None, None, pick) is None,
{
}

} // verus!
