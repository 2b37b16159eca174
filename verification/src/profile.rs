//! A user's profile as the relays hand it out.
use crate::note::{Note, NoteView};
use crate::sync::METADATA_KIND;
use vstd::prelude::*;

verus! {

/// The profile that a user publishes.
#[derive(Debug, PartialEq, Eq)]
pub struct NostrMetadata {
    pub name: String,
    pub about: Option<String>,
    pub picture: Option<String>,
}

impl Default for NostrMetadata {
    fn default() -> (res: Self)
        ensures
            res.name@ == "Anon"@,
            res.about is None,
            res.picture is None,
    {
        NostrMetadata { name: "Anon".to_owned(), about: None, picture: None }
    }
}

/// Why a note yields no profile.
#[derive(Clone, Copy, Debug, PartialEq, Eq, Structural)]
pub enum MetadataError {
    /// The note is of another kind than a profile note.
    WrongKind,
    /// The note's content is no profile.
    Malformed,
}

impl MetadataError {
    /// The words of the error.
    pub fn message(&self) -> (res: &'static str)
        ensures
            res@ == match self {
                MetadataError::WrongKind => "Wrong Kind - expected kind 0"@,
                MetadataError::Malformed => "Malformed profile"@,
            },
    {
        match self {
            MetadataError::WrongKind => "Wrong Kind - expected kind 0",
            MetadataError::Malformed => "Malformed profile",
        }
    }
}

impl NostrMetadata {
    /// A profile of these three fields.
    pub fn new(name: String, about: Option<String>, picture: Option<String>) -> (res: Self)
        ensures
            res.name == name,
            res.about == about,
            res.picture == picture,
    {
        NostrMetadata { name, about, picture }
    }

    /// The profile of a note, given what its content parses to: a note of
    /// another kind is refused whatever it holds, a profile note yields
    /// what was parsed or is malformed.
    pub fn from_parsed(kind: u32, parsed: Option<NostrMetadata>) -> (res: Result<
        NostrMetadata,
        MetadataError,
    >)
        ensures
            res == if kind != METADATA_KIND {
                Err::<NostrMetadata, MetadataError>(MetadataError::WrongKind)
            } else {
                match parsed {
                    Some(metadata) => Ok(metadata),
                    None => Err(MetadataError::Malformed),
                }
            },
    {
        if kind != METADATA_KIND {
            return Err(MetadataError::WrongKind);
        }
        match parsed {
            Some(metadata) => Ok(metadata),
            None => Err(MetadataError::Malformed),
        }
    }

    /// The name to show.
    pub fn display_name(profile: &Option<NostrMetadata>, fallback: &str) -> (res: String)
        ensures
            res@ == match *profile {
                Some(p) => p.name@,
                None => fallback@,
            },
    {
        match profile {
            Some(p) => p.name.clone(),
            None => fallback.to_owned(),
        }
    }

    /// The self-description to show.
    pub fn display_about(profile: &Option<NostrMetadata>, fallback: &str) -> (res: String)
        ensures
            res@ == match *profile {
                Some(NostrMetadata { about: Some(about), .. }) => about@,
                _ => fallback@,
            },
    {
        match profile {
            Some(p) => match &p.about {
                Some(about) => about.clone(),
                None => fallback.to_owned(),
            },
            None => fallback.to_owned(),
        }
    }
}

/// The content of the newest note where that note is a profile note.
pub open spec fn newest_profile(notes: Seq<NoteView>) -> Option<Seq<char>> {
    if notes.len() > 0 && notes.last().kind == METADATA_KIND {
        Some(notes.last().content)
    } else {
        None
    }
}

/// The text to parse for the profile card: the content of the newest note,
/// where that note is a profile note. Older notes are not looked at.
pub fn newest_profile_content(notes: &Vec<Note>) -> (content: Option<String>)
    ensures
        content.deep_view() == newest_profile(notes.deep_view()),
{
    if notes.len() == 0 {
        return None;
    }
    let newest = &notes[notes.len() - 1];
    assert(notes.deep_view().last() == newest@);
    if newest.kind == METADATA_KIND {
        Some(newest.content.clone())
    } else {
        None
    }
}

} // verus!
