//! The description that a bundle carries of itself.

use vstd::prelude::*;

use crate::util::{is_whole_of, read_to_end, Error, File};

verus! {

/// Who made a speller, for which language, and in which version.
#[derive(Debug, Clone, PartialEq, Eq)]
pub struct SpellerMetadata {
    pub locale: String,
    pub title: String,
    pub description: String,
    pub author: String,
    pub version: String,
}

/// A `SpellerMetadata` as plain text values.
pub struct SpellerMetadataView {
    pub locale: Seq<char>,
    pub title: Seq<char>,
    pub description: Seq<char>,
    pub author: Seq<char>,
    pub version: Seq<char>,
}

impl View for SpellerMetadata {
    type V = SpellerMetadataView;

    open spec fn view(&self) -> SpellerMetadataView {
        SpellerMetadataView {
            locale: self.locale@,
            title: self.title@,
            description: self.description@,
            author: self.author@,
            version: self.version@,
        }
    }
}

/// The members of the JSON document `text`, as `serde_json` reads them into
/// a map: each member's name, and its text if its value is a string. `None` if
/// `serde_json` does not read `text` into a map.
pub uninterp spec fn json_members(text: Seq<u8>) -> Option<Seq<(Seq<char>, Option<Seq<char>>)>>;

/// Parses `text` with `serde_json::from_slice` into a `serde_json::Map` and
/// lists its members in the order in which the map iterates, turning each
/// value into its text with `Value::as_str`. Trusted: the list is the one that
/// `json_members` names, and a document that is rejected gives `None`.
#[verifier::external_body]
fn parse_members(text: &[u8]) -> (members: Option<Vec<(String, Option<String>)>>)
    ensures
        members.deep_view() == json_members(text@),
{
    let object: serde_json::Map<String, serde_json::Value> = match serde_json::from_slice(text) {
        Ok(object) => object,
        Err(_) => return None,
    };
    let mut members = Vec::new();
    for (name, value) in object.iter() {
        members.push((name.clone(), value.as_str().map(String::from)));
    }
    Some(members)
}

/// The text of the first member called `name`, if there is such a member and
/// its value is a string.
pub open spec fn member_text(members: Seq<(Seq<char>, Option<Seq<char>>)>, name: Seq<char>) -> Option<
    Seq<char>,
>
    decreases members.len(),
{
    if members.len() == 0 {
        None
    } else if members[0].0 == name {
        members[0].1
    } else {
        member_text(members.subrange(1, members.len() as int), name)
    }
}

/// The metadata that a list of members describes. All five members must be
/// there as strings; members of other names are ignored.
pub open spec fn metadata_of(members: Seq<(Seq<char>, Option<Seq<char>>)>) -> Option<
    SpellerMetadataView,
> {
    match (
        member_text(members, "locale"@),
        member_text(members, "title"@),
        member_text(members, "description"@),
        member_text(members, "author"@),
        member_text(members, "version"@),
    ) {
        (Some(locale), Some(title), Some(description), Some(author), Some(version)) => Some(
            SpellerMetadataView { locale, title, description, author, version },
        ),
        _ => None,
    }
}

/// The metadata that the JSON document `text` describes, if it describes any.
pub open spec fn metadata_in(text: Seq<u8>) -> Option<SpellerMetadataView> {
    match json_members(text) {
        Some(members) => metadata_of(members),
        None => None,
    }
}

/// Looks up the text of the member called `name`.
pub fn text_of(members: &Vec<(String, Option<String>)>, name: &str) -> (text: Option<String>)
    ensures
        text.deep_view() == member_text(members.deep_view(), name@),
{
    let wanted: String = name.to_owned();
    let ghost all = members.deep_view();
    let n: usize = members.len();
    let mut i: usize = 0;
    assert(all.subrange(0, n as int) == all);
    while i < n
        invariant
            n == members@.len(),
            0 <= i <= n,
            wanted@ == name@,
            all == members.deep_view(),
            member_text(all, name@) == member_text(all.subrange(i as int, n as int), name@),
        decreases n - i,
    {
        let ghost rest = all.subrange(i as int, n as int);
        assert(rest[0] == all[i as int]);
        assert(all[i as int] == members@[i as int].deep_view());
        assert(rest.subrange(1, rest.len() as int) == all.subrange(i + 1, n as int));
        if members[i].0 == wanted {
            return match &members[i].1 {
                Some(text) => Some(text.clone()),
                None => None,
            };
        }
        i += 1;
    }
    None
}

impl SpellerMetadata {
    /// Builds the metadata from the members of a JSON object.
    pub fn from_members(members: &Vec<(String, Option<String>)>) -> (r: Option<SpellerMetadata>)
        ensures
            match r {
                Some(metadata) => metadata_of(members.deep_view()) == Some(metadata@),
                None => metadata_of(members.deep_view()) is None,
            },
    {
        let locale = text_of(members, "locale");
        let title = text_of(members, "title");
        let description = text_of(members, "description");
        let author = text_of(members, "author");
        let version = text_of(members, "version");
        match (locale, title, description, author, version) {
            (Some(locale), Some(title), Some(description), Some(author), Some(version)) => Some(
                SpellerMetadata { locale, title, description, author, version },
            ),
            _ => None,
        }
    }

    /// Reads the metadata from a JSON document. A document that is no JSON, no
    /// object, or lacks a member gives `None`.
    pub fn from_json(text: &[u8]) -> (r: Option<SpellerMetadata>)
        ensures
            match r {
                Some(metadata) => metadata_in(text@) == Some(metadata@),
                None => metadata_in(text@) is None,
            },
    {
        match parse_members(text) {
            Some(members) => SpellerMetadata::from_members(&members),
            None => None,
        }
    }

    /// Reads the metadata from a file, given what opening that file came to.
    /// A file that could not be opened, cannot be read or does not hold
    /// metadata gives `None`.
    pub fn from_opened<F: File>(opened: Result<F, Error>) -> (r: Option<SpellerMetadata>)
        ensures
            Self::is_read_from(r, opened),
    {
        match opened {
            Err(_) => None,
            Ok(file) => {
                let text = read_to_end(&file);
                let r = match &text {
                    Ok(bytes) => SpellerMetadata::from_json(bytes.as_slice()),
                    Err(_) => None,
                };
                proof {
                    assert(Self::is_parsed_from(r, text));
                }
                r
            },
        }
    }

    /// `r` is what reading the metadata comes to, given what opening its file
    /// came to: nothing where the file did not open; and of a faithful file,
    /// the metadata that its bytes describe, unless it is too long to read.
    pub open spec fn is_read_from<F: File>(r: Option<SpellerMetadata>, opened: Result<F, Error>) -> bool {
        match opened {
            Err(_) => r is None,
            Ok(file) => {
                &&& exists|text: Result<Vec<u8>, Error>|
                    is_whole_of(text, &file) && #[trigger] Self::is_parsed_from(r, text)
                &&& file.faithful() ==> match r {
                    Some(metadata) => metadata_in(file.contents()) == Some(metadata@),
                    None => metadata_in(file.contents()) is None || file.contents().len()
                        > usize::MAX,
                }
            },
        }
    }

    /// `r` is the metadata in what was read of a file: the metadata that the
    /// bytes describe where the file was read, and nothing where it was not.
    pub open spec fn is_parsed_from(r: Option<SpellerMetadata>, text: Result<Vec<u8>, Error>) -> bool {
        match text {
            Ok(bytes) => match r {
                Some(metadata) => metadata_in(bytes@) == Some(metadata@),
                None => metadata_in(bytes@) is None,
            },
            Err(_) => r is None,
        }
    }
}

} // verus!
