//! The package manifest and the lookup of a field's quoted value in it.
use vstd::prelude::*;
use vstd::string::*;
use crate::text::{lines, split_lines, split_words, trim, trim_str, views, words};

verus! {

/// The token that `line` assigns to `field`: the third word, where the first
/// word, trimmed, is `field` and the second is `=`.
pub open spec fn assigned_token(line: Seq<char>, field: Seq<char>) -> Option<Seq<char>> {
    let w = words(line);
    if w.len() >= 3 && trim(w[0]) == field && w[1] == seq!['='] {
        Some(w[2])
    } else {
        None
    }
}

/// The token assigned to `field` by the first line of `ls` that assigns it.
pub open spec fn first_assignment(ls: Seq<Seq<char>>, field: Seq<char>) -> Option<Seq<char>>
    decreases ls.len(),
{
    if ls.len() == 0 {
        None
    } else {
        match assigned_token(ls[0], field) {
            Some(t) => Some(t),
            None => first_assignment(ls.drop_first(), field),
        }
    }
}

/// A token wrapped in a pair of double quotes.
pub open spec fn is_quoted(t: Seq<char>) -> bool {
    t.len() >= 2 && t[0] == '"' && t.last() == '"'
}

/// A quoted token without its quotes.
pub open spec fn unquote(t: Seq<char>) -> Seq<char> {
    t.subrange(1, t.len() - 1)
}

/// Why a field could not be read from a manifest.
#[derive(Debug)]
pub enum ManifestError {
    /// No line assigns the field.
    NotFound { field: String, path: String },
    /// The first line that assigns the field gives a value not wrapped in
    /// double quotes.
    MalformedValue { field: String, path: String, token: String },
}

/// The outcome of looking `field` up in the text `contents` of the manifest
/// at `path`, over views: the unquoted value, or what went wrong.
pub open spec fn lookup_holds(
    r: Result<String, ManifestError>,
    contents: Seq<char>,
    path: Seq<char>,
    field: Seq<char>,
) -> bool {
    match first_assignment(lines(contents), field) {
        None => r matches Err(ManifestError::NotFound { field: f, path: p }) && f@ == field && p@
            == path,
        Some(t) => if is_quoted(t) {
            r matches Ok(v) && v@ == unquote(t)
        } else {
            r matches Err(ManifestError::MalformedValue { field: f, path: p, token: k }) && f@
                == field && p@ == path && k@ == t
        },
    }
}

impl ManifestError {
    /// A description of the error for a person to read.
    pub fn message(&self) -> (r: String)
        ensures
            r@ == match self {
                ManifestError::NotFound { field, path } => "can't find `"@ + field@ + "` in "@
                    + path@,
                ManifestError::MalformedValue { field, path, token } => "value of `"@ + field@
                    + "` in "@ + path@ + " is not a quoted string: "@ + token@,
            },
    {
        proof {
            reveal_strlit("can't find `");
            reveal_strlit("` in ");
            reveal_strlit("value of `");
            reveal_strlit(" is not a quoted string: ");
        }
        match self {
            ManifestError::NotFound { field, path } => {
                String::from_str("can't find `").concat(field.as_str()).concat("` in ").concat(
                    path.as_str(),
                )
            },
            ManifestError::MalformedValue { field, path, token } => {
                String::from_str("value of `").concat(field.as_str()).concat("` in ").concat(
                    path.as_str(),
                ).concat(" is not a quoted string: ").concat(token.as_str())
            },
        }
    }
}

/// A manifest file: where it was read from, and its text.
pub struct CargoToml {
    path: String,
    contents: String,
}

/// Whether `s` is exactly the one character `c`.
fn is_single_char(s: &str, c: char) -> (r: bool)
    ensures
        r == (s@ == seq![c]),
{
    if s.unicode_len() == 1 {
        let d = s.get_char(0);
        assert(s@ =~= seq![d]);
        assert(seq![c][0] == c);
        d == c
    } else {
        false
    }
}

impl CargoToml {
    /// The manifest at `path` whose text is `contents`.
    pub fn new(path: String, contents: String) -> (r: CargoToml)
        ensures
            r.path() == path@,
            r.contents() == contents@,
    {
        CargoToml { path, contents }
    }

    pub closed spec fn path(&self) -> Seq<char> {
        self.path@
    }

    pub closed spec fn contents(&self) -> Seq<char> {
        self.contents@
    }

    /// The path the manifest was read from.
    pub fn path_str(&self) -> (r: &str)
        ensures
            r@ == self.path(),
    {
        self.path.as_str()
    }

    /// The package version: the value of the `version` field.
    pub fn version(&self) -> (r: Result<String, ManifestError>)
        ensures
            lookup_holds(r, self.contents(), self.path(), "version"@),
    {
        proof {
            reveal_strlit("version");
        }
        self.get("version")
    }

    /// The value of `field`, taken from the first line whose words begin with
    /// `field` and `=`; its third word must be wrapped in double quotes, which
    /// are removed.
    pub fn get(&self, field: &str) -> (r: Result<String, ManifestError>)
        ensures
            lookup_holds(r, self.contents(), self.path(), field@),
    {
        let ls = split_lines(self.contents.as_str());
        let mut i: usize = 0;
        assert(views(ls@).subrange(0, ls@.len() as int) =~= views(ls@));
        while i < ls.len()
            invariant
                i <= ls@.len(),
                views(ls@) == lines(self.contents@),
                first_assignment(lines(self.contents@), field@) == first_assignment(
                    views(ls@).subrange(i as int, ls@.len() as int),
                    field@,
                ),
            decreases ls@.len() - i,
        {
            let line = ls[i].as_str();
            let ws = split_words(line);
            let ghost tail = views(ls@).subrange(i as int, ls@.len() as int);
            assert(tail[0] == line@);
            assert(tail.drop_first() =~= views(ls@).subrange(i + 1, ls@.len() as int));
            assert(views(ws@) == words(line@));
            if ws.len() >= 3 {
                let name = trim_str(ws[0].as_str());
                let wanted = field.to_owned();
                assert(views(ws@)[0] == ws@[0]@ && views(ws@)[1] == ws@[1]@ && views(ws@)[2]
                    == ws@[2]@);
                if name == wanted && is_single_char(ws[1].as_str(), '=') {
                    let t = ws[2].as_str();
                    let n = t.unicode_len();
                    assert(assigned_token(line@, field@) == Some(t@));
                    if n >= 2 && t.get_char(0) == '"' && t.get_char(n - 1) == '"' {
                        return Ok(t.substring_char(1, n - 1).to_owned());
                    } else {
                        return Err(
                            ManifestError::MalformedValue {
                                field: wanted,
                                path: self.path.clone(),
                                token: t.to_owned(),
                            },
                        );
                    }
                }
            }
            i = i + 1;
        }
        Err(ManifestError::NotFound { field: field.to_owned(), path: self.path.clone() })
    }
}

} // verus!
