//! The wire forms of the library's values: the JSON values that request
//! bodies carry, and the string codec for folder identifiers.

use crate::error::Error;
use crate::mydoc::{CustomFolderId, FolderColor, FolderId};
use crate::uuid::{spec_parse_uuid, uuid_chars, Uuid};
use vstd::prelude::*;

verus! {

/// A JSON value placed in a request body field.
#[derive(Debug)]
pub enum Json {
    /// A folder color, written as its lower-case name.
    FolderColor(FolderColor),
    /// A folder identifier, written in its wire spelling.
    FolderId(FolderId),
    /// A plain string.
    Str(String),
}

/// Compares two strings character by character.
pub fn str_eq(a: &str, b: &str) -> (r: bool)
    ensures
        r == (a@ == b@),
{
    let n = a.unicode_len();
    if n != b.unicode_len() {
        return false;
    }
    let mut i: usize = 0;
    while i < n
        invariant
            0 <= i <= n,
            n == a@.len(),
            n == b@.len(),
            forall|k: int| 0 <= k < i ==> a@[k] == b@[k],
        decreases n - i,
    {
        if a.get_char(i) != b.get_char(i) {
            return false;
        }
        i += 1;
    }
    proof {
        assert(a@ =~= b@);
    }
    true
}

/// The wire spelling of the favorites pseudo-folder. The platform uses the
/// British spelling on the wire.
pub open spec fn favourites_chars() -> Seq<char> {
    seq!['f', 'a', 'v', 'o', 'u', 'r', 'i', 't', 'e', 's']
}

/// The wire spelling of the trash pseudo-folder.
pub open spec fn trashed_chars() -> Seq<char> {
    seq!['t', 'r', 'a', 's', 'h', 'e', 'd']
}

/// The wire spelling of a folder identifier: the root folder is the empty
/// string, the two other pseudo-folders are fixed tokens, and a concrete
/// folder is its hyphenated identifier.
pub open spec fn folder_id_chars(id: FolderId) -> Seq<char> {
    match id {
        FolderId::Root => Seq::empty(),
        FolderId::Favorites => favourites_chars(),
        FolderId::Trashed => trashed_chars(),
        FolderId::Custom(c) => uuid_chars(c.0.0),
    }
}

/// What decoding a folder identifier string yields: the sentinel spellings
/// map to the pseudo-folders, any other string must be a well-formed
/// hyphenated identifier, and everything else is rejected.
pub open spec fn spec_parse_folder_id(s: Seq<char>) -> Option<FolderId> {
    if s.len() == 0 {
        Some(FolderId::Root)
    } else if s == favourites_chars() {
        Some(FolderId::Favorites)
    } else if s == trashed_chars() {
        Some(FolderId::Trashed)
    } else {
        match spec_parse_uuid(s) {
            Some(u) => Some(FolderId::Custom(CustomFolderId(u))),
            None => None,
        }
    }
}

impl FolderId {
    /// Writes the identifier in its wire spelling.
    pub fn to_wire_string(&self) -> (r: String)
        ensures
            r@ == folder_id_chars(*self),
    {
        match self {
            FolderId::Root => String::new(),
            FolderId::Favorites => {
                proof {
                    reveal_strlit("favourites");
                    assert("favourites"@ =~= favourites_chars());
                }
                String::from_str("favourites")
            },
            FolderId::Trashed => {
                proof {
                    reveal_strlit("trashed");
                    assert("trashed"@ =~= trashed_chars());
                }
                String::from_str("trashed")
            },
            FolderId::Custom(c) => c.0.to_hyphenated(),
        }
    }

    /// Reads an identifier from its wire spelling; any string that is
    /// neither a sentinel spelling nor a well-formed hyphenated identifier
    /// is a decode error.
    pub fn from_wire_str(s: &str) -> (r: Result<FolderId, Error>)
        ensures
            r == match spec_parse_folder_id(s@) {
                Some(f) => Ok::<FolderId, Error>(f),
                None => Err::<FolderId, Error>(Error::Decode),
            },
    {
        proof {
            reveal_strlit("favourites");
            reveal_strlit("trashed");
            assert("favourites"@ =~= favourites_chars());
            assert("trashed"@ =~= trashed_chars());
        }
        if s.unicode_len() == 0 {
            Ok(FolderId::Root)
        } else if str_eq(s, "favourites") {
            Ok(FolderId::Favorites)
        } else if str_eq(s, "trashed") {
            Ok(FolderId::Trashed)
        } else {
            match Uuid::parse(s) {
                Some(u) => Ok(FolderId::Custom(CustomFolderId(u))),
                None => Err(Error::Decode),
            }
        }
    }
}

/// Writing any folder identifier in its wire spelling and decoding the
/// result yields the identifier again; in particular the four spellings
/// never collide.
pub proof fn lemma_folder_id_round_trip(id: FolderId)
    ensures
        spec_parse_folder_id(folder_id_chars(id)) == Some(id),
{
    match id {
        FolderId::Root => {},
        FolderId::Favorites => {},
        FolderId::Trashed => {},
        FolderId::Custom(c) => {
            crate::uuid::lemma_uuid_round_trip(c.0.0);
            assert(folder_id_chars(id).len() == 36) by {
                crate::uuid::lemma_uuid_chars_len(c.0.0);
            }
        },
    }
}

} // verus!
