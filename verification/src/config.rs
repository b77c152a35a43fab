//! Start-up decisions: where the master key comes from. An explicit
//! flag/environment value wins; otherwise a `<db>.key` file is reused, or a
//! fresh key is generated and written there so the console runs with zero
//! configuration.

use vstd::prelude::*;
use crate::text::{concat_str, trim, trim_str};

verus! {

/// Where the master key's hex text comes from.
#[derive(Debug)]
pub enum KeySource {
    /// Given on the command line or in the environment.
    Explicit(String),
    /// Read from the key file next to the database (trimmed).
    KeyFile(String),
    /// Nothing given and no key file: generate one and write it.
    Generate,
}

/// The key file next to the database `db`: `<db>.key`.
pub open spec fn key_file_of(db: Seq<char>) -> Seq<char> {
    db + ".key"@
}

/// The key file path for the database at `db`.
pub fn key_file_path(db: &str) -> (r: String)
    ensures
        r@ == key_file_of(db@),
{
    concat_str(db, ".key")
}

/// Choose the key source from the explicit value and the key file's
/// contents (`None` when it could not be read).
pub fn key_source(explicit: Option<String>, key_file: Option<String>) -> (r: KeySource)
    ensures
        explicit is Some ==> r == KeySource::Explicit(explicit->Some_0),
        explicit is None && key_file is Some ==> (r matches KeySource::KeyFile(h) && h@ == trim(
            key_file->Some_0@,
        )),
        explicit is None && key_file is None ==> r == KeySource::Generate,
{
    match explicit {
        Some(h) => KeySource::Explicit(h),
        None => match key_file {
            Some(c) => KeySource::KeyFile(trim_str(c.as_str())),
            None => KeySource::Generate,
        },
    }
}

/// The context reported when the chosen key text is not a valid key.
pub open spec fn key_error_context(s: KeySource) -> Seq<char> {
    match s {
        KeySource::Explicit(_) => "invalid CONDUIT_MASTER_KEY"@,
        KeySource::KeyFile(_) => "invalid key file"@,
        KeySource::Generate => "invalid generated key"@,
    }
}

impl KeySource {
    /// The context reported when this source yields an invalid key.
    pub fn error_context(&self) -> (r: &'static str)
        ensures
            r@ == key_error_context(*self),
    {
        match self {
            KeySource::Explicit(_) => "invalid CONDUIT_MASTER_KEY",
            KeySource::KeyFile(_) => "invalid key file",
            KeySource::Generate => "invalid generated key",
        }
    }
}

/// The key file path is the database path with `.key` appended: the
/// database path is a prefix of it, it is four characters longer, and it
/// ends in `.key`.
pub proof fn law_key_file_path(db: Seq<char>)
    ensures
        key_file_of(db).len() == db.len() + 4,
        key_file_of(db).subrange(0, db.len() as int) == db,
        key_file_of(db).subrange(db.len() as int, db.len() + 4 as int) == ".key"@,
        key_file_of(db)[db.len() as int] == '.',
{
    reveal_strlit(".key");
    let k = key_file_of(db);
    assert(k.subrange(0, db.len() as int) =~= db);
    assert(k.subrange(db.len() as int, db.len() + 4 as int) =~= ".key"@);
}

} // verus!
