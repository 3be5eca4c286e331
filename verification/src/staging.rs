//! Where uploads wait until the request that brought them is through.
//!
//! Every request that uploads files gets a directory of its own below
//! `./.tmp/`, named by a fresh identifier.

use crate::hash::{create_random_hash, is_hash};
use crate::model::Text;
use crate::text::join2;
use vstd::prelude::*;

verus! {

/// The staging directory named by `token`.
pub open spec fn staging_dir(token: Text) -> Text {
    "./.tmp/"@ + token + "/"@
}

/// Where the upload with the file name `filename` is written.
pub open spec fn upload_file(dir: Text, filename: Text) -> Text {
    dir + filename
}

/// Where the description of the commit is looked for.
pub open spec fn commit_file(dir: Text) -> Text {
    dir + "/commit"@
}

/// Where the description of a new branch is looked for.
pub open spec fn branch_file(dir: Text) -> Text {
    dir + "/branch.json"@
}

/// A staging directory that no other request uses: its name is drawn at
/// random.
pub fn create_staging_dir() -> (dir: String)
    ensures
        exists|token: Text| is_hash(token) && dir@ == #[trigger] staging_dir(token),
{
    let token = create_random_hash();
    let mut dir = join2("./.tmp/", token.as_str());
    dir.append("/");
    assert(dir@ == staging_dir(token@));
    dir
}

/// The path under which the upload `filename` is written in `dir`. A file
/// name with separators lands in directories below `dir`.
pub fn staged_upload(dir: &str, filename: &str) -> (path: String)
    ensures
        path@ == upload_file(dir@, filename@),
{
    join2(dir, filename)
}

/// The path under which the description of the commit is looked for in
/// `dir`.
pub fn staged_commit(dir: &str) -> (path: String)
    ensures
        path@ == commit_file(dir@),
{
    join2(dir, "/commit")
}

/// The path under which the description of a new branch is looked for in
/// `dir`.
pub fn staged_branch(dir: &str) -> (path: String)
    ensures
        path@ == branch_file(dir@),
{
    join2(dir, "/branch.json")
}

} // verus!
