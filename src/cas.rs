use vstd::prelude::*;
use vstd::string::*;

verus! {

/// `base` joined with `part` as a path: an absolute `part` replaces
/// `base`; otherwise a `/` separates them unless `base` is empty or already
/// ends with one.
pub open spec fn join_path(base: Seq<char>, part: Seq<char>) -> Seq<char> {
    if part.len() > 0 && part[0] == '/' {
        part
    } else if base.len() == 0 || base.last() == '/' {
        base + part
    } else {
        base + seq!['/'] + part
    }
}

/// Directory of the shard that holds the blob for `hash`: the root joined
/// with the first two characters of the hash.
pub open spec fn shard_path(root: Seq<char>, hash: Seq<char>) -> Seq<char> {
    join_path(root, hash.subrange(0, 2))
}

/// Where the blob for `hash` lives: `root/<hash[0:2]>/<hash>`.
pub open spec fn blob_path(root: Seq<char>, hash: Seq<char>) -> Seq<char> {
    join_path(shard_path(root, hash), hash)
}

/// Joins two path strings.
pub fn join(base: &str, part: &str) -> (r: String)
    ensures
        r@ == join_path(base@, part@),
{
    let plen = part.unicode_len();
    if plen > 0 && part.get_char(0) == '/' {
        return part.to_owned();
    }
    let blen = base.unicode_len();
    let mut s = base.to_owned();
    if blen > 0 && base.get_char(blen - 1) != '/' {
        proof {
            reveal_strlit("/");
        }
        s.append("/");
    }
    s.append(part);
    s
}

/// What lies at a logical path where an alias is wanted.
#[derive(Debug, Clone, PartialEq, Eq)]
pub enum LinkState {
    /// Nothing.
    Absent,
    /// A symbolic link to this target.
    Symlink(String),
    /// A file or directory that is not a symbolic link.
    Other,
}

/// Model of [`LinkState`].
pub enum LinkModel {
    Absent,
    Symlink(Seq<char>),
    Other,
}

impl View for LinkState {
    type V = LinkModel;

    open spec fn view(&self) -> LinkModel {
        match self {
            LinkState::Absent => LinkModel::Absent,
            LinkState::Symlink(t) => LinkModel::Symlink(t@),
            LinkState::Other => LinkModel::Other,
        }
    }
}

/// What creating an alias takes.
#[derive(Debug, Clone, Copy, PartialEq, Eq, Structural)]
pub enum AliasPlan {
    /// Create the symbolic link.
    Create,
    /// The link is already there and points at the blob: nothing to do.
    Keep,
    /// Something else occupies the path: creating the alias fails.
    Conflict,
}

/// The aliasing rule for a blob at `blob` and a path currently holding `link`.
pub open spec fn alias_rule(blob: Seq<char>, link: LinkModel) -> AliasPlan {
    match link {
        LinkModel::Absent => AliasPlan::Create,
        LinkModel::Symlink(t) => if t == blob {
            AliasPlan::Keep
        } else {
            AliasPlan::Conflict
        },
        LinkModel::Other => AliasPlan::Conflict,
    }
}

/// What the path holds once a plan was carried out successfully.
pub open spec fn link_after(blob: Seq<char>, link: LinkModel, plan: AliasPlan) -> LinkModel {
    match plan {
        AliasPlan::Create => LinkModel::Symlink(blob),
        _ => link,
    }
}

/// A content-addressed store rooted at a directory: each blob is named by
/// the hex digest of its bytes and sharded by the digest's first two
/// characters.
#[derive(Debug, Clone)]
pub struct DLStorage {
    pub path: String,
}

impl DLStorage {
    /// A store rooted at `path`.
    pub fn new(path: &str) -> (r: Self)
        ensures
            r.path@ == path@,
    {
        DLStorage { path: path.to_owned() }
    }

    /// The shard directory for `hash`.
    pub fn shard(&self, hash: &str) -> (r: String)
        requires
            hash@.len() >= 2,
        ensures
            r@ == shard_path(self.path@, hash@),
    {
        let prefix = hash.substring_char(0, 2);
        join(self.path.as_str(), prefix)
    }

    /// The blob path for `hash`.
    pub fn path(&self, hash: &str) -> (r: String)
        requires
            hash@.len() >= 2,
        ensures
            r@ == blob_path(self.path@, hash@),
    {
        let shard = self.shard(hash);
        join(shard.as_str(), hash)
    }

    /// Looks a blob up, `blob_present` telling whether a file exists at its
    /// path: the path when it does, nothing otherwise.
    pub fn find(&self, hash: &str, blob_present: bool) -> (r: Option<String>)
        requires
            hash@.len() >= 2,
        ensures
            blob_present ==> r is Some && r->Some_0@ == blob_path(self.path@, hash@),
            !blob_present ==> r is None,
    {
        if blob_present {
            Some(self.path(hash))
        } else {
            None
        }
    }

    /// Decides how to alias the blob for `hash` at a path holding `link`.
    pub fn alias_plan(&self, hash: &str, link: &LinkState) -> (r: AliasPlan)
        requires
            hash@.len() >= 2,
        ensures
            r == alias_rule(blob_path(self.path@, hash@), link@),
    {
        let blob = self.path(hash);
        match link {
            LinkState::Absent => AliasPlan::Create,
            LinkState::Symlink(t) => {
                if *t == blob {
                    AliasPlan::Keep
                } else {
                    AliasPlan::Conflict
                }
            },
            LinkState::Other => AliasPlan::Conflict,
        }
    }
}

/// Aliasing is idempotent: at a path that already links to the blob it is a
/// no-op and leaves the path as it was, and once an alias was created a
/// second request for it is such a no-op.
pub proof fn lemma_alias_idempotent(blob: Seq<char>, link: LinkModel)
    ensures
        alias_rule(blob, LinkModel::Symlink(blob)) == AliasPlan::Keep,
        link_after(blob, LinkModel::Symlink(blob), AliasPlan::Keep) == LinkModel::Symlink(blob),
        alias_rule(blob, link) != AliasPlan::Conflict ==> alias_rule(
            blob,
            link_after(blob, link, alias_rule(blob, link)),
        ) == AliasPlan::Keep,
{
}

} // verus!
