//! Mounts of a container's specification, and what the host knows of their sources.

use vstd::prelude::*;
use vstd::string::*;

use crate::agent::clone_strings;
use crate::text::{str_eq, texts};

verus! {

/// The type of a bind mount.
pub const KATA_MOUNT_BIND_TYPE: &'static str = "bind";

/// The source path of a mount.
#[derive(Debug)]
pub struct SourcePath {
    /// The path as text, with replacement characters where it is not UTF-8.
    pub text: String,
    /// Whether the path is UTF-8.
    pub utf8: bool,
}

/// A mount of a container.
#[derive(Debug)]
pub struct Mount {
    /// Where it appears in the container.
    pub destination: String,
    /// Its type, if given.
    pub typ: Option<String>,
    /// What is mounted, if given.
    pub source: Option<SourcePath>,
    /// Its options.
    pub options: Vec<String>,
}

/// The contents of a [`Mount`].
#[verifier::ext_equal]
pub struct MountView {
    /// Where it appears in the container.
    pub destination: Seq<char>,
    /// Its type.
    pub typ: Option<Seq<char>>,
    /// The text of its source.
    pub source: Option<Seq<char>>,
    /// Whether its source is UTF-8.
    pub source_utf8: bool,
    /// Its options.
    pub options: Seq<Seq<char>>,
}

/// The text in an optional string.
pub open spec fn text_of(t: Option<String>) -> Option<Seq<char>> {
    match t {
        Some(t) => Some(t@),
        None => None,
    }
}

impl View for Mount {
    type V = MountView;

    open spec fn view(&self) -> MountView {
        MountView {
            destination: self.destination@,
            typ: text_of(self.typ),
            source: match self.source {
                Some(p) => Some(p.text@),
                None => None,
            },
            source_utf8: match self.source {
                Some(p) => p.utf8,
                None => false,
            },
            options: texts(self.options@),
        }
    }
}

impl Clone for Mount {
    fn clone(&self) -> (r: Self)
        ensures
            r@ == self@,
    {
        let typ = match &self.typ {
            Some(t) => Some(t.clone()),
            None => None,
        };
        let source = match &self.source {
            Some(p) => Some(SourcePath { text: p.text.clone(), utf8: p.utf8 }),
            None => None,
        };
        let r = Mount {
            destination: self.destination.clone(),
            typ,
            source,
            options: clone_strings(&self.options),
        };
        proof {
            assert(r@ =~= self@);
        }
        r
    }
}

/// What a look at the host's mount table gives for a path.
#[derive(Debug)]
pub enum MountLookup {
    /// A mount of this file system type.
    Found(String),
    /// No mount at that path.
    NoMountEntry,
    /// The table could not be read.
    Failed,
}

/// What the host knows of a path.
#[derive(Debug)]
pub struct PathFacts {
    /// Whether the path lies where the kubelet puts its `emptyDir` volumes.
    pub empty_dir: bool,
    /// The path's entry in the mount table.
    pub lookup: MountLookup,
}

impl PathFacts {
    /// Whether a `tmpfs` is mounted at the path.
    pub open spec fn on_tmpfs(&self) -> bool {
        self.lookup matches MountLookup::Found(fs_type) && fs_type@ == "tmpfs"@
    }

    /// Whether a `tmpfs` is mounted at the path.
    pub fn is_on_tmpfs(&self) -> (r: bool)
        ensures
            r == self.on_tmpfs(),
    {
        match &self.lookup {
            MountLookup::Found(fs_type) => str_eq(fs_type.as_str(), "tmpfs"),
            _ => false,
        }
    }
}

/// A copy of a mount is the mount, in every part of it.
pub proof fn law_copied_mount_is_same(m: Mount, r: Mount)
    requires
        call_ensures(Mount::clone, (&m,), r),
    ensures
        r.destination@ == m.destination@,
        r.typ is Some <==> m.typ is Some,
        m.typ matches Some(t) ==> (r.typ matches Some(u) && u@ == t@),
        r.source is Some <==> m.source is Some,
        m.source matches Some(p) ==> (r.source matches Some(q) && q.text@ == p.text@ && q.utf8
            == p.utf8),
        texts(r.options@) == texts(m.options@),
{
    assert(r@.typ == text_of(r.typ));
    assert(m@.typ == text_of(m.typ));
}

/// A path is on a `tmpfs` if and only if one was found mounted there.
pub proof fn law_tmpfs_told(facts: PathFacts, r: bool)
    requires
        call_ensures(PathFacts::is_on_tmpfs, (&facts,), r),
    ensures
        r <==> (facts.lookup matches MountLookup::Found(fs) && fs@ == "tmpfs"@),
{
}

} // verus!
