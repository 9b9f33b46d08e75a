//! Commits as the resolver sees them: an identifier, and the author and
//! message by which two commits are held to be the same change.

use git2::Oid;
use vstd::prelude::*;

verus! {

/// What identifies a change across a rewrite: who wrote it and what it says.
#[derive(Debug, PartialEq, Eq)]
pub struct Metadata {
    pub author_name: Vec<u8>,
    pub author_email: Vec<u8>,
    pub message: Vec<u8>,
}

/// The mathematical value of a [`Metadata`].
pub ghost struct MetadataView {
    pub author_name: Seq<u8>,
    pub author_email: Seq<u8>,
    pub message: Seq<u8>,
}

impl View for Metadata {
    type V = MetadataView;

    open spec fn view(&self) -> MetadataView {
        MetadataView {
            author_name: self.author_name@,
            author_email: self.author_email@,
            message: self.message@,
        }
    }
}

/// A commit drawn from a walk.
#[derive(Debug, PartialEq, Eq)]
pub struct Commit {
    pub id: Oid,
    pub meta: Metadata,
}

/// The mathematical value of a [`Commit`].
pub ghost struct CommitView {
    pub id: Oid,
    pub meta: MetadataView,
}

impl View for Commit {
    type V = CommitView;

    open spec fn view(&self) -> CommitView {
        CommitView { id: self.id, meta: self.meta@ }
    }
}

/// Whether two byte strings are the same, byte for byte.
pub fn bytes_equal(a: &[u8], b: &[u8]) -> (same: bool)
    ensures
        same == (a@ == b@),
{
    if a.len() != b.len() {
        return false;
    }
    let mut i: usize = 0;
    while i < a.len()
        invariant
            a.len() == b.len(),
            i <= a.len(),
            forall|k: int| 0 <= k < i ==> a@[k] == b@[k],
        decreases a.len() - i,
    {
        if a[i] != b[i] {
            return false;
        }
        i += 1;
    }
    assert(a@ =~= b@);
    true
}

/// A copy of `bytes`.
pub fn copy_bytes(bytes: &Vec<u8>) -> (copy: Vec<u8>)
    ensures
        copy@ == bytes@,
{
    let copy = bytes.clone();
    assert(copy@ =~= bytes@);
    copy
}

impl Clone for Metadata {
    fn clone(&self) -> (copy: Metadata)
        ensures
            copy@ == self@,
    {
        Metadata {
            author_name: copy_bytes(&self.author_name),
            author_email: copy_bytes(&self.author_email),
            message: copy_bytes(&self.message),
        }
    }
}

impl Metadata {
    /// Whether `self` and `other` name the same author and carry the same
    /// message. Nothing is normalised: every byte counts.
    pub fn matches(&self, other: &Metadata) -> (same: bool)
        ensures
            same == (self@ == other@),
    {
        bytes_equal(self.author_name.as_slice(), other.author_name.as_slice())
            && bytes_equal(self.author_email.as_slice(), other.author_email.as_slice())
            && bytes_equal(self.message.as_slice(), other.message.as_slice())
    }
}

impl Clone for Commit {
    fn clone(&self) -> (copy: Commit)
        ensures
            copy@ == self@,
    {
        Commit { id: self.id, meta: self.meta.clone() }
    }
}

} // verus!
