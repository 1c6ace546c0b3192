//! Data model of the document registry: documents, their version histories,
//! the mathematical views the contracts speak of, and the transition
//! functions with the laws that govern them.

use vstd::prelude::*;

verus! {

/// Identity of an account, reduced to the plain integer the registry logic
/// reads.  The hosting environment supplies the caller's identity with every
/// operation.
pub type AccountId = u64;

/// A fungible quantity tracked by the ledgers.
pub type Balance = u128;

/// Role of a secondary collaborator on a document.
#[derive(Clone, Copy, Debug, PartialEq, Eq, Structural)]
pub enum UserRole {
    Developer,
    CoAuthor,
    Partner,
}

/// Whether a version is the one currently published or an archived one.
#[derive(Clone, Copy, Debug, PartialEq, Eq, Structural)]
pub enum DocumentState {
    Published,
    Archived,
}

/// A secondary collaborator record: present in the model, populated by
/// operations outside the creation/versioning flows.
#[derive(Clone, Copy, Debug, PartialEq, Eq, Structural)]
pub struct PostOwner {
    pub user: AccountId,
    pub user_role: UserRole,
    pub point: u32,
}

/// One immutable content snapshot within a document's history.
#[derive(Debug, PartialEq, Eq)]
pub struct Version {
    pub version_id: u8,
    pub contributor: AccountId,
    pub ipfs_hash: String,
    pub state: DocumentState,
}

/// Mathematical view of a `Version`.
#[verifier::ext_equal]
pub struct VersionView {
    pub version_id: u8,
    pub contributor: AccountId,
    pub ipfs_hash: Seq<char>,
    pub state: DocumentState,
}

impl View for Version {
    type V = VersionView;

    open spec fn view(&self) -> VersionView {
        VersionView {
            version_id: self.version_id,
            contributor: self.contributor,
            ipfs_hash: self.ipfs_hash@,
            state: self.state,
        }
    }
}

impl Clone for Version {
    fn clone(&self) -> (r: Self)
        ensures
            r@ == self@,
    {
        Version {
            version_id: self.version_id,
            contributor: self.contributor,
            ipfs_hash: self.ipfs_hash.clone(),
            state: self.state,
        }
    }
}

/// A titled, versioned unit of content tracked by the registry.
#[derive(Debug, PartialEq, Eq)]
pub struct NftDocument {
    pub id: u32,
    pub owner: AccountId,
    pub title: String,
    pub ipfs_hash_doc: String,
    pub post_owner: Vec<PostOwner>,
    pub versions: Vec<Version>,
    pub version_id_publish: u8,
    pub number_upload: u32,
}

/// Mathematical view of an `NftDocument`.
#[verifier::ext_equal]
pub struct DocumentView {
    pub id: u32,
    pub owner: AccountId,
    pub title: Seq<char>,
    pub ipfs_hash_doc: Seq<char>,
    pub post_owner: Seq<PostOwner>,
    pub versions: Seq<VersionView>,
    pub version_id_publish: u8,
    pub number_upload: u32,
}

impl View for NftDocument {
    type V = DocumentView;

    open spec fn view(&self) -> DocumentView {
        DocumentView {
            id: self.id,
            owner: self.owner,
            title: self.title@,
            ipfs_hash_doc: self.ipfs_hash_doc@,
            post_owner: self.post_owner@,
            versions: self.versions@.map_values(|v: Version| v@),
            version_id_publish: self.version_id_publish,
            number_upload: self.number_upload,
        }
    }
}

impl Clone for NftDocument {
    fn clone(&self) -> (r: Self)
        ensures
            r@ == self@,
    {
        let mut post_owner: Vec<PostOwner> = Vec::new();
        let mut i: usize = 0;
        while i < self.post_owner.len()
            invariant
                i <= self.post_owner.len(),
                post_owner@ == self.post_owner@.take(i as int),
            decreases self.post_owner.len() - i,
        {
            post_owner.push(self.post_owner[i]);
            proof {
                assert(post_owner@ =~= self.post_owner@.take(i + 1));
            }
            i = i + 1;
        }
        let mut versions: Vec<Version> = Vec::new();
        let mut j: usize = 0;
        while j < self.versions.len()
            invariant
                j <= self.versions.len(),
                versions@.len() == j,
                forall|k: int| 0 <= k < j ==> versions@[k]@ == self.versions@[k]@,
            decreases self.versions.len() - j,
        {
            versions.push(self.versions[j].clone());
            j = j + 1;
        }
        let r = NftDocument {
            id: self.id,
            owner: self.owner,
            title: self.title.clone(),
            ipfs_hash_doc: self.ipfs_hash_doc.clone(),
            post_owner,
            versions,
            version_id_publish: self.version_id_publish,
            number_upload: self.number_upload,
        };
        proof {
            assert(self.post_owner@.take(self.post_owner@.len() as int) =~= self.post_owner@);
            assert(r.versions@.map_values(|v: Version| v@) =~= self.versions@.map_values(
                |v: Version| v@,
            ));
            assert(r@ =~= self@);
        }
        r
    }
}

/// The largest number of versions one document can hold: version ids and the
/// version count travel as `u8`.
pub const MAX_VERSIONS: usize = 255;

/// The first version of a freshly created document.
pub open spec fn first_version(contributor: AccountId, hash: Seq<char>) -> VersionView {
    VersionView {
        version_id: 0,
        contributor,
        ipfs_hash: hash,
        state: DocumentState::Published,
    }
}

/// The document record that a creation with the given inputs appends.
pub open spec fn new_document(
    id: u32,
    owner: AccountId,
    title: Seq<char>,
    hash: Seq<char>,
) -> DocumentView {
    DocumentView {
        id,
        owner,
        title,
        ipfs_hash_doc: hash,
        post_owner: Seq::empty(),
        versions: seq![first_version(owner, hash)],
        version_id_publish: 0,
        number_upload: 1,
    }
}

/// `v`, with its state flipped to `Archived`.
pub open spec fn archived(v: VersionView) -> VersionView {
    VersionView {
        version_id: v.version_id,
        contributor: v.contributor,
        ipfs_hash: v.ipfs_hash,
        state: DocumentState::Archived,
    }
}

/// The version record that an append with the given inputs adds to `d`.
pub open spec fn next_version(
    d: DocumentView,
    contributor: AccountId,
    hash: Seq<char>,
) -> VersionView {
    VersionView {
        version_id: d.versions.len() as u8,
        contributor,
        ipfs_hash: hash,
        state: DocumentState::Published,
    }
}

/// The document `d` after a successful version append: the previously
/// published version is archived, the new version is appended and published,
/// and the document's current content hash follows it.
pub open spec fn append_version(
    d: DocumentView,
    contributor: AccountId,
    hash: Seq<char>,
) -> DocumentView {
    DocumentView {
        id: d.id,
        owner: d.owner,
        title: d.title,
        ipfs_hash_doc: hash,
        post_owner: d.post_owner,
        versions: d.versions.update(
            d.version_id_publish as int,
            archived(d.versions[d.version_id_publish as int]),
        ).push(next_version(d, contributor, hash)),
        version_id_publish: d.versions.len() as u8,
        number_upload: (d.number_upload + 1) as u32,
    }
}

/// Well-formedness of one document: version ids are exactly `0..N-1` in
/// order, the last version is the single published one, the published id and
/// the upload count are derived from the length, and the document's content
/// hash is the published version's.
pub open spec fn doc_wf(d: DocumentView) -> bool {
    &&& 1 <= d.versions.len() <= MAX_VERSIONS
    &&& d.number_upload == d.versions.len()
    &&& d.version_id_publish as int == d.versions.len() - 1
    &&& forall|i: int|
        0 <= i < d.versions.len() ==> (#[trigger] d.versions[i]).version_id as int == i
    &&& forall|i: int|
        0 <= i < d.versions.len() ==> (#[trigger] d.versions[i]).state == (if i == d.versions.len()
            - 1 {
            DocumentState::Published
        } else {
            DocumentState::Archived
        })
    &&& d.ipfs_hash_doc == d.versions.last().ipfs_hash
}

/// Well-formedness of the document store: every document is well formed and
/// its id equals its position in insertion order.
pub open spec fn docs_wf(docs: Seq<DocumentView>) -> bool {
    &&& docs.len() <= u32::MAX
    &&& forall|i: int|
        0 <= i < docs.len() ==> (#[trigger] docs[i]).id as int == i && doc_wf(docs[i])
}

/// The sub-key under which a version's content hash is mirrored into the
/// asset ledger's attribute table.
pub open spec fn version_sub_key(j: int) -> Seq<u8> {
    seq![j as u8]
}

/// The mirror invariant: the asset ledger's attribute table holds, for every
/// document and every version id, the content hash that the authoritative
/// store holds.
pub open spec fn mirror_wf(
    docs: Seq<DocumentView>,
    attrs: Map<(u32, Seq<u8>), Seq<char>>,
) -> bool {
    forall|i: int, j: int|
        0 <= i < docs.len() && 0 <= j < docs[i].versions.len() ==> {
            &&& attrs.contains_key((i as u32, version_sub_key(j)))
            &&& attrs[(i as u32, version_sub_key(j))] == (#[trigger] docs[i].versions[j]).ipfs_hash
        }
}

/// Looking a document up by id: the record at that position, if any.
pub open spec fn doc_lookup(docs: Seq<DocumentView>, doc_id: u32) -> Option<DocumentView> {
    if doc_id < docs.len() {
        Some(docs[doc_id as int])
    } else {
        None
    }
}

/// A freshly created document is well formed, carries the requested id,
/// title and hash, and opens its history with a single published version.
pub proof fn lemma_new_document_well_formed(
    id: u32,
    owner: AccountId,
    title: Seq<char>,
    hash: Seq<char>,
)
    ensures
        doc_wf(new_document(id, owner, title, hash)),
        new_document(id, owner, title, hash).versions =~= seq![first_version(owner, hash)],
        new_document(id, owner, title, hash).number_upload == 1,
{
}

/// Document ids are densely assigned: appending the document created at the
/// current count keeps every id equal to its 0-based creation order, and
/// grows the count by exactly one.
pub proof fn lemma_create_extends_ids(
    docs: Seq<DocumentView>,
    owner: AccountId,
    title: Seq<char>,
    hash: Seq<char>,
)
    requires
        docs_wf(docs),
        docs.len() < u32::MAX,
    ensures
        docs_wf(docs.push(new_document(docs.len() as u32, owner, title, hash))),
        docs.push(new_document(docs.len() as u32, owner, title, hash)).len() == docs.len() + 1,
{
    let d = new_document(docs.len() as u32, owner, title, hash);
    let docs2 = docs.push(d);
    lemma_new_document_well_formed(docs.len() as u32, owner, title, hash);
    assert forall|i: int| 0 <= i < docs2.len() implies (#[trigger] docs2[i]).id as int == i
        && doc_wf(docs2[i]) by {
        if i < docs.len() {
            assert(docs2[i] == docs[i]);
        } else {
            assert(docs2[i] == d);
        }
    }
}

/// Appending any well-formed document under the next id keeps the store well
/// formed.
pub proof fn lemma_docs_wf_push(docs: Seq<DocumentView>, d: DocumentView)
    requires
        docs_wf(docs),
        docs.len() < u32::MAX,
        d.id as int == docs.len(),
        doc_wf(d),
    ensures
        docs_wf(docs.push(d)),
{
    let docs2 = docs.push(d);
    assert forall|i: int| 0 <= i < docs2.len() implies (#[trigger] docs2[i]).id as int == i
        && doc_wf(docs2[i]) by {
        if i < docs.len() {
            assert(docs2[i] == docs[i]);
        }
    }
}

/// A successful version append advances the upload count by exactly one,
/// publishes the version whose id is the new count minus one, archives the
/// previously published version, and leaves exactly one published version —
/// and the document stays well formed.
pub proof fn lemma_append_version_publishes(
    d: DocumentView,
    contributor: AccountId,
    hash: Seq<char>,
)
    requires
        doc_wf(d),
        d.versions.len() < MAX_VERSIONS,
    ensures
        doc_wf(append_version(d, contributor, hash)),
        append_version(d, contributor, hash).number_upload == d.number_upload + 1,
        append_version(d, contributor, hash).version_id_publish as int == append_version(
            d,
            contributor,
            hash,
        ).number_upload - 1,
        append_version(d, contributor, hash).versions[d.version_id_publish as int].state
            == DocumentState::Archived,
        forall|i: int|
            0 <= i < append_version(d, contributor, hash).versions.len() ==> ((#[trigger]
            append_version(d, contributor, hash).versions[i]).state == DocumentState::Published
                <==> i == append_version(d, contributor, hash).versions.len() - 1),
{
    let d2 = append_version(d, contributor, hash);
    assert(d2.versions.len() == d.versions.len() + 1);
    assert forall|i: int| 0 <= i < d2.versions.len() implies (#[trigger] d2.versions[i]).version_id
        as int == i by {
        if i < d.versions.len() - 1 {
            assert(d2.versions[i] == d.versions[i]);
        }
    }
    assert forall|i: int| 0 <= i < d2.versions.len() implies (#[trigger] d2.versions[i]).state == (
    if i == d2.versions.len() - 1 {
        DocumentState::Published
    } else {
        DocumentState::Archived
    }) by {
        if i < d.versions.len() - 1 {
            assert(d2.versions[i] == d.versions[i]);
        }
    }
}

/// Round trip: looking up the id that a creation assigned, immediately after
/// the creation, returns exactly the record the creation appended.
pub proof fn lemma_lookup_after_create(
    docs: Seq<DocumentView>,
    owner: AccountId,
    title: Seq<char>,
    hash: Seq<char>,
)
    requires
        docs.len() < u32::MAX,
    ensures
        doc_lookup(
            docs.push(new_document(docs.len() as u32, owner, title, hash)),
            docs.len() as u32,
        ) == Some(new_document(docs.len() as u32, owner, title, hash)),
{
}

/// The mirror survives recording an attribute for a document id that is not
/// yet in the store.
pub proof fn lemma_mirror_insert_new_doc(
    docs: Seq<DocumentView>,
    attrs: Map<(u32, Seq<u8>), Seq<char>>,
    id: u32,
    key: Seq<u8>,
    value: Seq<char>,
)
    requires
        mirror_wf(docs, attrs),
        id as int >= docs.len(),
    ensures
        mirror_wf(docs, attrs.insert((id, key), value)),
{
    let attrs2 = attrs.insert((id, key), value);
    assert forall|i: int, j: int|
        0 <= i < docs.len() && 0 <= j < docs[i].versions.len() implies {
        &&& attrs2.contains_key((i as u32, version_sub_key(j)))
        &&& attrs2[(i as u32, version_sub_key(j))] == (#[trigger] docs[i].versions[j]).ipfs_hash
    } by {
        assert(attrs.contains_key((i as u32, version_sub_key(j))));
        assert((i as u32, version_sub_key(j)) != (id, key));
    }
}

/// The mirror extends to a pushed document whose versions are all already
/// recorded in the attribute table.
pub proof fn lemma_mirror_push(
    docs: Seq<DocumentView>,
    attrs: Map<(u32, Seq<u8>), Seq<char>>,
    d: DocumentView,
)
    requires
        mirror_wf(docs, attrs),
        d.id as int == docs.len(),
        forall|j: int|
            0 <= j < d.versions.len() ==> attrs.contains_key((d.id, version_sub_key(j)))
                && attrs[(d.id, version_sub_key(j))] == (#[trigger] d.versions[j]).ipfs_hash,
    ensures
        mirror_wf(docs.push(d), attrs),
{
    let docs2 = docs.push(d);
    assert forall|i: int, j: int|
        0 <= i < docs2.len() && 0 <= j < docs2[i].versions.len() implies {
        &&& attrs.contains_key((i as u32, version_sub_key(j)))
        &&& attrs[(i as u32, version_sub_key(j))] == (#[trigger] docs2[i].versions[j]).ipfs_hash
    } by {
        if i < docs.len() {
            assert(docs2[i] == docs[i]);
            assert(docs[i].versions[j] == docs2[i].versions[j]);
        } else {
            assert(docs2[i] == d);
            assert(i as u32 == d.id);
        }
    }
}

/// The mirror survives a version append: recording the new version's hash
/// under its sub-key and updating the one document in place keeps every
/// mirrored entry, old and new, in agreement with the store.
pub proof fn lemma_mirror_after_append(
    docs: Seq<DocumentView>,
    attrs: Map<(u32, Seq<u8>), Seq<char>>,
    doc_id: u32,
    contributor: AccountId,
    hash: Seq<char>,
)
    requires
        docs_wf(docs),
        mirror_wf(docs, attrs),
        doc_id < docs.len(),
        docs[doc_id as int].versions.len() < MAX_VERSIONS,
    ensures
        docs_wf(
            docs.update(doc_id as int, append_version(docs[doc_id as int], contributor, hash)),
        ),
        mirror_wf(
            docs.update(doc_id as int, append_version(docs[doc_id as int], contributor, hash)),
            attrs.insert(
                (doc_id, version_sub_key(docs[doc_id as int].versions.len() as int)),
                hash,
            ),
        ),
{
    let d = docs[doc_id as int];
    let n = d.versions.len() as int;
    let d2 = append_version(d, contributor, hash);
    let docs2 = docs.update(doc_id as int, d2);
    let attrs2 = attrs.insert((doc_id, version_sub_key(n)), hash);
    lemma_append_version_publishes(d, contributor, hash);
    assert forall|i: int| 0 <= i < docs2.len() implies (#[trigger] docs2[i]).id as int == i
        && doc_wf(docs2[i]) by {
        if i != doc_id {
            assert(docs2[i] == docs[i]);
        }
    }
    assert forall|i: int, j: int|
        0 <= i < docs2.len() && 0 <= j < docs2[i].versions.len() implies {
        &&& attrs2.contains_key((i as u32, version_sub_key(j)))
        &&& attrs2[(i as u32, version_sub_key(j))] == (#[trigger] docs2[i].versions[j]).ipfs_hash
    } by {
        if i == doc_id {
            if j == n {
                assert(d2.versions[j] == next_version(d, contributor, hash));
            } else {
                assert(docs2[i].versions[j].ipfs_hash == d.versions[j].ipfs_hash);
                assert(attrs.contains_key((i as u32, version_sub_key(j))));
                assert(0 <= j < n <= MAX_VERSIONS);
                assert(version_sub_key(j)[0] == j as u8);
                assert(version_sub_key(n)[0] == n as u8);
                assert(version_sub_key(j) != version_sub_key(n));
            }
        } else {
            assert(docs2[i] == docs[i]);
            assert(docs[i].versions[j] == docs2[i].versions[j]);
            assert(attrs.contains_key((i as u32, version_sub_key(j))));
            assert((i as u32, version_sub_key(j)) != (doc_id, version_sub_key(n)));
        }
    }
}

} // verus!
