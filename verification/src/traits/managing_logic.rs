//! The capability contract of the document registry: the public operation
//! surface that any implementation or proxy must satisfy identically.

use vstd::prelude::*;

use crate::data_structure::{
    AccountId, Balance, DocumentView, MAX_VERSIONS, NftDocument, Version, append_version,
    doc_lookup, doc_wf, new_document, next_version, version_sub_key,
};
use crate::traits::nft_token::{mint_effect, supply_or_zero};

verus! {

/// Failure of a registry operation.
#[derive(Clone, Copy, Debug, PartialEq, Eq, Structural)]
pub enum Error {
    /// A document-scoped operation named an id that is not in the store.
    DocumentNotFound,
    /// A call into a collaborating ledger failed; the operation was aborted.
    CollaboratorCallFailed,
    /// Reserved for future access-control checks.
    NotAuthorized,
}

/// The fixed quantity of asset units minted for every created document.
pub const DOCUMENT_MINT_AMOUNT: Balance = 100000;

/// The document registry capability.
///
/// An implementation owns the authoritative document/version log and keeps
/// the collaborating asset ledger's attribute table a faithful mirror of it:
/// `wf()` must entail that every stored version's content hash is mirrored
/// under `(document id, [version id])`.
pub trait ManagingLogic: Sized {
    /// The authoritative document log, in insertion order.
    spec fn docs_view(&self) -> Seq<DocumentView>;

    /// The collaborating asset ledger's attribute table.
    spec fn attributes_view(&self) -> Map<(u32, Seq<u8>), Seq<char>>;

    /// The collaborating asset ledger's per (asset, account) quantities.
    spec fn balances_view(&self) -> Map<(u32, AccountId), Balance>;

    /// The collaborating asset ledger's per-asset supply.
    spec fn asset_supply_view(&self) -> Map<u32, Balance>;

    /// The collaborating asset ledger's count of distinct asset classes.
    spec fn class_count_view(&self) -> Balance;

    /// The collaborating balance ledger's per-account quantities.
    spec fn native_balances_view(&self) -> Map<AccountId, Balance>;

    /// Whether the two asset-ledger calls that a creation by `caller` with
    /// content hash `ipfs_hash` issues — the mint of the next document's id
    /// and the attribute write under sub-key `[0]` — would succeed on the
    /// ledger as it now stands.
    spec fn create_document_ok(&self, caller: AccountId, ipfs_hash: Seq<char>) -> bool;

    /// Whether the attribute write that a version append to `doc_id` with
    /// content hash `ipfs_hash` issues would succeed on the ledger as it
    /// now stands.
    spec fn create_version_document_ok(&self, doc_id: u32, ipfs_hash: Seq<char>) -> bool;

    /// Well-formedness: documents are well formed with dense ids, and the
    /// attribute table mirrors every version's content hash.
    spec fn wf(&self) -> bool;

    /// All documents, in insertion order, as copies.
    fn get_nfts(&self) -> (r: Vec<NftDocument>)
        ensures
            r@.map_values(|d: NftDocument| d@) == self.docs_view(),
    ;

    /// The number of documents in the store.
    fn get_nfts_length(&self) -> (r: u32)
        requires
            self.wf(),
        ensures
            r as int == self.docs_view().len(),
    ;

    /// The number of versions of document `doc_id`.
    fn get_version_doc_length(&self, doc_id: u32) -> (r: Result<u8, Error>)
        requires
            self.wf(),
        ensures
            match r {
                Ok(n) => doc_id < self.docs_view().len() && n as int == self.docs_view()[
                    doc_id as int
                ].versions.len(),
                Err(e) => e == Error::DocumentNotFound && doc_id as int >= self.docs_view().len(),
            },
    ;

    /// Appends a well-formed document under the next id.  The caller must
    /// already have mirrored each of its versions' hashes into the attribute
    /// table; `create_document` is the operation that does both.
    fn add_nft(&mut self, nft: NftDocument)
        requires
            old(self).wf(),
            old(self).docs_view().len() < u32::MAX,
            nft@.id as int == old(self).docs_view().len(),
            doc_wf(nft@),
            forall|j: int|
                0 <= j < nft@.versions.len() ==> old(self).attributes_view().contains_key(
                    (nft@.id, version_sub_key(j)),
                ) && old(self).attributes_view()[(nft@.id, version_sub_key(j))] == (#[trigger]
                nft@.versions[j]).ipfs_hash,
        ensures
            final(self).docs_view() == old(self).docs_view().push(nft@),
            final(self).attributes_view() == old(self).attributes_view(),
            final(self).balances_view() == old(self).balances_view(),
            final(self).asset_supply_view() == old(self).asset_supply_view(),
            final(self).class_count_view() == old(self).class_count_view(),
            final(self).native_balances_view() == old(self).native_balances_view(),
            final(self).wf(),
    ;

    /// A copy of the document at `doc_id`, or nothing when the id is not in
    /// the store — a lookup miss is an expected outcome, not a failure.
    fn get_document(&self, doc_id: u32) -> (r: Option<NftDocument>)
        ensures
            match r {
                Some(d) => doc_lookup(self.docs_view(), doc_id) == Some(d@),
                None => doc_lookup(self.docs_view(), doc_id) is None,
            },
    ;

    /// Creates a document: mints one asset of the new document's id to the
    /// caller, mirrors the content hash under sub-key `[0]`, and appends the
    /// document.  Succeeds exactly when the two ledger calls succeed
    /// (`create_document_ok`); on a ledger failure nothing is appended and
    /// no attribute is written; a failure after the mint leaves at most the
    /// mint applied.  The balance ledger is never touched.
    fn create_document(&mut self, caller: AccountId, title: String, ipfs_hash: String) -> (r:
        Result<NftDocument, Error>)
        requires
            old(self).wf(),
            old(self).docs_view().len() < u32::MAX,
        ensures
            r.is_ok() <==> old(self).create_document_ok(caller, ipfs_hash@),
            final(self).native_balances_view() == old(self).native_balances_view(),
            match r {
                Ok(d) => {
                    &&& d@ == new_document(
                        old(self).docs_view().len() as u32,
                        caller,
                        title@,
                        ipfs_hash@,
                    )
                    &&& final(self).docs_view() == old(self).docs_view().push(d@)
                    &&& final(self).attributes_view() == old(self).attributes_view().insert(
                        (old(self).docs_view().len() as u32, version_sub_key(0)),
                        ipfs_hash@,
                    )
                    &&& mint_effect(
                        old(self).balances_view(),
                        final(self).balances_view(),
                        old(self).asset_supply_view(),
                        final(self).asset_supply_view(),
                        old(self).class_count_view(),
                        final(self).class_count_view(),
                        old(self).docs_view().len() as u32,
                        caller,
                        DOCUMENT_MINT_AMOUNT,
                    )
                    &&& final(self).wf()
                },
                Err(e) => {
                    &&& e == Error::CollaboratorCallFailed
                    &&& final(self).docs_view() == old(self).docs_view()
                    &&& final(self).attributes_view() == old(self).attributes_view()
                    &&& (final(self).balances_view() == old(self).balances_view()
                        && final(self).asset_supply_view() == old(self).asset_supply_view()
                        && final(self).class_count_view() == old(self).class_count_view())
                        || mint_effect(
                        old(self).balances_view(),
                        final(self).balances_view(),
                        old(self).asset_supply_view(),
                        final(self).asset_supply_view(),
                        old(self).class_count_view(),
                        final(self).class_count_view(),
                        old(self).docs_view().len() as u32,
                        caller,
                        DOCUMENT_MINT_AMOUNT,
                    )
                    &&& final(self).wf()
                },
            },
    ;

    /// Appends a version to document `doc_id`: mirrors the content hash
    /// under sub-key `[new version id]`, archives the previously published
    /// version, and publishes the new one.  Succeeds exactly when the id is
    /// in the store and the ledger accepts the attribute write
    /// (`create_version_document_ok`); fails with `DocumentNotFound`
    /// exactly when `doc_id` is not in the store; on any failure the store
    /// and the ledger are left exactly as they were.  The balance ledger is
    /// never touched.
    fn create_version_document(&mut self, caller: AccountId, doc_id: u32, ipfs_hash: String) -> (r:
        Result<Version, Error>)
        requires
            old(self).wf(),
            doc_id < old(self).docs_view().len() ==> old(self).docs_view()[
                doc_id as int
            ].versions.len() < MAX_VERSIONS,
        ensures
            r.is_ok() <==> (doc_id < old(self).docs_view().len() && old(
                self,
            ).create_version_document_ok(doc_id, ipfs_hash@)),
            final(self).native_balances_view() == old(self).native_balances_view(),
            match r {
                Ok(v) => {
                    &&& doc_id < old(self).docs_view().len()
                    &&& v@ == next_version(
                        old(self).docs_view()[doc_id as int],
                        caller,
                        ipfs_hash@,
                    )
                    &&& final(self).docs_view() == old(self).docs_view().update(
                        doc_id as int,
                        append_version(
                            old(self).docs_view()[doc_id as int],
                            caller,
                            ipfs_hash@,
                        ),
                    )
                    &&& final(self).attributes_view() == old(self).attributes_view().insert(
                        (
                            doc_id,
                            version_sub_key(
                                old(self).docs_view()[doc_id as int].versions.len() as int,
                            ),
                        ),
                        ipfs_hash@,
                    )
                    &&& final(self).balances_view() == old(self).balances_view()
                    &&& final(self).asset_supply_view() == old(self).asset_supply_view()
                    &&& final(self).class_count_view() == old(self).class_count_view()
                    &&& final(self).wf()
                },
                Err(e) => {
                    &&& (e == Error::DocumentNotFound || e == Error::CollaboratorCallFailed)
                    &&& (e == Error::DocumentNotFound <==> doc_id as int >= old(
                        self,
                    ).docs_view().len())
                    &&& final(self).docs_view() == old(self).docs_view()
                    &&& final(self).attributes_view() == old(self).attributes_view()
                    &&& final(self).balances_view() == old(self).balances_view()
                    &&& final(self).asset_supply_view() == old(self).asset_supply_view()
                    &&& final(self).class_count_view() == old(self).class_count_view()
                    &&& final(self).wf()
                },
            },
    ;

    /// Pure delegation to the asset ledger's total-supply query.
    fn get_total_supply(&self, token_id: Option<u32>) -> (r: Balance)
        ensures
            r == match token_id {
                Some(id) => supply_or_zero(self.asset_supply_view(), id),
                None => self.class_count_view(),
            },
    ;

    /// Pure delegation to the asset ledger's attribute read.
    fn get_attribute_version(&self, token_id: u32, version_id: Vec<u8>) -> (r: Option<String>)
        ensures
            match r {
                Some(v) => self.attributes_view().contains_key((token_id, version_id@)) && v@
                    == self.attributes_view()[(token_id, version_id@)],
                None => !self.attributes_view().contains_key((token_id, version_id@)),
            },
    ;
}

} // verus!
